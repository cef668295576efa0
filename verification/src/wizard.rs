//! The audio setup of the soundboard: choosing a destination, and creating or removing the
//! managed mix.

use vstd::prelude::*;

use crate::app;
use crate::app::{Action, App};
use crate::audio;
use crate::audio::{
    sources_for_sink, AudioNode, CommandResult, Diagnostics, MANAGED_SINK_NAME,
    MANAGED_SOURCE_NAME,
};
use crate::failure::Failure;
use crate::key::{Key, KeyCode};
use crate::library::{AudioSettings, Settings};
use crate::setup;
use crate::setup::{preferred_destination_index, AudioSetup, AudioSetupStep};
use crate::text;
use crate::text::{join, join2, join3};

verus! {

/// The state differs in the error of the open setup alone.
pub open spec fn setup_fails(before: App, after: App, text: Seq<char>) -> bool {
    match before.audio_setup {
        Some(setup) => {
            &&& after.audio_setup is Some && after.audio_setup->Some_0.error is Some
            &&& after.audio_setup->Some_0.error->Some_0@ == text
            &&& after == (App {
                audio_setup: Some(
                    AudioSetup { error: after.audio_setup->Some_0.error, ..setup },
                ),
                ..before
            })
        },
        None => after == before,
    }
}

/// The setup goes to a step, with this selection and no error.
pub open spec fn goes_to(before: App, after: App, step: AudioSetupStep, selected: int) -> bool {
    &&& before.audio_setup is Some
    &&& after == (App {
        audio_setup: Some(
            AudioSetup {
                step,
                selected_index: selected as usize,
                error: None,
                ..before.audio_setup->Some_0
            },
        ),
        ..before
    })
}

/// The state with other audio settings.
pub open spec fn with_audio(state: App, audio: AudioSettings) -> App {
    App { settings: Settings { audio, ..state.settings }, ..state }
}

/// The settings send sounds to this sink, heard through this virtual microphone.
pub open spec fn existing_destination(
    settings: AudioSettings,
    sink: Seq<char>,
    source: Seq<char>,
) -> bool {
    &&& settings.onboarding_complete
    &&& settings.mix_sink is Some && settings.mix_sink->Some_0@ == sink
    &&& settings.virtual_source is Some && settings.virtual_source->Some_0@ == source
    &&& settings.physical_source is None
    &&& !settings.managed_mix
}

/// The settings send sounds to the managed mix with this physical microphone.
pub open spec fn managed_destination(settings: AudioSettings, source: Seq<char>) -> bool {
    &&& settings.onboarding_complete
    &&& settings.mix_sink is Some && settings.mix_sink->Some_0@ == MANAGED_SINK_NAME@
    &&& settings.virtual_source is Some && settings.virtual_source->Some_0@
        == MANAGED_SOURCE_NAME@
    &&& settings.physical_source is Some && settings.physical_source->Some_0@ == source
    &&& settings.managed_mix
}

/// The audio settings are others, and are to be stored.
pub open spec fn audio_changed(before: App, after: App, action: Action) -> bool {
    &&& after == with_audio(before, after.settings.audio)
    &&& action == (Action::SaveAudio { previous: before.settings.audio })
}

/// What the open setup does with a key.
pub open spec fn setup_key(before: App, key: Key, after: App, action: Action) -> bool {
    let setup = before.audio_setup->Some_0;
    match key.code {
        KeyCode::Escape => action is Nothing && if setup.required {
            app::shows_error(
                App { audio_setup: None, ..before },
                after,
                "Audio is not configured. Press A to run audio setup before playing."@,
            )
        } else {
            after == (App { audio_setup: None, ..before })
        },
        KeyCode::Character('r') | KeyCode::Character('R') => after == before
            && action is RefreshSetup,
        KeyCode::Character('x') | KeyCode::Character('X') => after == before
            && if before.settings.audio.managed_mix {
            action is RemoveMix
        } else {
            action is Nothing
        },
        KeyCode::Down => action is Nothing && after == (App {
            audio_setup: Some(setup.selecting_next()),
            ..before
        }),
        KeyCode::Up => action is Nothing && after == (App {
            audio_setup: Some(setup.selecting_previous()),
            ..before
        }),
        KeyCode::Enter => advanced(before, after, action),
        _ => action is Nothing && after == before,
    }
}

/// The error that the first step shows: what does not work, a line for each.
pub open spec fn diagnostics_text(diagnostics: Diagnostics) -> Seq<char> {
    text::joined(diagnostics.messages(), "\n"@)
}

/// What confirming the open setup's step leads to.
pub open spec fn advanced(before: App, after: App, action: Action) -> bool {
    match before.audio_setup {
        Some(setup) => match setup.step {
            AudioSetupStep::Diagnostics => action is Nothing
                && if setup.diagnostics.pipewire_error is None
                && setup.diagnostics.mpv_error is None {
                goes_to(
                    before,
                    after,
                    AudioSetupStep::Destination,
                    setup::preferred_destination(setup.diagnostics),
                )
            } else {
                setup_fails(before, after, diagnostics_text(setup.diagnostics))
            },
            AudioSetupStep::Destination => if setup.selected_index == 0 {
                action is Nothing && creation_chosen(before, after, setup)
            } else {
                destination_chosen(before, after, setup, action)
            },
            AudioSetupStep::VirtualSource => source_chosen(before, after, setup, action),
            AudioSetupStep::PhysicalSource => action is Nothing && microphone_chosen(
                before,
                after,
                setup,
            ),
            AudioSetupStep::ConfirmCreation => after == before && match setup.selected_source {
                Some(source) => action == (Action::InstallMix { source }),
                None => action is Nothing,
            },
        },
        None => after == before && action is Nothing,
    }
}

/// The creation of the managed mix was chosen: a physical microphone is asked for, if the mix can
/// be created and there is one.
pub open spec fn creation_chosen(before: App, after: App, setup: AudioSetup) -> bool {
    if setup.diagnostics.pulse_error is Some {
        setup_fails(before, after, setup.diagnostics.pulse_error->Some_0@)
    } else if setup.diagnostics.pipewire_error is Some {
        setup_fails(before, after, "PipeWire mix creation is unavailable."@)
    } else if setup.diagnostics.inventory.physical_sources@.len() == 0 {
        setup_fails(before, after, "No physical microphone was detected."@)
    } else {
        goes_to(before, after, AudioSetupStep::PhysicalSource, 0)
    }
}

/// An existing sink was chosen: the sources that follow it are to be found. While the managed mix
/// is in use none can be chosen.
pub open spec fn destination_chosen(
    before: App,
    after: App,
    setup: AudioSetup,
    action: Action,
) -> bool {
    let at = setup.selected_index - 1;
    if before.settings.audio.managed_mix {
        action is Nothing && setup_fails(
            before,
            after,
            "Remove the managed mix with x before selecting another destination."@,
        )
    } else if at < setup.virtual_choices().len() {
        after == before && action == (Action::FindSources { sink: setup.virtual_choices()[at] })
    } else {
        after == before && action is Nothing
    }
}

/// A virtual microphone was chosen: it and the sink become the settings.
pub open spec fn source_chosen(
    before: App,
    after: App,
    setup: AudioSetup,
    action: Action,
) -> bool {
    let at = setup.selected_index as int;
    if setup.selected_sink is Some && at < setup.compatible_sources@.len() {
        &&& audio_changed(before, after, action)
        &&& existing_destination(
            after.settings.audio,
            setup.selected_sink->Some_0@,
            setup.compatible_sources@[at].name@,
        )
    } else {
        action is Nothing && setup_fails(
            before,
            after,
            "No virtual microphone source is available for this destination."@,
        )
    }
}

/// A physical microphone was chosen: the creation of the mix is to be confirmed.
pub open spec fn microphone_chosen(before: App, after: App, setup: AudioSetup) -> bool {
    let sources = setup.diagnostics.inventory.physical_sources@;
    let at = setup.selected_index as int;
    if at < sources.len() {
        after == (App {
            audio_setup: Some(
                AudioSetup {
                    selected_source: Some(sources[at].name),
                    step: AudioSetupStep::ConfirmCreation,
                    selected_index: 0,
                    error: None,
                    ..setup
                },
            ),
            ..before
        })
    } else {
        after == before
    }
}

/// The place of the sink's own monitor among the sources, or the first place.
pub open spec fn monitor_place(sources: Seq<AudioNode>, sink: Seq<char>, place: int) -> bool {
    if audio::has_node(sources, sink + ".monitor"@) {
        &&& 0 <= place < sources.len() && sources[place].name@ == sink + ".monitor"@
        &&& forall|i: int| 0 <= i < place ==> (#[trigger] sources[i]).name@ != sink + ".monitor"@
    } else {
        place == 0
    }
}

/// What finding the sources that follow a sink leads to: one of them is asked for, with the
/// sink's own monitor selected; where there is none, or the modules could not be listed, an error
/// is shown.
pub open spec fn sources_offered(
    before: App,
    after: App,
    sink: AudioNode,
    modules: CommandResult,
) -> bool {
    match before.audio_setup {
        Some(setup) => match modules {
            Ok(output) => {
                let sources = audio::sources_following(
                    setup.diagnostics.inventory.virtual_sources@,
                    text::lossy_text(output.stdout@),
                    sink.name@,
                );
                if sources.len() == 0 {
                    setup_fails(
                        before,
                        after,
                        "No virtual microphone source is connected to "@ + sink.description@
                            + "."@,
                    )
                } else {
                    &&& after.audio_setup is Some
                    &&& after.audio_setup->Some_0.compatible_sources@ == sources
                    &&& monitor_place(
                        sources,
                        sink.name@,
                        after.audio_setup->Some_0.selected_index as int,
                    )
                    &&& after == (App {
                        audio_setup: Some(
                            AudioSetup {
                                selected_sink: Some(sink.name),
                                compatible_sources: after.audio_setup->Some_0.compatible_sources,
                                step: AudioSetupStep::VirtualSource,
                                selected_index: after.audio_setup->Some_0.selected_index,
                                error: None,
                                ..setup
                            },
                        ),
                        ..before
                    })
                }
            },
            Err(message) => setup_fails(
                before,
                after,
                "Could not validate the virtual microphone: "@ + message@,
            ),
        },
        None => after == before,
    }
}

/// What storing changed audio settings leads to. Stored ones end the setup. Otherwise the previous
/// ones are back, and a mix that was installed in the meantime is to be undone: by installing it
/// for the previous microphone, or by removing it.
pub open spec fn audio_settled(
    before: App,
    after: App,
    previous: AudioSettings,
    stored: Result<(), Failure>,
    now: u64,
    action: Action,
) -> bool {
    let restored = with_audio(before, previous);
    match stored {
        Ok(_) => action is Nothing && app::shows_status(
            App { audio_setup: None, ..before },
            after,
            "Audio destination configured: "@ + match before.settings.audio.mix_sink {
                Some(sink) => sink@,
                None => Seq::empty(),
            } + "."@,
            now,
        ),
        Err(failure) => if before.settings.audio.managed_mix && previous.managed_mix {
            match previous.physical_source {
                Some(source) => after == restored && action == (Action::Reinstall {
                    source,
                    failure,
                }),
                None => action is Nothing && setup_fails(
                    restored,
                    after,
                    unsaved_text(failure.message@, Some("previous microphone is missing"@)),
                ),
            }
        } else if before.settings.audio.managed_mix {
            after == restored && action == (Action::UndoInstall { failure })
        } else {
            action is Nothing && setup_fails(
                restored,
                after,
                unsaved_text(failure.message@, None),
            )
        },
    }
}

/// The message for audio settings that could not be stored: with what kept the mix from being
/// undone, if anything did.
pub open spec fn unsaved_text(failure: Seq<char>, undo_failure: Option<Seq<char>>) -> Seq<char> {
    "Could not save audio settings: "@ + failure + match undo_failure {
        Some(message) => "; could not remove the new mix: "@ + message,
        None => "; audio setup restored"@,
    }
}

/// What storing the settings after the mix was removed leads to. Where that failed, the previous
/// ones are back, and the mix is to be installed again.
pub open spec fn removal_settled(
    before: App,
    after: App,
    previous: AudioSettings,
    stored: Result<(), Failure>,
    action: Action,
) -> bool {
    let restored = with_audio(before, previous);
    match stored {
        Ok(_) => after == before && action is RefreshRemoved,
        Err(failure) => match previous.physical_source {
            Some(source) => after == restored && action == (Action::RestoreMix {
                source,
                failure,
            }),
            None => action is Nothing && setup_fails(
                restored,
                after,
                unremoved_text(failure.message@, Some("saved physical microphone is missing"@)),
            ),
        },
    }
}

/// The message for settings that could not be stored after the mix was removed: with what kept
/// the mix from being installed again, if anything did.
pub open spec fn unremoved_text(
    failure: Seq<char>,
    restore_failure: Option<Seq<char>>,
) -> Seq<char> {
    "Could not save settings after removal: "@ + failure + match restore_failure {
        Some(message) => "; could not restore mix: "@ + message,
        None => "; mix restored"@,
    }
}

fn diagnostics_message(diagnostics: &Diagnostics) -> (message: String)
    ensures
        message@ == diagnostics_text(*diagnostics),
{
    let errors = diagnostics.errors();
    let mut texts: Vec<String> = Vec::new();
    let mut i: usize = 0;
    while i < errors.len()
        invariant
            i <= errors@.len(),
            text::views(texts@) == audio::str_views(errors@).take(i as int),
        decreases errors@.len() - i,
    {
        let ghost before = text::views(texts@);
        texts.push(errors[i].to_owned());
        assert(text::views(texts@) =~= before.push(errors@[i as int]@));
        assert(audio::str_views(errors@).take(i + 1) =~= audio::str_views(errors@).take(
            i as int,
        ).push(errors@[i as int]@));
        i += 1;
    }
    assert(audio::str_views(errors@).take(i as int) =~= audio::str_views(errors@));
    join(&texts, "\n")
}

fn find_monitor(sources: &Vec<AudioNode>, sink: &str) -> (place: usize)
    ensures
        monitor_place(sources@, sink@, place as int),
{
    let monitor = join2(sink, ".monitor");
    let mut i: usize = 0;
    while i < sources.len()
        invariant
            i <= sources@.len(),
            monitor@ == sink@ + ".monitor"@,
            forall|k: int| 0 <= k < i ==> (#[trigger] sources@[k]).name@ != monitor@,
        decreases sources@.len() - i,
    {
        if sources[i].name.as_str().eq(monitor.as_str()) {
            return i;
        }
        i += 1;
    }
    0
}

fn unsaved_message(failure: &str, undo_failure: Option<&str>) -> (message: String)
    ensures
        message@ == unsaved_text(
            failure@,
            match undo_failure {
                Some(message) => Some(message@),
                None => None,
            },
        ),
{
    let rest = match undo_failure {
        Some(message) => join2("; could not remove the new mix: ", message),
        None => "; audio setup restored".to_owned(),
    };
    join3("Could not save audio settings: ", failure, &rest)
}

fn unremoved_message(failure: &str, restore_failure: Option<&str>) -> (message: String)
    ensures
        message@ == unremoved_text(
            failure@,
            match restore_failure {
                Some(message) => Some(message@),
                None => None,
            },
        ),
{
    let rest = match restore_failure {
        Some(message) => join2("; could not restore mix: ", message),
        None => "; mix restored".to_owned(),
    };
    join3("Could not save settings after removal: ", failure, &rest)
}

impl App {
    fn set_setup_error(&mut self, text: String)
        ensures
            setup_fails(*old(self), *final(self), text@),
    {
        if let Some(setup) = &mut self.audio_setup {
            setup.error = Some(text);
        }
    }

    fn go_to(&mut self, step: AudioSetupStep, selected: usize)
        requires
            old(self).audio_setup is Some,
        ensures
            goes_to(*old(self), *final(self), step, selected as int),
    {
        if let Some(setup) = &mut self.audio_setup {
            setup.step = step;
            setup.selected_index = selected;
            setup.error = None;
        }
    }

    /// Opens the setup, with these diagnostics.
    pub fn setup_opened(&mut self, diagnostics: Diagnostics)
        ensures
            final(self).audio_setup is Some,
            final(self).audio_setup->Some_0.opened(diagnostics, false),
            *final(self) == (App {
                audio_setup: final(self).audio_setup,
                status_message: None,
                ..*old(self)
            }),
    {
        self.audio_setup = Some(AudioSetup::new(diagnostics, false));
        self.status_message = None;
    }

    /// Takes new diagnostics for the open setup.
    pub fn setup_refreshed(&mut self, diagnostics: Diagnostics)
        ensures
            match old(self).audio_setup {
                Some(setup) => {
                    &&& final(self).audio_setup is Some
                    &&& final(self).audio_setup->Some_0.refreshed(setup, diagnostics)
                    &&& *final(self) == (App {
                        audio_setup: final(self).audio_setup,
                        ..*old(self)
                    })
                },
                None => *final(self) == *old(self),
            },
    {
        if let Some(setup) = &mut self.audio_setup {
            setup.refresh(diagnostics);
        }
    }

    /// Takes a key for the open setup.
    pub fn handle_audio_setup_key(&mut self, key: Key) -> (action: Action)
        requires
            old(self).audio_setup is Some,
        ensures
            setup_key(*old(self), key, *final(self), action),
    {
        match key.code {
            KeyCode::Escape => {
                let required = match &self.audio_setup {
                    Some(setup) => setup.required,
                    None => false,
                };
                self.audio_setup = None;
                if required {
                    self.set_error(
                        "Audio is not configured. Press A to run audio setup before playing."
                            .to_owned(),
                    );
                }
                Action::Nothing
            },
            KeyCode::Character('r') | KeyCode::Character('R') => Action::RefreshSetup,
            KeyCode::Character('x') | KeyCode::Character('X') => {
                if self.settings.audio.managed_mix {
                    Action::RemoveMix
                } else {
                    Action::Nothing
                }
            },
            KeyCode::Down => {
                if let Some(setup) = &mut self.audio_setup {
                    setup.select_next();
                }
                Action::Nothing
            },
            KeyCode::Up => {
                if let Some(setup) = &mut self.audio_setup {
                    setup.select_previous();
                }
                Action::Nothing
            },
            KeyCode::Enter => self.advance_audio_setup(),
            _ => Action::Nothing,
        }
    }

    /// Confirms the open setup's step.
    pub fn advance_audio_setup(&mut self) -> (action: Action)
        ensures
            advanced(*old(self), *final(self), action),
    {
        let setup = match &self.audio_setup {
            Some(setup) => setup,
            None => return Action::Nothing,
        };
        let selected_index = setup.selected_index;
        match setup.step {
            AudioSetupStep::Diagnostics => {
                if setup.diagnostics.playback_ready() {
                    let preferred = preferred_destination_index(&setup.diagnostics);
                    self.go_to(AudioSetupStep::Destination, preferred);
                } else {
                    let message = diagnostics_message(&setup.diagnostics);
                    self.set_setup_error(message);
                }
                Action::Nothing
            },
            AudioSetupStep::Destination => {
                if selected_index == 0 {
                    self.choose_creation();
                    return Action::Nothing;
                }
                if self.settings.audio.managed_mix {
                    self.set_setup_error(
                        "Remove the managed mix with x before selecting another destination."
                            .to_owned(),
                    );
                    return Action::Nothing;
                }
                let sinks = setup.virtual_sinks();
                assert(sinks@.unref().len() == sinks@.len());
                if selected_index - 1 < sinks.len() {
                    assert(sinks@.unref()[selected_index - 1] == *sinks@[selected_index - 1]);
                    Action::FindSources { sink: sinks[selected_index - 1].clone() }
                } else {
                    Action::Nothing
                }
            },
            AudioSetupStep::VirtualSource => {
                if selected_index < setup.compatible_sources.len() {
                    if let Some(sink) = &setup.selected_sink {
                        let settings = AudioSettings {
                            onboarding_complete: true,
                            virtual_source: Some(
                                setup.compatible_sources[selected_index].name.clone(),
                            ),
                            mix_sink: Some(sink.clone()),
                            physical_source: None,
                            managed_mix: false,
                        };
                        return self.save_audio_setup(settings);
                    }
                }
                self.set_setup_error(
                    "No virtual microphone source is available for this destination.".to_owned(),
                );
                Action::Nothing
            },
            AudioSetupStep::PhysicalSource => {
                let sources = &setup.diagnostics.inventory.physical_sources;
                if selected_index < sources.len() {
                    let source = sources[selected_index].name.clone();
                    if let Some(setup) = &mut self.audio_setup {
                        setup.selected_source = Some(source);
                        setup.step = AudioSetupStep::ConfirmCreation;
                        setup.selected_index = 0;
                        setup.error = None;
                    }
                }
                Action::Nothing
            },
            AudioSetupStep::ConfirmCreation => match &setup.selected_source {
                Some(source) => Action::InstallMix { source: source.clone() },
                None => Action::Nothing,
            },
        }
    }

    fn choose_creation(&mut self)
        requires
            old(self).audio_setup is Some,
        ensures
            creation_chosen(*old(self), *final(self), old(self).audio_setup->Some_0),
    {
        let setup = match &self.audio_setup {
            Some(setup) => setup,
            None => return ,
        };
        if !setup.diagnostics.creation_ready() {
            let message = match &setup.diagnostics.pulse_error {
                Some(message) => message.clone(),
                None => "PipeWire mix creation is unavailable.".to_owned(),
            };
            self.set_setup_error(message);
        } else if setup.diagnostics.inventory.physical_sources.len() == 0 {
            self.set_setup_error("No physical microphone was detected.".to_owned());
        } else {
            self.go_to(AudioSetupStep::PhysicalSource, 0);
        }
    }

    /// Takes the list of loaded modules that was asked for to find a sink's sources.
    pub fn sources_found(&mut self, sink: AudioNode, modules: &CommandResult)
        ensures
            sources_offered(*old(self), *final(self), sink, *modules),
    {
        let found = match &self.audio_setup {
            Some(setup) => sources_for_sink(&setup.diagnostics, &sink.name, modules),
            None => return ,
        };
        let sources = match found {
            Ok(sources) => sources,
            Err(failure) => {
                self.set_setup_error(
                    join2("Could not validate the virtual microphone: ", &failure.message),
                );
                return ;
            },
        };
        if sources.len() == 0 {
            self.set_setup_error(
                join3(
                    "No virtual microphone source is connected to ",
                    &sink.description,
                    ".",
                ),
            );
            return ;
        }
        let selected_index = find_monitor(&sources, &sink.name);
        if let Some(setup) = &mut self.audio_setup {
            setup.selected_sink = Some(sink.name);
            setup.compatible_sources = sources;
            setup.step = AudioSetupStep::VirtualSource;
            setup.selected_index = selected_index;
            setup.error = None;
        }
    }

    /// Puts other audio settings in the place of the present ones.
    pub fn save_audio_setup(&mut self, audio_settings: AudioSettings) -> (action: Action)
        ensures
            audio_changed(*old(self), *final(self), action),
            final(self).settings.audio == audio_settings,
    {
        let previous = self.settings.audio.clone();
        self.settings.audio = audio_settings;
        Action::SaveAudio { previous }
    }

    /// Takes what installing the managed mix gave. An installed one becomes the destination; after
    /// a failure the diagnostics are to be run again.
    pub fn mix_installed(&mut self, source: String, result: Result<(), Failure>) -> (action: Action)
        ensures
            match result {
                Ok(_) => audio_changed(*old(self), *final(self), action) && managed_destination(
                    final(self).settings.audio,
                    source@,
                ),
                Err(failure) => *final(self) == *old(self) && action == (
                Action::RefreshFailedInstall { failure }),
            },
    {
        match result {
            Ok(_) => self.save_audio_setup(
                AudioSettings {
                    onboarding_complete: true,
                    mix_sink: Some(MANAGED_SINK_NAME.to_owned()),
                    virtual_source: Some(MANAGED_SOURCE_NAME.to_owned()),
                    physical_source: Some(source),
                    managed_mix: true,
                },
            ),
            Err(failure) => Action::RefreshFailedInstall { failure },
        }
    }

    /// Takes new diagnostics after the managed mix could not be installed, and shows why.
    pub fn failed_install_refreshed(&mut self, failure: Failure, diagnostics: Diagnostics)
        ensures
            match old(self).audio_setup {
                Some(setup) => {
                    &&& final(self).audio_setup is Some
                    &&& (AudioSetup {
                        error: None,
                        ..final(self).audio_setup->Some_0
                    }).refreshed(setup, diagnostics)
                    &&& final(self).audio_setup->Some_0.error is Some
                    &&& final(self).audio_setup->Some_0.error->Some_0@
                        == "Could not create the managed mix: "@ + failure.message@
                    &&& *final(self) == (App {
                        audio_setup: final(self).audio_setup,
                        ..*old(self)
                    })
                },
                None => *final(self) == *old(self),
            },
    {
        self.setup_refreshed(diagnostics);
        self.set_setup_error(join2("Could not create the managed mix: ", &failure.message));
    }

    /// Takes what storing changed audio settings gave.
    pub fn audio_saved(&mut self, previous: AudioSettings, stored: Result<(), Failure>, now: u64) -> (action:
        Action)
        ensures
            audio_settled(*old(self), *final(self), previous, stored, now, action),
    {
        let failure = match stored {
            Ok(_) => {
                let sink = match &self.settings.audio.mix_sink {
                    Some(sink) => sink.clone(),
                    None => String::new(),
                };
                assert(sink@ == match self.settings.audio.mix_sink {
                    Some(sink) => sink@,
                    None => Seq::empty(),
                });
                self.audio_setup = None;
                self.set_temporary_status(
                    join3("Audio destination configured: ", &sink, "."),
                    now,
                );
                return Action::Nothing;
            },
            Err(failure) => failure,
        };
        let was_managed = self.settings.audio.managed_mix;
        let source = previous.physical_source.clone();
        let undo_by_installing = previous.managed_mix;
        self.settings.audio = previous;
        if was_managed && undo_by_installing {
            match source {
                Some(source) => Action::Reinstall { source, failure },
                None => {
                    self.set_setup_error(
                        unsaved_message(&failure.message, Some("previous microphone is missing")),
                    );
                    Action::Nothing
                },
            }
        } else if was_managed {
            Action::UndoInstall { failure }
        } else {
            self.set_setup_error(unsaved_message(&failure.message, None));
            Action::Nothing
        }
    }

    /// Takes what undoing the mix gave, after the audio settings could not be stored.
    pub fn audio_undone(&mut self, failure: Failure, undone: Result<(), Failure>)
        ensures
            setup_fails(
                *old(self),
                *final(self),
                unsaved_text(
                    failure.message@,
                    match undone {
                        Ok(_) => None,
                        Err(second) => Some(second.message@),
                    },
                ),
            ),
    {
        let message = match undone {
            Ok(_) => unsaved_message(&failure.message, None),
            Err(second) => unsaved_message(&failure.message, Some(second.message.as_str())),
        };
        self.set_setup_error(message);
    }

    /// Takes what removing the managed mix gave. After a removal nothing is set up, which is to be
    /// stored.
    pub fn mix_removed(&mut self, result: Result<(), Failure>) -> (action: Action)
        ensures
            match result {
                Ok(_) => *final(self) == with_audio(*old(self), AudioSettings::unset()) && action
                    == (Action::SaveRemoval { previous: old(self).settings.audio }),
                Err(failure) => action is Nothing && setup_fails(
                    *old(self),
                    *final(self),
                    "Could not remove the managed mix: "@ + failure.message@,
                ),
            },
    {
        match result {
            Ok(_) => {
                let previous = self.settings.audio.clone();
                self.settings.audio = AudioSettings::default();
                Action::SaveRemoval { previous }
            },
            Err(failure) => {
                self.set_setup_error(
                    join2("Could not remove the managed mix: ", &failure.message),
                );
                Action::Nothing
            },
        }
    }

    /// Takes what storing the settings after a removal gave.
    pub fn removal_saved(&mut self, previous: AudioSettings, stored: Result<(), Failure>) -> (action:
        Action)
        ensures
            removal_settled(*old(self), *final(self), previous, stored, action),
    {
        let failure = match stored {
            Ok(_) => return Action::RefreshRemoved,
            Err(failure) => failure,
        };
        let source = previous.physical_source.clone();
        self.settings.audio = previous;
        match source {
            Some(source) => Action::RestoreMix { source, failure },
            None => {
                self.set_setup_error(
                    unremoved_message(
                        &failure.message,
                        Some("saved physical microphone is missing"),
                    ),
                );
                Action::Nothing
            },
        }
    }

    /// Takes what installing the mix again gave, after its removal could not be stored.
    pub fn mix_restored(&mut self, failure: Failure, restored: Result<(), Failure>)
        ensures
            setup_fails(
                *old(self),
                *final(self),
                unremoved_text(
                    failure.message@,
                    match restored {
                        Ok(_) => None,
                        Err(second) => Some(second.message@),
                    },
                ),
            ),
    {
        let message = match restored {
            Ok(_) => unremoved_message(&failure.message, None),
            Err(second) => unremoved_message(&failure.message, Some(second.message.as_str())),
        };
        self.set_setup_error(message);
    }

    /// Takes new diagnostics after the managed mix was removed: the setup starts over, and is
    /// required.
    pub fn removal_refreshed(&mut self, diagnostics: Diagnostics)
        ensures
            match old(self).audio_setup {
                Some(setup) => {
                    &&& final(self).audio_setup is Some
                    &&& final(self).audio_setup->Some_0.opened(diagnostics, true)
                    &&& *final(self) == (App {
                        audio_setup: final(self).audio_setup,
                        ..*old(self)
                    })
                },
                None => *final(self) == *old(self),
            },
    {
        if let Some(setup) = &mut self.audio_setup {
            setup.required = true;
            setup.step = AudioSetupStep::Diagnostics;
            setup.refresh(diagnostics);
        }
    }
}

/// Audio settings that could not be stored are as they were before.
pub proof fn failed_audio_change_is_undone(
    before: App,
    changed: App,
    after: App,
    action: Action,
    next: Action,
    failure: Failure,
    now: u64,
)
    requires
        audio_changed(before, changed, action),
        audio_settled(
            changed,
            after,
            action->SaveAudio_previous,
            Err(failure),
            now,
            next,
        ),
    ensures
        after.settings == before.settings,
        after.audio_setup is Some == before.audio_setup is Some,
{
}

/// A managed mix that was newly installed is removed again where the settings could not be stored,
/// and one that took the place of another is installed again for the previous microphone.
pub proof fn unstored_mix_is_undone(
    before: App,
    changed: App,
    after: App,
    action: Action,
    next: Action,
    failure: Failure,
    now: u64,
)
    requires
        audio_changed(before, changed, action),
        changed.settings.audio.managed_mix,
        audio_settled(
            changed,
            after,
            action->SaveAudio_previous,
            Err(failure),
            now,
            next,
        ),
    ensures
        !before.settings.audio.managed_mix ==> next is UndoInstall,
        before.settings.audio.managed_mix && before.settings.audio.physical_source is Some
            ==> next is Reinstall && next->Reinstall_source
            == before.settings.audio.physical_source->Some_0,
{
}

/// A removal that could not be stored leaves the settings as they were, and the mix is installed
/// again.
pub proof fn failed_removal_is_undone(
    before: App,
    after: App,
    next: Action,
    failure: Failure,
)
    requires
        removal_settled(
            with_audio(before, AudioSettings::unset()),
            after,
            before.settings.audio,
            Err(failure),
            next,
        ),
    ensures
        after.settings == before.settings,
        before.settings.audio.physical_source is Some ==> next is RestoreMix
            && next->RestoreMix_source == before.settings.audio.physical_source->Some_0,
{
}

/// While the managed mix is in use, confirming a step never leads to another destination.
pub proof fn managed_mix_is_removed_first(before: App, after: App, action: Action)
    requires
        advanced(before, after, action),
        before.settings.audio.managed_mix,
        before.audio_setup is Some,
        before.audio_setup->Some_0.step == AudioSetupStep::Destination,
    ensures
        after.settings == before.settings,
        !(action is FindSources),
{
}

/// In the setup, Escape closes it, with an error where a setup was needed; `r` runs the diagnostics
/// again; `x` removes the managed mix exactly where it is in use; the arrows only move the selection.
pub proof fn the_setup_takes_its_keys(
    state: &mut App,
    key: Key,
    action: Action,
    next: &mut AudioSetup,
    previous: &mut AudioSetup,
)
    requires
        old(state).audio_setup is Some,
        call_ensures(App::handle_audio_setup_key, (state, key), action),
        *old(next) == old(state).audio_setup->Some_0,
        call_ensures(AudioSetup::select_next, (next,), ()),
        *old(previous) == old(state).audio_setup->Some_0,
        call_ensures(AudioSetup::select_previous, (previous,), ()),
    ensures
        key.code == KeyCode::Escape ==> {
            &&& action is Nothing
            &&& final(state).audio_setup is None
            &&& final(state).settings == old(state).settings
            &&& old(state).audio_setup->Some_0.required ==> final(state).status_message is Some
                && final(state).status_message->Some_0.is_error
                && final(state).status_message->Some_0.text@
                == "Audio is not configured. Press A to run audio setup before playing."@
            &&& !old(state).audio_setup->Some_0.required ==> final(state).status_message
                == old(state).status_message
        },
        key.code == KeyCode::Character('r') || key.code == KeyCode::Character('R')
            ==> action is RefreshSetup && *final(state) == *old(state),
        key.code == KeyCode::Character('x') || key.code == KeyCode::Character('X') ==> *final(state)
            == *old(state) && (action is RemoveMix <==> old(state).settings.audio.managed_mix) && (
        action is RemoveMix || action is Nothing),
        key.code == KeyCode::Down ==> action is Nothing && *final(state) == (App {
            audio_setup: Some(*final(next)),
            ..*old(state)
        }),
        key.code == KeyCode::Up ==> action is Nothing && *final(state) == (App {
            audio_setup: Some(*final(previous)),
            ..*old(state)
        }),
{
}

/// The setup goes on from the diagnostics to the destinations where sounds can be played, and shows
/// what is wrong where they cannot.
pub proof fn the_setup_goes_on_where_playing_is_possible(
    state: &mut App,
    action: Action,
    plays: bool,
    first: usize,
)
    requires
        old(state).audio_setup is Some,
        old(state).audio_setup->Some_0.step == AudioSetupStep::Diagnostics,
        call_ensures(
            Diagnostics::playback_ready,
            (&old(state).audio_setup->Some_0.diagnostics,),
            plays,
        ),
        call_ensures(
            preferred_destination_index,
            (&old(state).audio_setup->Some_0.diagnostics,),
            first,
        ),
        call_ensures(App::advance_audio_setup, (state,), action),
    ensures
        action is Nothing,
        final(state).audio_setup is Some,
        final(state).settings == old(state).settings,
        plays ==> final(state).audio_setup->Some_0.step == AudioSetupStep::Destination
            && final(state).audio_setup->Some_0.selected_index == first
                && final(state).audio_setup->Some_0.error is None,
        !plays ==> final(state).audio_setup->Some_0.step == AudioSetupStep::Diagnostics
            && final(state).audio_setup->Some_0.error is Some,
{
}

/// The first destination is the creation of the managed mix: a physical microphone is asked for
/// where the mix can be created and there is one, and otherwise an error tells what is missing. Any
/// other destination is the virtual sink that was selected, whose microphones are to be found; while
/// the managed mix is in use there is no other destination.
pub proof fn a_destination_is_chosen(
    state: &mut App,
    action: Action,
    creates: bool,
    sinks: Vec<&AudioNode>,
)
    requires
        old(state).audio_setup is Some,
        old(state).audio_setup->Some_0.step == AudioSetupStep::Destination,
        call_ensures(
            Diagnostics::creation_ready,
            (&old(state).audio_setup->Some_0.diagnostics,),
            creates,
        ),
        call_ensures(AudioSetup::virtual_sinks, (&old(state).audio_setup->Some_0,), sinks),
        call_ensures(App::advance_audio_setup, (state,), action),
    ensures
        ({
            let before = old(state).audio_setup->Some_0;
            let after = final(state).audio_setup->Some_0;
            let microphones = before.diagnostics.inventory.physical_sources@.len();
            &&& final(state).audio_setup is Some && final(state).settings == old(state).settings
            &&& before.selected_index == 0 ==> {
                &&& action is Nothing
                &&& creates && microphones > 0 ==> after.step == AudioSetupStep::PhysicalSource
                    && after.selected_index == 0 && after.error is None
                &&& !creates ==> after.step == AudioSetupStep::Destination && after.error is Some
                    && after.error->Some_0@ == match before.diagnostics.pulse_error {
                    Some(message) => message@,
                    None => "PipeWire mix creation is unavailable."@,
                }
                &&& creates && microphones == 0 ==> after.step == AudioSetupStep::Destination
                    && after.error is Some && after.error->Some_0@
                    == "No physical microphone was detected."@
            }
            &&& before.selected_index > 0 && old(state).settings.audio.managed_mix ==> {
                &&& action is Nothing
                &&& after.step == AudioSetupStep::Destination
                &&& after.error is Some && after.error->Some_0@
                    == "Remove the managed mix with x before selecting another destination."@
            }
            &&& before.selected_index > sinks@.len() && before.selected_index > 0
                && !old(state).settings.audio.managed_mix ==> action is Nothing && *final(state)
                    == *old(state)
            &&& 0 < before.selected_index <= sinks@.len() && !old(state).settings.audio.managed_mix
                ==> action == (Action::FindSources {
                sink: *sinks@[before.selected_index - 1],
            })
        }),
{
    assert(sinks@.unref().len() == sinks@.len());
    let at = old(state).audio_setup->Some_0.selected_index - 1;
    if 0 <= at < sinks@.len() {
        assert(sinks@.unref()[at] == *sinks@[at]);
    }
}

/// The microphones that belong to the sink are offered, with the sink's own monitor selected where
/// it is one of them. Where there is none, or the modules could not be listed, an error says so.
pub proof fn the_microphones_of_a_sink_are_offered(
    state: &mut App,
    sink: AudioNode,
    name: &str,
    modules: CommandResult,
    sources: Result<Vec<AudioNode>, Failure>,
)
    requires
        old(state).audio_setup is Some,
        name@ == sink.name@,
        call_ensures(
            sources_for_sink,
            (&old(state).audio_setup->Some_0.diagnostics, name, &modules),
            sources,
        ),
        call_ensures(App::sources_found, (state, sink, &modules), ()),
    ensures
        final(state).audio_setup is Some,
        final(state).settings == old(state).settings,
        sources is Ok && sources->Ok_0@.len() > 0 ==> ({
            let after = final(state).audio_setup->Some_0;
            let at = after.selected_index as int;
            &&& after.step == AudioSetupStep::VirtualSource
            &&& after.selected_sink == Some(sink.name)
            &&& after.compatible_sources@ == sources->Ok_0@
            &&& after.error is None
            &&& 0 <= at < sources->Ok_0@.len()
            &&& (exists|i: int|
                0 <= i < sources->Ok_0@.len() && (#[trigger] sources->Ok_0@[i]).name@ == sink.name@
                    + ".monitor"@) ==> sources->Ok_0@[at].name@ == sink.name@ + ".monitor"@
        }),
        sources is Ok && sources->Ok_0@.len() == 0
            ==> final(state).audio_setup->Some_0.error is Some
            && final(state).audio_setup->Some_0.step == old(state).audio_setup->Some_0.step
                && final(state).audio_setup->Some_0.error->Some_0@
                    == "No virtual microphone source is connected to "@
            + sink.description@ + "."@,
        sources is Err ==> final(state).audio_setup->Some_0.error is Some
            && final(state).audio_setup->Some_0.step == old(state).audio_setup->Some_0.step
                && final(state).audio_setup->Some_0.error->Some_0@
                    == "Could not validate the virtual microphone: "@
            + sources->Err_0.message@,
{
}

/// The selected microphone and its sink become the settings, which are to be stored; nothing of a
/// managed mix is left in them. Without a microphone to choose, an error says so.
pub proof fn the_chosen_microphone_becomes_the_setting(
    state: &mut App,
    action: Action,
)
    requires
        old(state).audio_setup is Some,
        old(state).audio_setup->Some_0.step == AudioSetupStep::VirtualSource,
        call_ensures(App::advance_audio_setup, (state,), action),
    ensures
        ({
            let setup = old(state).audio_setup->Some_0;
            let at = setup.selected_index as int;
            let audio = final(state).settings.audio;
            &&& setup.selected_sink is Some && at < setup.compatible_sources@.len() ==> {
                &&& action == (Action::SaveAudio { previous: old(state).settings.audio })
                &&& audio.onboarding_complete
                &&& audio.mix_sink is Some && audio.mix_sink->Some_0@
                    == setup.selected_sink->Some_0@
                &&& audio.virtual_source is Some && audio.virtual_source->Some_0@
                    == setup.compatible_sources@[at].name@
                &&& audio.physical_source is None && !audio.managed_mix
                &&& final(state).settings.local_playback == old(state).settings.local_playback
            }
            &&& setup.selected_sink is None || at >= setup.compatible_sources@.len() ==> {
                &&& action is Nothing
                &&& final(state).settings == old(state).settings
                &&& final(state).audio_setup is Some
                    && final(state).audio_setup->Some_0.error is Some
                &&& final(state).audio_setup->Some_0.error->Some_0@
                    == "No virtual microphone source is available for this destination."@
            }
        }),
{
}

/// The managed mix is installed for the selected physical microphone once that is confirmed.
pub proof fn the_mix_is_installed_for_the_chosen_microphone(
    choosing: &mut App,
    chosen: Action,
    confirming: &mut App,
    confirmed: Action,
)
    requires
        old(choosing).audio_setup is Some,
        old(choosing).audio_setup->Some_0.step == AudioSetupStep::PhysicalSource,
        old(choosing).audio_setup->Some_0.selected_index < old(choosing).audio_setup->Some_0.diagnostics.inventory.physical_sources@.len(),
        call_ensures(App::advance_audio_setup, (choosing,), chosen),
        *old(confirming) == *final(choosing),
        call_ensures(App::advance_audio_setup, (confirming,), confirmed),
    ensures
        chosen is Nothing,
        final(choosing).audio_setup is Some,
        final(choosing).audio_setup->Some_0.step == AudioSetupStep::ConfirmCreation,
        final(choosing).settings == old(choosing).settings,
        confirmed == (Action::InstallMix {
            source: old(choosing).audio_setup->Some_0.diagnostics.inventory.physical_sources@[old(choosing).audio_setup->Some_0.selected_index as int].name,
        }),
        *final(confirming) == *final(choosing),
{
}

/// An installed mix becomes the destination: its sink, its microphone and the physical microphone
/// that it was made for, to be stored. One that could not be installed changes no setting; the
/// diagnostics are run again and the error is shown.
pub proof fn an_installed_mix_becomes_the_destination(
    state: &mut App,
    source: String,
    installed: Action,
    failing: &mut App,
    failure: Failure,
    failed: Action,
    showing: &mut App,
    diagnostics: Diagnostics,
)
    requires
        call_ensures(App::mix_installed, (state, source, Ok(())), installed),
        call_ensures(App::mix_installed, (failing, source, Err(failure)), failed),
        old(showing).audio_setup is Some,
        call_ensures(App::failed_install_refreshed, (showing, failure, diagnostics), ()),
    ensures
        installed == (Action::SaveAudio { previous: old(state).settings.audio }),
        final(state).settings.audio.onboarding_complete,
        final(state).settings.audio.managed_mix,
        final(state).settings.audio.mix_sink is Some
            && final(state).settings.audio.mix_sink->Some_0@ == "soundboard_tui_mix"@,
        final(state).settings.audio.virtual_source is Some
            && final(state).settings.audio.virtual_source->Some_0@ == "soundboard_tui_mix.monitor"@,
        final(state).settings.audio.physical_source is Some
            && final(state).settings.audio.physical_source->Some_0@ == source@,
        final(state).settings.local_playback == old(state).settings.local_playback,
        failed == (Action::RefreshFailedInstall { failure }),
        *final(failing) == *old(failing),
        final(showing).audio_setup is Some,
        final(showing).audio_setup->Some_0.diagnostics == diagnostics,
        final(showing).audio_setup->Some_0.error is Some,
        final(showing).audio_setup->Some_0.error->Some_0@ == "Could not create the managed mix: "@
            + failure.message@,
        final(showing).settings == old(showing).settings,
{
}

/// Stored audio settings end the setup and are told. Settings that could not be stored are put
/// back, and what was installed for them is undone: the mix is installed for the previous
/// microphone, or removed where there was none before; the error tells how that went.
pub proof fn audio_settings_are_stored_or_undone(
    stored: &mut App,
    previous: AudioSettings,
    now: u64,
    done: Action,
    failing: &mut App,
    failure: Failure,
    next: Action,
    undone: &mut App,
    remaining: &mut App,
    second: Failure,
)
    requires
        call_ensures(App::audio_saved, (stored, previous, Ok(()), now), done),
        call_ensures(App::audio_saved, (failing, previous, Err(failure), now), next),
        old(undone).audio_setup is Some,
        call_ensures(App::audio_undone, (undone, failure, Ok(())), ()),
        old(remaining).audio_setup is Some,
        call_ensures(App::audio_undone, (remaining, failure, Err(second)), ()),
    ensures
        done is Nothing,
        final(stored).audio_setup is None,
        final(stored).settings == old(stored).settings,
        final(stored).status_message is Some && !final(stored).status_message->Some_0.is_error,
        old(stored).settings.audio.mix_sink matches Some(sink)
            ==> final(stored).status_message->Some_0.text@ == "Audio destination configured: "@
                + sink@ + "."@,
        final(failing).settings.audio == previous,
        final(failing).settings.local_playback == old(failing).settings.local_playback,
        !old(failing).settings.audio.managed_mix ==> next is Nothing
            && (old(failing).audio_setup is Some ==> final(failing).audio_setup is Some
                && final(failing).audio_setup->Some_0.error is Some
                    && final(failing).audio_setup->Some_0.error->Some_0@
            == "Could not save audio settings: "@ + failure.message@ + "; audio setup restored"@),
        old(failing).settings.audio.managed_mix && !previous.managed_mix ==> next == (
        Action::UndoInstall { failure }),
        old(failing).settings.audio.managed_mix && previous.managed_mix
            ==> match previous.physical_source {
            Some(source) => next == (Action::Reinstall { source, failure }),
            None => next is Nothing,
        },
        final(undone).audio_setup is Some && final(undone).audio_setup->Some_0.error is Some
            && final(undone).audio_setup->Some_0.error->Some_0@
                == "Could not save audio settings: "@
            + failure.message@ + "; audio setup restored"@,
        final(remaining).audio_setup is Some && final(remaining).audio_setup->Some_0.error is Some
            && final(remaining).audio_setup->Some_0.error->Some_0@
            == "Could not save audio settings: "@ + failure.message@
            + "; could not remove the new mix: "@ + second.message@,
{
    assert(final(remaining).audio_setup->Some_0.error->Some_0@
        =~= "Could not save audio settings: "@ + failure.message@
        + "; could not remove the new mix: "@ + second.message@);
}

/// Once the mix is removed nothing is set up any more, which is to be stored; then the setup starts
/// over and has to be completed. Where the removal failed, the settings stay. Where it could not be
/// stored, the settings are put back and the mix is installed again for its microphone.
pub proof fn a_removed_mix_leaves_nothing_set_up(
    state: &mut App,
    removed: Action,
    failing: &mut App,
    failure: Failure,
    failed: Action,
    storing: &mut App,
    previous: AudioSettings,
    stored: Action,
    unstored: &mut App,
    next: Action,
    starting: &mut App,
    diagnostics: Diagnostics,
    restored: &mut App,
    unrestored: &mut App,
    second: Failure,
)
    requires
        call_ensures(App::mix_removed, (state, Ok(())), removed),
        old(failing).audio_setup is Some,
        call_ensures(App::mix_removed, (failing, Err(failure)), failed),
        call_ensures(App::removal_saved, (storing, previous, Ok(())), stored),
        call_ensures(App::removal_saved, (unstored, previous, Err(failure)), next),
        old(starting).audio_setup is Some,
        call_ensures(App::removal_refreshed, (starting, diagnostics), ()),
        old(restored).audio_setup is Some,
        call_ensures(App::mix_restored, (restored, failure, Ok(())), ()),
        old(unrestored).audio_setup is Some,
        call_ensures(App::mix_restored, (unrestored, failure, Err(second)), ()),
    ensures
        removed == (Action::SaveRemoval { previous: old(state).settings.audio }),
        !final(state).settings.audio.onboarding_complete
            && !final(state).settings.audio.managed_mix,
        final(state).settings.audio.mix_sink is None
            && final(state).settings.audio.virtual_source is None
                && final(state).settings.audio.physical_source is None,
        final(state).settings.local_playback == old(state).settings.local_playback,
        failed is Nothing && final(failing).settings == old(failing).settings,
        final(failing).audio_setup is Some && final(failing).audio_setup->Some_0.error is Some
            && final(failing).audio_setup->Some_0.error->Some_0@
            == "Could not remove the managed mix: "@ + failure.message@,
        stored is RefreshRemoved && *final(storing) == *old(storing),
        final(unstored).settings.audio == previous,
        previous.physical_source matches Some(source) ==> next == (Action::RestoreMix {
            source,
            failure,
        }),
        previous.physical_source is None ==> next is Nothing,
        final(starting).audio_setup is Some,
        final(starting).audio_setup->Some_0.required,
        final(starting).audio_setup->Some_0.step == AudioSetupStep::Diagnostics,
        final(starting).audio_setup->Some_0.diagnostics == diagnostics,
        final(starting).settings == old(starting).settings,
        final(restored).audio_setup is Some && final(restored).audio_setup->Some_0.error is Some
            && final(restored).audio_setup->Some_0.error->Some_0@
            == "Could not save settings after removal: "@ + failure.message@ + "; mix restored"@,
        final(unrestored).audio_setup is Some && final(unrestored).audio_setup->Some_0.error is Some
            && final(unrestored).audio_setup->Some_0.error->Some_0@
            == "Could not save settings after removal: "@ + failure.message@
            + "; could not restore mix: "@ + second.message@,
{
    assert(final(unrestored).audio_setup->Some_0.error->Some_0@
        =~= "Could not save settings after removal: "@ + failure.message@
        + "; could not restore mix: "@ + second.message@);
}

/// The setup opens over what is shown with the diagnostics that were run, and takes new ones while
/// it is open; a closed setup stays closed.
pub proof fn the_setup_shows_the_diagnostics(
    opening: &mut App,
    diagnostics: Diagnostics,
    refreshing: &mut App,
)
    requires
        call_ensures(App::setup_opened, (opening, diagnostics), ()),
        call_ensures(App::setup_refreshed, (refreshing, diagnostics), ()),
    ensures
        final(opening).audio_setup is Some,
        final(opening).audio_setup->Some_0.diagnostics == diagnostics,
        !final(opening).audio_setup->Some_0.required,
        final(opening).audio_setup->Some_0.step == AudioSetupStep::Diagnostics,
        final(opening).status_message is None,
        final(opening).settings == old(opening).settings && final(opening).sounds
            == old(opening).sounds,
        old(refreshing).audio_setup is None ==> *final(refreshing) == *old(refreshing),
        old(refreshing).audio_setup matches Some(setup) ==> final(refreshing).audio_setup is Some
            && final(refreshing).audio_setup->Some_0.diagnostics == diagnostics
                && final(refreshing).audio_setup->Some_0.step == setup.step
                    && final(refreshing).audio_setup->Some_0.error is None
                        && final(refreshing).settings == old(refreshing).settings,
{
}

/// Where playing is not possible, the error of the first step is what the diagnostics tell, a line
/// for each message.
pub proof fn the_setup_shows_every_error(
    state: &mut App,
    action: Action,
    errors: Vec<&str>,
    between: Seq<char>,
)
    requires
        old(state).audio_setup is Some,
        old(state).audio_setup->Some_0.step == AudioSetupStep::Diagnostics,
        call_ensures(
            Diagnostics::errors,
            (&old(state).audio_setup->Some_0.diagnostics,),
            errors,
        ),
        old(state).audio_setup->Some_0.diagnostics.mpv_error is Some,
        call_ensures(App::advance_audio_setup, (state,), action),
        between == seq!['\n'],
    ensures
        final(state).audio_setup->Some_0.error is Some,
        final(state).audio_setup->Some_0.error->Some_0@ == text::joined(
            errors@.map_values(|error: &str| error@),
            between,
        ),
{
    reveal_strlit("\n");
    assert("\n"@ =~= seq!['\n']);
    assert(errors@.map_values(|error: &str| error@) =~= audio::str_views(errors@));
}

/// Where the previous microphone is not known, the mix cannot be put back, which the error tells.
pub proof fn a_missing_microphone_is_told(
    unsaved: &mut App,
    previous: AudioSettings,
    failure: Failure,
    now: u64,
    actions: (Action, Action),
    unremoved: &mut App,
)
    requires
        old(unsaved).audio_setup is Some && old(unremoved).audio_setup is Some,
        old(unsaved).settings.audio.managed_mix && previous.managed_mix,
        previous.physical_source is None,
        call_ensures(App::audio_saved, (unsaved, previous, Err(failure), now), actions.0),
        call_ensures(App::removal_saved, (unremoved, previous, Err(failure)), actions.1),
    ensures
        actions.0 is Nothing && actions.1 is Nothing,
        final(unsaved).audio_setup is Some && final(unsaved).audio_setup->Some_0.error is Some,
        final(unsaved).audio_setup->Some_0.error->Some_0@ == "Could not save audio settings: "@
            + failure.message@ + "; could not remove the new mix: "@
            + "previous microphone is missing"@,
        final(unremoved).audio_setup is Some && final(unremoved).audio_setup->Some_0.error is Some,
        final(unremoved).audio_setup->Some_0.error->Some_0@
            == "Could not save settings after removal: "@ + failure.message@
            + "; could not restore mix: "@ + "saved physical microphone is missing"@,
{
    assert(final(unsaved).audio_setup->Some_0.error->Some_0@
        =~= "Could not save audio settings: "@ + failure.message@
        + "; could not remove the new mix: "@ + "previous microphone is missing"@);
    assert(final(unremoved).audio_setup->Some_0.error->Some_0@
        =~= "Could not save settings after removal: "@ + failure.message@
        + "; could not restore mix: "@ + "saved physical microphone is missing"@);
}

/// A key that the setup has no use for changes nothing, and so does confirming where nothing is
/// chosen.
pub proof fn other_keys_do_nothing_in_the_setup(
    state: &mut App,
    key: Key,
    action: Action,
    confirming: &mut App,
    confirmed: Action,
)
    requires
        old(state).audio_setup is Some,
        call_ensures(App::handle_audio_setup_key, (state, key), action),
        key.code == KeyCode::Left || key.code == KeyCode::Right || key.code == KeyCode::Tab
            || key.code == KeyCode::Backspace || key.code == KeyCode::Other || key.code is Character
            && key.code != KeyCode::Character('r') && key.code != KeyCode::Character('R')
            && key.code != KeyCode::Character('x') && key.code != KeyCode::Character('X'),
        old(confirming).audio_setup is Some,
        old(confirming).audio_setup->Some_0.step == AudioSetupStep::ConfirmCreation,
        old(confirming).audio_setup->Some_0.selected_source is None,
        call_ensures(App::advance_audio_setup, (confirming,), confirmed),
    ensures
        action is Nothing && *final(state) == *old(state),
        confirmed is Nothing && *final(confirming) == *old(confirming),
{
}

} // verus!
