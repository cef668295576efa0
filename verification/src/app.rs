//! The state of the soundboard, and what it asks for when a key is pressed.

use std::path::PathBuf;

use vstd::prelude::*;

use crate::audio;
use crate::audio::{
    contains_node, managed_mix_installed, managed_mix_ready, source_matches_sink, AudioNode,
    CommandResult, Diagnostics,
};
use crate::editor::MetadataEditor;
use crate::failure::Failure;
use crate::library;
use crate::library::{AudioSettings, ImportReport, Settings, Sound};
use crate::picker::FilePicker;
use crate::setup::AudioSetup;
use crate::text;
use crate::text::{contains, join2, to_lowercase};

verus! {

/// How long a passing message stays, in nanoseconds.
pub const STATUS_MESSAGE_NANOS: u64 = 5_000_000_000;

/// How long at most until playback is looked at again, in nanoseconds.
pub const PLAYBACK_POLL_NANOS: u64 = 200_000_000;

/// The two modes.
#[derive(Clone, Copy, Debug, PartialEq, Eq, Structural)]
pub enum Mode {
    Configuration,
    Use,
}

/// A message for the user. One that passes has the time from which it is no longer shown.
pub struct StatusMessage {
    pub text: String,
    pub is_error: bool,
    pub expires_at: Option<u128>,
}

/// A deletion that the user has yet to confirm.
pub struct DeleteConfirmation {
    pub name: String,
    pub path: PathBuf,
}

/// A sound to be played, and where the order came from.
pub struct PlayOrder {
    pub path: PathBuf,
    pub volume: u8,
    pub local_playback: bool,
    pub mix_sink: String,
    pub name: String,
    pub from_pad: bool,
}

/// A change of a sound's metadata that has yet to be stored, with what it replaced.
pub struct MetadataEdit {
    pub sound_index: usize,
    pub name: String,
    pub previous_name: String,
    pub previous_aliases: Vec<String>,
}

/// Outside work that the soundboard asks for.
pub enum Action {
    /// Nothing.
    Nothing,
    /// Play a sound.
    Play(PlayOrder),
    /// Stop playback everywhere.
    StopPlayback,
    /// Stop playback on the local output.
    StopLocal,
    /// Store the sounds, after a sound's volume changed.
    SaveVolume { index: usize, previous_volume: u8 },
    /// Store the settings, after local playback was switched.
    SaveLocalPlayback,
    /// Load the sounds.
    ReloadSounds,
    /// Open the picker for files.
    OpenPicker,
    /// List a directory for the picker to go to.
    OpenDirectory { directory: PathBuf },
    /// List the picker's own directory again.
    ReopenDirectory { failure: Failure },
    /// Import files.
    ImportFiles { paths: Vec<PathBuf> },
    /// Load the sounds after an import.
    ReloadImported { report: ImportReport },
    /// Delete a sound's file.
    DeleteSound { confirmation: DeleteConfirmation },
    /// Load the sounds after a deletion.
    ReloadDeleted { name: String },
    /// Store the sounds, after a sound's metadata changed.
    SaveMetadata { edit: MetadataEdit },
    /// Run the diagnostics, for a setup to open.
    OpenSetup,
    /// Run the diagnostics, for the open setup.
    RefreshSetup,
    /// Run the diagnostics, after the managed mix could not be installed.
    RefreshFailedInstall { failure: Failure },
    /// Run the diagnostics, after the managed mix was removed.
    RefreshRemoved,
    /// List the loaded modules, to find the sources that follow the sink.
    FindSources { sink: AudioNode },
    /// Install the managed mix.
    InstallMix { source: String },
    /// Store the settings, after the audio settings changed.
    SaveAudio { previous: AudioSettings },
    /// Install the managed mix for the previous source, after the settings could not be stored.
    Reinstall { source: String, failure: Failure },
    /// Remove the managed mix, after the settings could not be stored.
    UndoInstall { failure: Failure },
    /// Remove the managed mix.
    RemoveMix,
    /// Store the settings, after the managed mix was removed.
    SaveRemoval { previous: AudioSettings },
    /// Install the managed mix again, after the settings could not be stored.
    RestoreMix { source: String, failure: Failure },
}

/// The state of the soundboard.
pub struct App {
    pub mode: Mode,
    pub query: String,
    pub selected_index: usize,
    pub sounds: Vec<Sound>,
    pub settings: Settings,
    pub playing_path: Option<PathBuf>,
    pub audio_setup: Option<AudioSetup>,
    pub file_picker: Option<FilePicker>,
    pub delete_confirmation: Option<DeleteConfirmation>,
    pub metadata_editor: Option<MetadataEditor>,
    pub status_message: Option<StatusMessage>,
    pub should_quit: bool,
}

/// The message is an error with this text; it stays.
pub open spec fn is_error_message(message: Option<StatusMessage>, text: Seq<char>) -> bool {
    match message {
        Some(message) => message.text@ == text && message.is_error && message.expires_at is None,
        None => false,
    }
}

/// The message has this text, is no error and passes.
pub open spec fn is_passing_message(
    message: Option<StatusMessage>,
    text: Seq<char>,
    now: u64,
) -> bool {
    match message {
        Some(message) => message.text@ == text && !message.is_error && message.expires_at
            == Some((now + STATUS_MESSAGE_NANOS) as u128),
        None => false,
    }
}

/// The state differs in its message alone, which is an error with this text.
pub open spec fn shows_error(before: App, after: App, text: Seq<char>) -> bool {
    &&& after == (App { status_message: after.status_message, ..before })
    &&& is_error_message(after.status_message, text)
}

/// The state differs in its message alone, which has this text and passes.
pub open spec fn shows_status(before: App, after: App, text: Seq<char>, now: u64) -> bool {
    &&& after == (App { status_message: after.status_message, ..before })
    &&& is_passing_message(after.status_message, text, now)
}

/// The virtual microphone takes its sound from the sink, by the list of loaded modules.
pub open spec fn pair_is_ready(
    sink: Seq<char>,
    source: Seq<char>,
    diagnostics: Diagnostics,
    modules: CommandResult,
) -> bool {
    modules is Ok && audio::has_node(
        audio::sources_following(
            diagnostics.inventory.virtual_sources@,
            text::lossy_text(modules->Ok_0.stdout@),
            sink,
        ),
        source,
    )
}

/// The managed mix of these settings stands: its file is there and carries the marker, and its
/// nodes and its loopback are loaded.
pub open spec fn managed_mix_stands(
    settings: AudioSettings,
    diagnostics: Diagnostics,
    contents: Result<String, Failure>,
    modules: CommandResult,
) -> bool {
    &&& contents is Ok && audio::marked(contents->Ok_0@)
    &&& settings.physical_source is Some && audio::mix_is_ready(
        settings.physical_source->Some_0@,
        diagnostics,
        modules,
    )
}

/// Sounds can be played as the settings say: setup was completed, sink and microphone are there
/// and belong together, nothing that playback needs is missing, and a managed mix stands.
pub open spec fn audio_is_ready(
    settings: AudioSettings,
    diagnostics: Diagnostics,
    contents: Result<String, Failure>,
    modules: CommandResult,
) -> bool {
    &&& settings.onboarding_complete
    &&& settings.mix_sink is Some && audio::has_node(
        diagnostics.inventory.sinks@,
        settings.mix_sink->Some_0@,
    )
    &&& diagnostics.pipewire_error is None && diagnostics.mpv_error is None
    &&& settings.virtual_source is Some && audio::has_node(
        diagnostics.inventory.virtual_sources@,
        settings.virtual_source->Some_0@,
    )
    &&& pair_is_ready(
        settings.mix_sink->Some_0@,
        settings.virtual_source->Some_0@,
        diagnostics,
        modules,
    )
    &&& settings.managed_mix ==> managed_mix_stands(settings, diagnostics, contents, modules)
}

/// Whether the list of loaded modules is needed to tell if sounds can be played: only where a sink
/// and a microphone have been chosen.
pub fn needs_modules(settings: &AudioSettings) -> (needed: bool)
    ensures
        needed == (settings.mix_sink is Some && settings.virtual_source is Some),
        forall|diagnostics: Diagnostics, contents: Result<String, Failure>, modules: CommandResult|
            !needed ==> !#[trigger] audio_is_ready(*settings, diagnostics, contents, modules),
{
    settings.mix_sink.is_some() && settings.virtual_source.is_some()
}

/// Whether sounds can be played as the settings say, by the diagnostics, by what reading the
/// managed configuration gave, and by what `pactl list modules short` gave.
pub fn audio_ready(
    settings: &AudioSettings,
    diagnostics: &Diagnostics,
    contents: &Result<String, Failure>,
    modules: &CommandResult,
) -> (ready: bool)
    ensures
        ready == audio_is_ready(*settings, *diagnostics, *contents, *modules),
{
    let sink = match &settings.mix_sink {
        Some(sink) => sink,
        None => return false,
    };
    let source = match &settings.virtual_source {
        Some(source) => source,
        None => return false,
    };
    let pair_ready = match source_matches_sink(diagnostics, sink, source, modules) {
        Ok(matches) => matches,
        Err(_) => false,
    };
    let managed_ready = !settings.managed_mix || {
        let installed = match managed_mix_installed(contents) {
            Ok(installed) => installed,
            Err(_) => false,
        };
        installed && match &settings.physical_source {
            Some(physical) => match managed_mix_ready(physical, diagnostics, modules) {
                Ok(ready) => ready,
                Err(_) => false,
            },
            None => false,
        }
    };
    settings.onboarding_complete && diagnostics.has_sink(sink) && diagnostics.playback_ready()
        && contains_node(&diagnostics.inventory.virtual_sources, source) && pair_ready
        && managed_ready
}

/// The message for a failure to ask mpv what it plays.
pub open spec fn query_failure_text(failure: Failure) -> Seq<char> {
    "Could not query mpv: "@ + failure.message@
}

/// What is wanted occurs in the name, in the file name or in one of the aliases.
pub open spec fn found_in(
    wanted: Seq<char>,
    name: Seq<char>,
    file: Seq<char>,
    aliases: Seq<Seq<char>>,
) -> bool {
    ||| wanted.len() == 0
    ||| text::occurs_in(wanted, name)
    ||| text::occurs_in(wanted, file)
    ||| exists|i: int| 0 <= i < aliases.len() && text::occurs_in(wanted, #[trigger] aliases[i])
}

/// The texts in lower case.
pub open spec fn lowercased(texts: Seq<Seq<char>>) -> Seq<Seq<char>> {
    texts.map_values(|text: Seq<char>| text::lowercase(text))
}

/// The sound is found for the query: the query occurs, in upper or lower case, in its name, its
/// file name or one of its aliases.
pub open spec fn sound_matches(sound: Sound, query: Seq<char>) -> bool {
    found_in(
        text::lowercase(query),
        text::lowercase(sound.name@),
        text::lowercase(library::file_name_text(sound.path)),
        lowercased(text::views(sound.aliases@)),
    )
}

/// Whether what is wanted occurs in one of the texts of a sound, all of them in lower case.
pub fn occurs_in_sound(wanted: &str, name: &str, file: &str, aliases: &Vec<String>) -> (found: bool)
    ensures
        found == found_in(wanted@, name@, file@, text::views(aliases@)),
{
    if wanted.is_empty() || contains(name, wanted) || contains(file, wanted) {
        return true;
    }
    let ghost all = text::views(aliases@);
    let mut i: usize = 0;
    while i < aliases.len()
        invariant
            i <= aliases@.len(),
            all == text::views(aliases@),
            all.len() == aliases@.len(),
            forall|k: int| 0 <= k < i ==> !text::occurs_in(wanted@, #[trigger] all[k]),
        decreases aliases@.len() - i,
    {
        assert(all[i as int] == aliases@[i as int]@);
        if contains(&aliases[i], wanted) {
            return true;
        }
        i += 1;
    }
    false
}

fn lower_all(texts: &Vec<String>) -> (lower: Vec<String>)
    ensures
        text::views(lower@) == lowercased(text::views(texts@)),
{
    let ghost all = lowercased(text::views(texts@));
    let mut lower: Vec<String> = Vec::new();
    let mut i: usize = 0;
    while i < texts.len()
        invariant
            i <= texts@.len(),
            all == lowercased(text::views(texts@)),
            text::views(lower@) == all.take(i as int),
        decreases texts@.len() - i,
    {
        let ghost before = text::views(lower@);
        let text = to_lowercase(&texts[i]);
        lower.push(text);
        assert(text::views(lower@) =~= before.push(text@));
        assert(all[i as int] == text@);
        assert(all.take(i + 1) =~= all.take(i as int).push(text@));
        i += 1;
    }
    assert(all.take(i as int) =~= all);
    lower
}

proof fn lemma_filter_keeps_all(sounds: Seq<Sound>, wanted: spec_fn(Sound) -> bool)
    requires
        forall|i: int| 0 <= i < sounds.len() ==> wanted(#[trigger] sounds[i]),
    ensures
        sounds.filter(wanted) == sounds,
    decreases sounds.len(),
{
    reveal(Seq::filter);
    if sounds.len() > 0 {
        lemma_filter_keeps_all(sounds.drop_last(), wanted);
        assert(sounds.drop_last().push(sounds.last()) =~= sounds);
    }
}

/// A volume moved by `delta`, within the volumes that there are.
pub open spec fn moved_volume(volume: int, delta: int) -> int {
    if volume + delta < 0 {
        0
    } else if volume + delta > library::MAX_VOLUME {
        library::MAX_VOLUME as int
    } else {
        volume + delta
    }
}

/// The volume moved by `delta`, within the volumes that there are.
pub fn adjusted_volume(volume: u8, delta: i8) -> (adjusted: u8)
    ensures
        adjusted == moved_volume(volume as int, delta as int),
{
    let moved = volume as i16 + delta as i16;
    if moved < 0 {
        0
    } else if moved > library::MAX_VOLUME as i16 {
        library::MAX_VOLUME
    } else {
        moved as u8
    }
}

impl App {
    /// The sounds that the query finds.
    pub open spec fn filtered(self) -> Seq<Sound> {
        self.sounds@.filter(|sound: Sound| sound_matches(sound, self.query@))
    }

    /// The state at the start: `contents` is what reading the managed configuration gave,
    /// `modules` what `pactl list modules short` gave, `playback` what asking mpv for the sound it
    /// plays gave. Where sounds cannot be played as the settings say, the setup is open.
    pub fn new(
        mode: Mode,
        settings: Settings,
        diagnostics: Diagnostics,
        contents: &Result<String, Failure>,
        modules: &CommandResult,
        playback: Result<Option<PathBuf>, Failure>,
        sounds: Vec<Sound>,
    ) -> (app: App)
        ensures
            app.mode == mode,
            app.query@.len() == 0,
            app.selected_index == 0,
            app.sounds == sounds,
            app.settings == settings,
            app.file_picker is None,
            app.delete_confirmation is None,
            app.metadata_editor is None,
            !app.should_quit,
            match playback {
                Ok(path) => app.playing_path == path && app.status_message is None,
                Err(failure) => app.playing_path is None && is_error_message(
                    app.status_message,
                    query_failure_text(failure),
                ),
            },
            match app.audio_setup {
                Some(setup) => setup.opened(diagnostics, true) && !audio_is_ready(
                    settings.audio,
                    diagnostics,
                    *contents,
                    *modules,
                ),
                None => audio_is_ready(settings.audio, diagnostics, *contents, *modules),
            },
    {
        let audio_setup = if audio_ready(&settings.audio, &diagnostics, contents, modules) {
            None
        } else {
            Some(AudioSetup::new(diagnostics, true))
        };
        let (playing_path, status_message) = match playback {
            Ok(path) => (path, None),
            Err(failure) => (
                None,
                Some(
                    StatusMessage {
                        text: join2("Could not query mpv: ", &failure.message),
                        is_error: true,
                        expires_at: None,
                    },
                ),
            ),
        };
        App {
            mode,
            query: String::new(),
            selected_index: 0,
            sounds,
            settings,
            playing_path,
            audio_setup,
            file_picker: None,
            delete_confirmation: None,
            metadata_editor: None,
            status_message,
            should_quit: false,
        }
    }

    /// The state in the other mode.
    pub open spec fn in_other_mode(self) -> App {
        App {
            mode: match self.mode {
                Mode::Configuration => Mode::Use,
                Mode::Use => Mode::Configuration,
            },
            ..self
        }
    }

    /// Goes to the other mode.
    pub fn toggle_mode(&mut self)
        ensures
            *final(self) == old(self).in_other_mode(),
    {
        self.mode = match self.mode {
            Mode::Configuration => Mode::Use,
            Mode::Use => Mode::Configuration,
        };
    }

    /// Shows an error, which stays.
    pub fn set_error(&mut self, text: String)
        ensures
            shows_error(*old(self), *final(self), text@),
    {
        self.status_message = Some(StatusMessage { text, is_error: true, expires_at: None });
    }

    /// Shows a message that passes.
    pub fn set_temporary_status(&mut self, text: String, now: u64)
        ensures
            shows_status(*old(self), *final(self), text@, now),
    {
        self.status_message = Some(
            StatusMessage {
                text,
                is_error: false,
                expires_at: Some(now as u128 + STATUS_MESSAGE_NANOS as u128),
            },
        );
    }

    /// The time from which the message is no longer shown, if it passes.
    pub open spec fn message_expiry(self) -> Option<u128> {
        match self.status_message {
            Some(message) => message.expires_at,
            None => None,
        }
    }

    /// Drops a message whose time has come.
    pub fn clear_expired_status(&mut self, now: u64)
        ensures
            *final(self) == (if old(self).message_expiry() is Some && old(
                self,
            ).message_expiry()->Some_0 <= now {
                (App { status_message: None, ..*old(self) })
            } else {
                *old(self)
            }),
    {
        let expired = match &self.status_message {
            Some(message) => match message.expires_at {
                Some(expires_at) => expires_at <= now as u128,
                None => false,
            },
            None => false,
        };
        if expired {
            self.status_message = None;
        }
    }

    /// How long the message is still shown, in nanoseconds, if it passes.
    pub fn status_timeout(&self, now: u64) -> (timeout: Option<u128>)
        ensures
            match self.message_expiry() {
                Some(expires_at) => timeout == Some(
                    (if expires_at > now {
                        expires_at - now
                    } else {
                        0
                    }) as u128,
                ),
                None => timeout is None,
            },
    {
        match &self.status_message {
            Some(message) => match message.expires_at {
                Some(expires_at) => Some(expires_at.saturating_sub(now as u128)),
                None => None,
            },
            None => None,
        }
    }

    /// How long to wait for a key, in nanoseconds: until the message passes, and no longer than
    /// until playback is looked at again.
    pub fn poll_timeout(&self, now: u64) -> (timeout: u64)
        ensures
            timeout == match self.message_expiry() {
                Some(expires_at) => if expires_at <= now {
                    0
                } else if expires_at - now < PLAYBACK_POLL_NANOS {
                    expires_at - now
                } else {
                    PLAYBACK_POLL_NANOS as int
                },
                None => PLAYBACK_POLL_NANOS as int,
            },
    {
        match self.status_timeout(now) {
            Some(timeout) => if timeout < PLAYBACK_POLL_NANOS as u128 {
                timeout as u64
            } else {
                PLAYBACK_POLL_NANOS
            },
            None => PLAYBACK_POLL_NANOS,
        }
    }

    /// The sounds that the query finds.
    pub fn filtered_sounds(&self) -> (sounds: Vec<&Sound>)
        ensures
            sounds@.unref() == self.filtered(),
            self.query@.len() == 0 ==> sounds@.unref() == self.sounds@,
    {
        let wanted = to_lowercase(&self.query);
        let ghost shown = |sound: Sound| sound_matches(sound, self.query@);
        let mut sounds: Vec<&Sound> = Vec::new();
        let mut i: usize = 0;
        proof {
            reveal(Seq::filter);
        }
        assert(self.sounds@.take(0) == Seq::<Sound>::empty());
        assert(sounds@.unref() =~= self.sounds@.take(0).filter(shown));
        while i < self.sounds.len()
            invariant
                i <= self.sounds@.len(),
                wanted@ == text::lowercase(self.query@),
                shown == (|sound: Sound| sound_matches(sound, self.query@)),
                sounds@.unref() == self.sounds@.take(i as int).filter(shown),
            decreases self.sounds@.len() - i,
        {
            let ghost seen = self.sounds@.take(i as int);
            assert(self.sounds@.take(i + 1) == seen.push(self.sounds@[i as int]));
            proof {
                seen.lemma_filter_push(self.sounds@[i as int], shown);
            }
            let ghost before = sounds@.unref();
            let sound = &self.sounds[i];
            let found = occurs_in_sound(
                &wanted,
                &to_lowercase(&sound.name),
                &to_lowercase(&sound.file_name()),
                &lower_all(&sound.aliases),
            );
            if found {
                sounds.push(&self.sounds[i]);
                assert(sounds@.unref() =~= before.push(self.sounds@[i as int]));
            }
            i += 1;
        }
        assert(self.sounds@.take(i as int) == self.sounds@);
        proof {
            if self.query@.len() == 0 {
                assert(text::ascii_lower(self.query@) =~= Seq::empty());
                lemma_filter_keeps_all(self.sounds@, shown);
            }
        }
        sounds
    }
}

/// A passing message is shown for its time, and no longer.
pub proof fn message_passes_after_its_time(
    before: App,
    after: App,
    text: Seq<char>,
    now: u64,
    later: u64,
)
    requires
        shows_status(before, after, text, now),
    ensures
        after.message_expiry() is Some,
        after.message_expiry()->Some_0 <= later <==> later - now >= STATUS_MESSAGE_NANOS,
{
}

/// An error is shown until another message takes its place.
pub proof fn error_does_not_pass(before: App, after: App, text: Seq<char>)
    requires
        shows_error(before, after, text),
    ensures
        after.message_expiry() is None,
{
}

/// Queries that differ in case alone find the same sounds.
pub proof fn search_ignores_case(state: App, other: App)
    requires
        other.sounds == state.sounds,
        text::lowercase(other.query@) == text::lowercase(state.query@),
    ensures
        other.filtered() == state.filtered(),
{
    let first = |sound: Sound| sound_matches(sound, state.query@);
    let second = |sound: Sound| sound_matches(sound, other.query@);
    assert(first =~= second);
}

/// Going to the other mode and back changes nothing.
pub proof fn two_mode_changes_are_none(state: App)
    ensures
        state.in_other_mode().in_other_mode() == state,
{
}

/// A sound is found by what it is called: the query, whatever the case, need only stand somewhere in
/// its name, in its file name or in one of its aliases, whatever the others are. A sound in none of
/// whose texts the query stands is not found.
pub proof fn a_sound_is_found_by_what_it_is_called(
    state: App,
    found: Vec<&Sound>,
    at: int,
    file: String,
    before: Seq<char>,
    after: Seq<char>,
    alias: int,
)
    requires
        call_ensures(App::filtered_sounds, (&state,), found),
        0 <= at < state.sounds@.len(),
        call_ensures(Sound::file_name, (&state.sounds@[at],), file),
    ensures
        text::lowercase(state.sounds@[at].name@) == before + text::lowercase(state.query@) + after
            ==> found@.unref().contains(state.sounds@[at]),
        text::lowercase(file@) == before + text::lowercase(state.query@) + after
            ==> found@.unref().contains(state.sounds@[at]),
        0 <= alias < state.sounds@[at].aliases@.len() && text::lowercase(
            state.sounds@[at].aliases@[alias]@,
        ) == before + text::lowercase(state.query@) + after ==> found@.unref().contains(
            state.sounds@[at],
        ),
        text::lowercase(state.query@).len() > 0 && !text::occurs_in(
            text::lowercase(state.query@),
            text::lowercase(state.sounds@[at].name@),
        ) && !text::occurs_in(text::lowercase(state.query@), text::lowercase(file@)) && (forall|
            i: int,
        |
            0 <= i < state.sounds@[at].aliases@.len() ==> !text::occurs_in(
                text::lowercase(state.query@),
                text::lowercase((#[trigger] state.sounds@[at].aliases@[i])@),
            )) ==> !found@.unref().contains(state.sounds@[at]),
{
    let sound = state.sounds@[at];
    let wanted = text::lowercase(state.query@);
    let shown = |sound: Sound| sound_matches(sound, state.query@);
    let all = state.sounds@.filter(shown);
    assert(found@.unref() == all);
    let aliases = lowercased(text::views(sound.aliases@));
    assert forall|i: int| 0 <= i < sound.aliases@.len() implies #[trigger] aliases[i]
        == text::lowercase(sound.aliases@[i]@) by {}
    text::occurring_is_standing_inside(wanted, text::lowercase(sound.name@));
    text::occurring_is_standing_inside(wanted, text::lowercase(file@));
    if 0 <= alias < sound.aliases@.len() {
        text::occurring_is_standing_inside(wanted, text::lowercase(sound.aliases@[alias]@));
        assert(aliases[alias] == text::lowercase(sound.aliases@[alias]@));
    }
    if shown(sound) {
        state.sounds@.lemma_filter_contains(shown, at);
    }
    if all.contains(sound) {
        let k = choose|k: int| 0 <= k < all.len() && all[k] == sound;
        state.sounds@.lemma_filter_pred(shown, k);
    }
}

/// Each sound is found by its own name, and without a query every sound is.
pub proof fn a_sound_is_found_by_its_own_name(
    state: App,
    found: Vec<&Sound>,
    at: int,
)
    requires
        call_ensures(App::filtered_sounds, (&state,), found),
        0 <= at < state.sounds@.len(),
        state.query@ == state.sounds@[at].name@ || state.query@.len() == 0,
    ensures
        found@.unref().contains(state.sounds@[at]),
        state.query@.len() == 0 ==> found@.unref() == state.sounds@,
{
    let sound = state.sounds@[at];
    let shown = |sound: Sound| sound_matches(sound, state.query@);
    if state.query@.len() == 0 {
        assert(state.sounds@.contains(sound));
    } else {
        let name = text::lowercase(sound.name@);
        assert(name =~= Seq::<char>::empty() + name + Seq::<char>::empty());
        text::occurring_is_standing_inside(name, name);
        state.sounds@.lemma_filter_contains(shown, at);
    }
}

/// The sounds that are found stand in the order of the library: those of two parts of a library are
/// found one part after the other.
pub proof fn found_sounds_keep_their_order(
    states: (App, App, App),
    found: (Vec<&Sound>, Vec<&Sound>, Vec<&Sound>),
)
    requires
        call_ensures(App::filtered_sounds, (&states.0,), found.0),
        call_ensures(App::filtered_sounds, (&states.1,), found.1),
        call_ensures(App::filtered_sounds, (&states.2,), found.2),
        states.1.query@ == states.0.query@,
        states.2.query@ == states.0.query@,
        states.0.sounds@ == states.1.sounds@ + states.2.sounds@,
    ensures
        found.0@.unref() == found.1@.unref() + found.2@.unref(),
{
    let shown = |sound: Sound| sound_matches(sound, states.0.query@);
    Seq::filter_distributes_over_add(states.1.sounds@, states.2.sounds@, shown);
}

/// What is wanted is found in a sound's texts where it stands in any of them, and only there.
pub proof fn any_text_of_a_sound_counts(
    wanted: &str,
    name: &str,
    file: &str,
    aliases: Vec<String>,
    found: bool,
    in_name: bool,
    in_file: bool,
)
    requires
        call_ensures(occurs_in_sound, (wanted, name, file, &aliases), found),
        call_ensures(contains, (name, wanted), in_name),
        call_ensures(contains, (file, wanted), in_file),
    ensures
        in_name ==> found,
        in_file ==> found,
        forall|i: int|
            0 <= i < aliases@.len() && text::occurs_in(wanted@, (#[trigger] aliases@[i])@)
                ==> found,
        wanted@.len() == 0 ==> found,
        found && wanted@.len() > 0 && !in_name && !in_file ==> exists|i: int|
            0 <= i < aliases@.len() && text::occurs_in(wanted@, (#[trigger] aliases@[i])@),
{
    let all = text::views(aliases@);
    assert forall|i: int| 0 <= i < aliases@.len() implies #[trigger] aliases@[i]@ == all[i] by {}
    assert forall|i: int|
        0 <= i < aliases@.len() && text::occurs_in(
            wanted@,
            (#[trigger] aliases@[i])@,
        ) implies found by {
        assert(all[i] == aliases@[i]@);
    }
    if found && wanted@.len() > 0 && !in_name && !in_file {
        let i = choose|i: int|
            0 <= i < all.len() && text::occurs_in(wanted@, #[trigger] all[i]);
        assert(aliases@[i]@ == all[i]);
    }
}

/// A volume is moved by what was asked for, as far as 0 and 100 let it; moving it further never
/// gives less.
pub proof fn a_volume_moves_by_what_was_asked(
    volume: u8,
    delta: i8,
    more: i8,
    adjusted: u8,
    further: u8,
)
    requires
        volume <= 100,
        delta <= more,
        call_ensures(adjusted_volume, (volume, delta), adjusted),
        call_ensures(adjusted_volume, (volume, more), further),
    ensures
        adjusted <= 100,
        adjusted <= further,
        0 <= volume + delta <= 100 ==> adjusted == volume + delta,
        volume + delta < 0 ==> adjusted == 0,
        volume + delta > 100 ==> adjusted == 100,
{
}

/// Sounds can be played exactly where the setup was completed, the sink and the microphone of the
/// settings are there and belong together, PipeWire and mpv work, and, where the settings rest on
/// the managed mix, its file and all of it is in place.
pub proof fn audio_is_ready_when_all_of_it_is(
    settings: AudioSettings,
    diagnostics: Diagnostics,
    contents: Result<String, Failure>,
    modules: CommandResult,
    names: (&str, &str, &str),
    parts: (bool, bool, bool),
    pair: Result<bool, Failure>,
    installed: Result<bool, Failure>,
    mix: Result<bool, Failure>,
    ready: bool,
)
    requires
        settings.mix_sink matches Some(sink) ==> names.0@ == sink@,
        settings.virtual_source matches Some(source) ==> names.1@ == source@,
        settings.physical_source matches Some(source) ==> names.2@ == source@,
        call_ensures(Diagnostics::has_sink, (&diagnostics, names.0), parts.0),
        call_ensures(Diagnostics::playback_ready, (&diagnostics,), parts.1),
        call_ensures(
            contains_node,
            (&diagnostics.inventory.virtual_sources, names.1),
            parts.2,
        ),
        call_ensures(
            source_matches_sink,
            (&diagnostics, names.0, names.1, &modules),
            pair,
        ),
        call_ensures(managed_mix_installed, (&contents,), installed),
        call_ensures(managed_mix_ready, (names.2, &diagnostics, &modules), mix),
        call_ensures(audio_ready, (&settings, &diagnostics, &contents, &modules), ready),
    ensures
        ready ==> settings.onboarding_complete,
        ready ==> settings.mix_sink is Some && parts.0,
        ready ==> parts.1,
        ready ==> settings.virtual_source is Some && parts.2,
        ready ==> pair == Ok::<bool, Failure>(true),
        ready && settings.managed_mix ==> installed == Ok::<bool, Failure>(true)
            && settings.physical_source is Some && mix == Ok::<bool, Failure>(true),
        settings.onboarding_complete && settings.mix_sink is Some && settings.virtual_source is Some
            && parts.0 && parts.1 && parts.2 && pair == Ok::<bool, Failure>(true) && (
        !settings.managed_mix || installed == Ok::<bool, Failure>(true)
            && settings.physical_source is Some && mix == Ok::<bool, Failure>(true)) ==> ready,
{
}

/// The list of modules is asked for exactly where a sink and a microphone are chosen; otherwise
/// sounds cannot be played, whatever it would say.
pub proof fn modules_are_needed_for_a_chosen_pair(
    settings: AudioSettings,
    needed: bool,
    diagnostics: Diagnostics,
    contents: Result<String, Failure>,
    modules: CommandResult,
    ready: bool,
)
    requires
        call_ensures(needs_modules, (&settings,), needed),
        call_ensures(audio_ready, (&settings, &diagnostics, &contents, &modules), ready),
    ensures
        needed <==> settings.mix_sink is Some && settings.virtual_source is Some,
        !needed ==> !ready,
{
}

/// The soundboard starts with the setup where sounds cannot be played, and without it where they
/// can; with all sounds, the first selected, no query and no other dialog; and with the sound that
/// plays, or an error that tells why that is not known.
pub proof fn the_soundboard_starts_with_what_is_needed(
    mode: Mode,
    settings: Settings,
    diagnostics: Diagnostics,
    contents: Result<String, Failure>,
    modules: CommandResult,
    playback: Result<Option<PathBuf>, Failure>,
    sounds: Vec<Sound>,
    ready: bool,
    state: App,
)
    requires
        call_ensures(
            audio_ready,
            (&settings.audio, &diagnostics, &contents, &modules),
            ready,
        ),
        call_ensures(
            App::new,
            (mode, settings, diagnostics, &contents, &modules, playback, sounds),
            state,
        ),
    ensures
        state.audio_setup is None <==> ready,
        state.audio_setup matches Some(setup) ==> setup.required && setup.diagnostics
            == diagnostics && setup.error is None && setup.selected_sink is None
            && setup.selected_source is None,
        state.mode == mode && state.settings == settings && state.sounds == sounds,
        state.selected_index == 0 && state.query@.len() == 0 && !state.should_quit,
        state.file_picker is None && state.delete_confirmation is None
            && state.metadata_editor is None,
        playback matches Ok(playing) ==> state.playing_path == playing
            && state.status_message is None,
        playback matches Err(failure) ==> state.playing_path is None
            && state.status_message is Some && state.status_message->Some_0.is_error
            && state.status_message->Some_0.text@ == "Could not query mpv: "@ + failure.message@,
{
}

/// Changing the mode goes to the other one of the two and changes nothing else.
pub proof fn the_mode_changes_alone(state: &mut App)
    requires
        call_ensures(App::toggle_mode, (state,), ()),
    ensures
        old(state).mode == Mode::Use ==> *final(state) == (App {
            mode: Mode::Configuration,
            ..*old(state)
        }),
        old(state).mode == Mode::Configuration ==> *final(state) == (App {
            mode: Mode::Use,
            ..*old(state)
        }),
{
}

/// An error is shown and stays; a status is shown for five seconds, is no error, and is dropped once
/// they are over and not before. Neither changes anything else.
pub proof fn messages_are_shown_for_their_time(
    erring: &mut App,
    error: String,
    telling: &mut App,
    status: String,
    now: u64,
    clearing: &mut App,
    later: u64,
    cleaning: &mut App,
)
    requires
        call_ensures(App::set_error, (erring, error), ()),
        call_ensures(App::set_temporary_status, (telling, status, now), ()),
        *old(clearing) == *final(telling),
        call_ensures(App::clear_expired_status, (clearing, later), ()),
        *old(cleaning) == *final(erring),
        call_ensures(App::clear_expired_status, (cleaning, later), ()),
    ensures
        final(erring).status_message is Some,
        final(erring).status_message->Some_0.is_error,
        final(erring).status_message->Some_0.text@ == error@,
        *final(erring) == (App { status_message: final(erring).status_message, ..*old(erring) }),
        *final(cleaning) == *final(erring),
        final(telling).status_message is Some,
        !final(telling).status_message->Some_0.is_error,
        final(telling).status_message->Some_0.text@ == status@,
        *final(telling) == (App { status_message: final(telling).status_message, ..*old(telling) }),
        later >= now + 5_000_000_000 ==> *final(clearing) == (App {
            status_message: None,
            ..*final(telling)
        }),
        later < now + 5_000_000_000 ==> *final(clearing) == *final(telling),
{
}

/// A key is waited for until the message passes, and for at most a fifth of a second.
pub proof fn waiting_ends_in_time(
    telling: &mut App,
    status: String,
    now: u64,
    later: u64,
    timeout: u64,
    left: Option<u128>,
    quiet: App,
    quiet_timeout: u64,
    quiet_left: Option<u128>,
)
    requires
        call_ensures(App::set_temporary_status, (telling, status, now), ()),
        call_ensures(App::poll_timeout, (final(telling), later), timeout),
        call_ensures(App::status_timeout, (final(telling), later), left),
        quiet.status_message is None,
        call_ensures(App::poll_timeout, (&quiet, later), quiet_timeout),
        call_ensures(App::status_timeout, (&quiet, later), quiet_left),
    ensures
        timeout <= 200_000_000,
        later >= now + 5_000_000_000 ==> timeout == 0 && left == Some(0u128),
        later < now + 5_000_000_000 ==> left == Some((now + 5_000_000_000 - later) as u128),
        later < now + 5_000_000_000 && now + 5_000_000_000 - later < 200_000_000 ==> timeout == now
            + 5_000_000_000 - later,
        now + 5_000_000_000 - later >= 200_000_000 ==> timeout == 200_000_000,
        quiet_timeout == 200_000_000,
        quiet_left is None,
{
}

} // verus!
