//! Selecting, playing and adjusting sounds.

use std::path::PathBuf;

use vstd::prelude::*;

use crate::app;
use crate::app::{adjusted_volume, Action, App, PlayOrder};
use crate::failure::Failure;
use crate::library::Sound;
use crate::picker;
use crate::picker::step_selection;
use crate::player::PlayOutcome;
use crate::text::{join2, join3, join4, starts_with};

verus! {

/// The order to play a sound as the settings of the soundboard say.
pub open spec fn order_for(state: App, sound: Sound, mix_sink: String, from_pad: bool) -> PlayOrder {
    PlayOrder {
        path: sound.path,
        volume: sound.volume,
        local_playback: state.settings.local_playback,
        mix_sink,
        name: sound.name,
        from_pad,
    }
}

/// A sound, if there is one, is ordered to be played; without a destination an error is shown
/// instead.
pub open spec fn orders(
    before: App,
    after: App,
    sound: Option<Sound>,
    from_pad: bool,
    action: Action,
) -> bool {
    match sound {
        Some(sound) => match before.settings.audio.mix_sink {
            Some(sink) => after == before && action == Action::Play(
                order_for(before, sound, sink, from_pad),
            ),
            None => action is Nothing && app::shows_error(
                before,
                after,
                "Configure an audio destination before playing."@,
            ),
        },
        None => after == before && action is Nothing,
    }
}

/// The item at a place, if there is one.
pub open spec fn item_at(sounds: Seq<Sound>, place: int) -> Option<Sound> {
    if 0 <= place < sounds.len() {
        Some(sounds[place])
    } else {
        None
    }
}

/// What playing a sound leads to. Where it is heard everywhere, quick play ends the program and a
/// pad shows a message; where only the local output failed, the sound counts as playing and the
/// failure is shown; where the microphone failed, only the failure is shown.
pub open spec fn played_as(
    before: App,
    after: App,
    order: PlayOrder,
    outcome: Result<PlayOutcome, Failure>,
    now: u64,
) -> bool {
    let playing = App { playing_path: Some(order.path), ..before };
    match outcome {
        Ok(outcome) => match outcome.local_error {
            None => if order.from_pad {
                app::shows_status(playing, after, "Playing '"@ + order.name@ + "'."@, now)
            } else {
                after == (App { should_quit: true, ..playing })
            },
            Some(error) => if order.from_pad {
                app::shows_error(
                    playing,
                    after,
                    "Playing '"@ + order.name@
                        + "' on the virtual microphone, but local playback failed: "@ + error@,
                )
            } else {
                app::shows_error(
                    playing,
                    after,
                    "Audio was sent to the virtual microphone, but local playback failed: "@
                        + error@,
                )
            },
        },
        Err(failure) => app::shows_error(
            before,
            after,
            "Could not play '"@ + order.name@ + "': "@ + failure.message@,
        ),
    }
}

/// The selected sound's volume moved by `delta`; where that changes it, the sounds are to be
/// stored.
pub open spec fn volume_moved(before: App, after: App, delta: int, action: Action) -> bool {
    let at = before.selected_index as int;
    if at < before.sounds@.len() && app::moved_volume(before.sounds@[at].volume as int, delta)
        != before.sounds@[at].volume {
        let volume = app::moved_volume(before.sounds@[at].volume as int, delta) as u8;
        &&& after.sounds@ == before.sounds@.update(
            at,
            Sound { volume, ..before.sounds@[at] },
        )
        &&& after == (App { sounds: after.sounds, ..before })
        &&& action == (Action::SaveVolume {
            index: before.selected_index,
            previous_volume: before.sounds@[at].volume,
        })
    } else {
        after == before && action is Nothing
    }
}

/// The volume stays if it was stored, and is what it was before if not.
pub open spec fn volume_settled(
    before: App,
    after: App,
    index: usize,
    previous: u8,
    stored: Result<(), Failure>,
) -> bool {
    if stored is Err && index < before.sounds@.len() {
        &&& after.sounds@ == before.sounds@.update(
            index as int,
            Sound { volume: previous, ..before.sounds@[index as int] },
        )
        &&& after == (App { sounds: after.sounds, ..before })
    } else {
        after == before
    }
}

/// The state with local playback switched.
pub open spec fn with_local_switched(state: App) -> App {
    App {
        settings: crate::library::Settings {
            local_playback: !state.settings.local_playback,
            ..state.settings
        },
        ..state
    }
}

/// The start of the message for a failure to ask mpv what it plays.
pub open spec fn query_reported(state: App) -> bool {
    match state.status_message {
        Some(message) => "Could not query mpv:"@.is_prefix_of(message.text@),
        None => false,
    }
}

impl App {
    /// The state with another selection.
    pub open spec fn selecting(self, place: int) -> App {
        App { selected_index: place as usize, ..self }
    }

    /// Selects the next sound that the query finds.
    pub fn select_next(&mut self)
        ensures
            *final(self) == old(self).selecting(
                picker::stepped(old(self).selected_index as int, 1, old(self).filtered().len() as int),
            ),
    {
        let count = {
            let sounds = self.filtered_sounds();
            assert(sounds@.unref().len() == sounds@.len());
            sounds.len()
        };
        self.selected_index = step_selection(self.selected_index, 1, count);
    }

    /// Selects the previous sound.
    pub fn select_previous(&mut self)
        ensures
            *final(self) == old(self).selecting(
                if old(self).selected_index == 0 {
                    0
                } else {
                    old(self).selected_index - 1
                },
            ),
    {
        self.selected_index = self.selected_index.saturating_sub(1);
    }

    /// Selects the pad `amount` places further, or the last one.
    pub fn select_next_pad(&mut self, amount: usize)
        ensures
            *final(self) == old(self).selecting(
                picker::stepped(
                    old(self).selected_index as int,
                    amount as int,
                    old(self).sounds@.len() as int,
                ),
            ),
    {
        self.selected_index = step_selection(self.selected_index, amount, self.sounds.len());
    }

    /// Selects the pad `amount` places back, or the first one.
    pub fn select_previous_pad(&mut self, amount: usize)
        ensures
            *final(self) == old(self).selecting(
                if old(self).selected_index <= amount {
                    0
                } else {
                    old(self).selected_index - amount
                },
            ),
    {
        self.selected_index = self.selected_index.saturating_sub(amount);
    }

    fn order(&mut self, path: PathBuf, volume: u8, name: String, from_pad: bool) -> (action: Action)
        ensures
            forall|sound: Sound| #[trigger]
                item_is(sound, path, volume, name) ==> orders(
                    *old(self),
                    *final(self),
                    Some(sound),
                    from_pad,
                    action,
                ),
    {
        let mix_sink = match &self.settings.audio.mix_sink {
            Some(sink) => sink.clone(),
            None => {
                self.set_error("Configure an audio destination before playing.".to_owned());
                return Action::Nothing;
            },
        };
        Action::Play(
            PlayOrder {
                path,
                volume,
                local_playback: self.settings.local_playback,
                mix_sink,
                name,
                from_pad,
            },
        )
    }

    /// Orders the selected one of the sounds that the query finds.
    pub fn play_selected(&mut self) -> (action: Action)
        ensures
            orders(
                *old(self),
                *final(self),
                item_at(old(self).filtered(), old(self).selected_index as int),
                false,
                action,
            ),
    {
        let (path, volume, name) = {
            let sounds = self.filtered_sounds();
            assert(sounds@.unref().len() == sounds@.len());
            if self.selected_index >= sounds.len() {
                return Action::Nothing;
            }
            assert(sounds@.unref()[self.selected_index as int]
                == *sounds@[self.selected_index as int]);
            let sound = sounds[self.selected_index];
            (sound.path.clone(), sound.volume, sound.name.clone())
        };
        assert(item_is(
            old(self).filtered()[old(self).selected_index as int],
            path,
            volume,
            name,
        ));
        self.order(path, volume, name, false)
    }

    /// Orders the sound of the selected pad.
    pub fn play_pad(&mut self) -> (action: Action)
        ensures
            orders(
                *old(self),
                *final(self),
                item_at(old(self).sounds@, old(self).selected_index as int),
                true,
                action,
            ),
    {
        if self.selected_index >= self.sounds.len() {
            return Action::Nothing;
        }
        let sound = &self.sounds[self.selected_index];
        let (path, volume, name) = (sound.path.clone(), sound.volume, sound.name.clone());
        assert(item_is(self.sounds@[self.selected_index as int], path, volume, name));
        self.order(path, volume, name, true)
    }

    /// Takes what came of an order.
    pub fn played(&mut self, order: PlayOrder, outcome: Result<PlayOutcome, Failure>, now: u64)
        ensures
            played_as(*old(self), *final(self), order, outcome, now),
    {
        let outcome = match outcome {
            Ok(outcome) => outcome,
            Err(failure) => {
                self.set_error(join4("Could not play '", &order.name, "': ", &failure.message));
                return ;
            },
        };
        self.playing_path = Some(order.path);
        match outcome.local_error {
            None => if order.from_pad {
                self.set_temporary_status(join3("Playing '", &order.name, "'."), now);
            } else {
                self.should_quit = true;
            },
            Some(error) => if order.from_pad {
                self.set_error(
                    join4(
                        "Playing '",
                        &order.name,
                        "' on the virtual microphone, but local playback failed: ",
                        &error,
                    ),
                );
            } else {
                self.set_error(
                    join2(
                        "Audio was sent to the virtual microphone, but local playback failed: ",
                        &error,
                    ),
                );
            },
        }
    }

    /// Takes what came of stopping playback.
    pub fn playback_stopped(&mut self, result: Result<(), Failure>, now: u64)
        ensures
            match result {
                Ok(_) => app::shows_status(
                    App { playing_path: None, ..*old(self) },
                    *final(self),
                    "Playback stopped."@,
                    now,
                ),
                Err(failure) => app::shows_error(
                    *old(self),
                    *final(self),
                    "Could not stop playback: "@ + failure.message@,
                ),
            },
    {
        match result {
            Ok(_) => {
                self.playing_path = None;
                self.set_temporary_status("Playback stopped.".to_owned(), now);
            },
            Err(failure) => self.set_error(
                join2("Could not stop playback: ", &failure.message),
            ),
        }
    }

    /// Takes what asking mpv for the sound it plays gave. A failure is shown once: while its
    /// message stands, further failures change nothing.
    pub fn refresh_playback_state(&mut self, playback: Result<Option<PathBuf>, Failure>)
        ensures
            match playback {
                Ok(path) => *final(self) == (App { playing_path: path, ..*old(self) }),
                Err(failure) => if query_reported(*old(self)) {
                    *final(self) == *old(self)
                } else {
                    app::shows_error(*old(self), *final(self), app::query_failure_text(failure))
                },
            },
    {
        match playback {
            Ok(path) => {
                self.playing_path = path;
            },
            Err(failure) => {
                let reported = match &self.status_message {
                    Some(message) => starts_with(&message.text, "Could not query mpv:"),
                    None => false,
                };
                if !reported {
                    self.set_error(join2("Could not query mpv: ", &failure.message));
                }
            },
        }
    }

    /// Takes what loading the sounds gave, and selects the first. A failure is handed back.
    pub fn sounds_reloaded(&mut self, loaded: Result<Vec<Sound>, Failure>) -> (result: Result<
        (),
        Failure,
    >)
        ensures
            match loaded {
                Ok(sounds) => result is Ok && *final(self) == (App {
                    sounds,
                    selected_index: 0,
                    ..*old(self)
                }),
                Err(failure) => result == Err::<(), Failure>(failure) && *final(self) == *old(
                    self,
                ),
            },
    {
        match loaded {
            Ok(sounds) => {
                self.sounds = sounds;
                self.selected_index = 0;
                Ok(())
            },
            Err(failure) => Err(failure),
        }
    }

    /// Moves the selected sound's volume.
    pub fn adjust_volume(&mut self, delta: i8) -> (action: Action)
        ensures
            volume_moved(*old(self), *final(self), delta as int, action),
    {
        let index = self.selected_index;
        if index >= self.sounds.len() {
            return Action::Nothing;
        }
        let previous = self.sounds[index].volume;
        let volume = adjusted_volume(previous, delta);
        if volume == previous {
            return Action::Nothing;
        }
        self.sounds[index].volume = volume;
        Action::SaveVolume { index, previous_volume: previous }
    }

    /// Takes what storing a changed volume gave. A failure undoes the change and is handed back.
    pub fn volume_saved(&mut self, index: usize, previous: u8, stored: Result<(), Failure>) -> (result:
        Result<(), Failure>)
        ensures
            result == stored,
            volume_settled(*old(self), *final(self), index, previous, stored),
    {
        if stored.is_err() && index < self.sounds.len() {
            self.sounds[index].volume = previous;
        }
        stored
    }

    /// Switches local playback.
    pub fn toggle_local_playback(&mut self) -> (action: Action)
        ensures
            *final(self) == with_local_switched(*old(self)),
            action is SaveLocalPlayback,
    {
        self.settings.local_playback = !self.settings.local_playback;
        Action::SaveLocalPlayback
    }

    /// Takes what storing switched local playback gave. A failure switches it back and is handed
    /// back; once it is stored that local playback is off, it is to be stopped.
    pub fn local_playback_saved(&mut self, stored: Result<(), Failure>) -> (result: Result<
        Action,
        Failure,
    >)
        ensures
            match stored {
                Ok(_) => *final(self) == *old(self) && result == Ok::<Action, Failure>(
                    if old(self).settings.local_playback {
                        Action::Nothing
                    } else {
                        Action::StopLocal
                    },
                ),
                Err(failure) => *final(self) == with_local_switched(*old(self)) && result == Err::<
                    Action,
                    Failure,
                >(failure),
            },
    {
        match stored {
            Ok(_) => if self.settings.local_playback {
                Ok(Action::Nothing)
            } else {
                Ok(Action::StopLocal)
            },
            Err(failure) => {
                self.settings.local_playback = !self.settings.local_playback;
                Err(failure)
            },
        }
    }

    /// Takes what stopping local playback gave.
    pub fn local_stopped(&mut self, result: Result<(), Failure>)
        ensures
            match result {
                Ok(_) => *final(self) == *old(self),
                Err(failure) => app::shows_error(
                    *old(self),
                    *final(self),
                    "Could not stop local playback: "@ + failure.message@,
                ),
            },
    {
        if let Err(failure) = result {
            self.set_error(join2("Could not stop local playback: ", &failure.message));
        }
    }
}

/// The sound has this path, volume and name.
pub open spec fn item_is(sound: Sound, path: PathBuf, volume: u8, name: String) -> bool {
    sound.path == path && sound.volume == volume && sound.name == name
}

/// A volume change that could not be stored leaves everything as it was.
pub proof fn failed_volume_change_is_undone(
    before: App,
    moved: App,
    after: App,
    delta: int,
    action: Action,
    failure: Failure,
)
    requires
        volume_moved(before, moved, delta, action),
        action is SaveVolume,
        volume_settled(
            moved,
            after,
            action->SaveVolume_index,
            action->SaveVolume_previous_volume,
            Err(failure),
        ),
    ensures
        after.sounds@ == before.sounds@,
        after == (App { sounds: after.sounds, ..before }),
{
    assert(after.sounds@ =~= before.sounds@);
}

/// Moving the volume up and down never leaves the volumes from 0 to 100.
pub proof fn volume_stays_in_range(before: App, after: App, delta: int, action: Action)
    requires
        volume_moved(before, after, delta, action),
        action is SaveVolume,
    ensures
        after.sounds@[before.selected_index as int].volume <= 100,
{
}

/// Switching local playback and failing to store it leaves everything as it was.
pub proof fn failed_local_switch_is_undone(before: App)
    ensures
        with_local_switched(with_local_switched(before)) == before,
{
}

/// Quick play ends the program once the sound is heard everywhere, and only then.
pub proof fn quick_play_ends_with_the_sound(
    before: App,
    after: App,
    order: PlayOrder,
    outcome: Result<PlayOutcome, Failure>,
    now: u64,
)
    requires
        played_as(before, after, order, outcome, now),
        !order.from_pad,
        !before.should_quit,
    ensures
        after.should_quit <==> outcome is Ok && outcome->Ok_0.local_error is None,
{
}

/// A sound counts as playing once the virtual microphone has it, whatever happens locally.
pub proof fn microphone_decides_what_plays(
    before: App,
    after: App,
    order: PlayOrder,
    outcome: Result<PlayOutcome, Failure>,
    now: u64,
)
    requires
        played_as(before, after, order, outcome, now),
    ensures
        after.playing_path == if outcome is Ok {
            Some(order.path)
        } else {
            before.playing_path
        },
{
}

/// What is played is the selected sound: its own file, at its own volume, to the configured sink,
/// locally too exactly where that is switched on. Where nothing is selected nothing is ordered, and
/// without a sink an error says so.
pub proof fn the_selected_sound_is_played(
    state: &mut App,
    action: Action,
    searching: &mut App,
    found: Vec<&Sound>,
    search_action: Action,
)
    requires
        call_ensures(App::play_pad, (state,), action),
        call_ensures(App::filtered_sounds, (&*old(searching),), found),
        call_ensures(App::play_selected, (searching,), search_action),
    ensures
        old(state).selected_index >= old(state).sounds@.len() ==> action is Nothing
            && *final(state) == *old(state),
        old(state).selected_index < old(state).sounds@.len() ==> {
            let sound = old(state).sounds@[old(state).selected_index as int];
            match old(state).settings.audio.mix_sink {
                Some(sink) => {
                    &&& *final(state) == *old(state)
                    &&& action is Play
                    &&& action->Play_0.path == sound.path
                    &&& action->Play_0.volume == sound.volume
                    &&& action->Play_0.name == sound.name
                    &&& action->Play_0.mix_sink == sink
                    &&& action->Play_0.local_playback == old(state).settings.local_playback
                    &&& action->Play_0.from_pad
                },
                None => {
                    &&& action is Nothing
                    &&& final(state).status_message is Some
                    &&& final(state).status_message->Some_0.is_error
                    &&& final(state).status_message->Some_0.text@
                        == "Configure an audio destination before playing."@
                },
            }
        },
        old(searching).selected_index >= found@.len() ==> search_action is Nothing
            && *final(searching) == *old(searching),
        old(searching).selected_index < found@.len() ==> {
            let sound = *found@[old(searching).selected_index as int];
            match old(searching).settings.audio.mix_sink {
                Some(sink) => {
                    &&& *final(searching) == *old(searching)
                    &&& search_action is Play
                    &&& search_action->Play_0.path == sound.path
                    &&& search_action->Play_0.volume == sound.volume
                    &&& search_action->Play_0.name == sound.name
                    &&& search_action->Play_0.mix_sink == sink
                    &&& search_action->Play_0.local_playback
                        == old(searching).settings.local_playback
                    &&& !search_action->Play_0.from_pad
                },
                None => {
                    &&& search_action is Nothing
                    &&& final(searching).status_message is Some
                    &&& final(searching).status_message->Some_0.is_error
                },
            }
        },
{
    assert(found@.unref().len() == found@.len());
    if old(searching).selected_index < found@.len() {
        assert(found@.unref()[old(searching).selected_index as int]
            == *found@[old(searching).selected_index as int]);
    }
}

/// The outcome of an order is shown: a sound that is heard everywhere plays, which a pad tells and
/// quick play ends with; one that only the microphone has plays too, with the error of the local
/// output; one that the microphone did not get does not play.
pub proof fn the_outcome_of_an_order_is_shown(
    heard: &mut App,
    half: &mut App,
    failed: &mut App,
    order: PlayOrder,
    local_error: String,
    failure: Failure,
    now: u64,
)
    requires
        call_ensures(App::played, (heard, order, Ok(PlayOutcome { local_error: None }), now), ()),
        call_ensures(
            App::played,
            (half, order, Ok(PlayOutcome { local_error: Some(local_error) }), now),
            (),
        ),
        call_ensures(App::played, (failed, order, Err(failure), now), ()),
    ensures
        final(heard).playing_path == Some(order.path),
        !order.from_pad ==> *final(heard) == (App {
            should_quit: true,
            playing_path: Some(order.path),
            ..*old(heard)
        }),
        order.from_pad ==> {
            &&& final(heard).should_quit == old(heard).should_quit
            &&& final(heard).status_message is Some
            &&& !final(heard).status_message->Some_0.is_error
            &&& final(heard).status_message->Some_0.text@ == "Playing '"@ + order.name@ + "'."@
        },
        final(half).playing_path == Some(order.path),
        final(half).should_quit == old(half).should_quit,
        final(half).status_message is Some && final(half).status_message->Some_0.is_error,
        order.from_pad ==> final(half).status_message->Some_0.text@ == "Playing '"@ + order.name@
            + "' on the virtual microphone, but local playback failed: "@ + local_error@,
        !order.from_pad ==> final(half).status_message->Some_0.text@
            == "Audio was sent to the virtual microphone, but local playback failed: "@
            + local_error@,
        final(failed).playing_path == old(failed).playing_path,
        final(failed).should_quit == old(failed).should_quit,
        final(failed).status_message is Some && final(failed).status_message->Some_0.is_error,
        final(failed).status_message->Some_0.text@ == "Could not play '"@ + order.name@ + "': "@
            + failure.message@,
        final(heard).sounds == old(heard).sounds && final(half).sounds == old(half).sounds
            && final(failed).sounds == old(failed).sounds,
{
}

/// Nothing plays once playback was stopped, and what plays goes on where it could not be stopped.
pub proof fn stopping_ends_what_plays(
    stopped: &mut App,
    playing: &mut App,
    failure: Failure,
    now: u64,
)
    requires
        call_ensures(App::playback_stopped, (stopped, Ok(()), now), ()),
        call_ensures(App::playback_stopped, (playing, Err(failure), now), ()),
    ensures
        final(stopped).playing_path is None,
        final(stopped).status_message is Some && !final(stopped).status_message->Some_0.is_error
            && final(stopped).status_message->Some_0.text@ == "Playback stopped."@,
        *final(stopped) == (App {
            playing_path: None,
            status_message: final(stopped).status_message,
            ..*old(stopped)
        }),
        final(playing).playing_path == old(playing).playing_path,
        final(playing).status_message is Some && final(playing).status_message->Some_0.is_error
            && final(playing).status_message->Some_0.text@ == "Could not stop playback: "@
            + failure.message@,
        *final(playing) == (App {
            status_message: final(playing).status_message,
            ..*old(playing)
        }),
{
}

/// What mpv says that it plays counts as playing. That mpv cannot be asked is told once: a second
/// failure leaves the message of the first.
pub proof fn what_plays_is_kept_up_to_date(
    state: &mut App,
    playing: Option<PathBuf>,
    failing: &mut App,
    failure: Failure,
    again: &mut App,
    second: Failure,
)
    requires
        call_ensures(App::refresh_playback_state, (state, Ok(playing)), ()),
        call_ensures(App::refresh_playback_state, (failing, Err(failure)), ()),
        old(failing).status_message is None,
        *old(again) == *final(failing),
        call_ensures(App::refresh_playback_state, (again, Err(second)), ()),
    ensures
        *final(state) == (App { playing_path: playing, ..*old(state) }),
        final(failing).status_message is Some && final(failing).status_message->Some_0.is_error
            && final(failing).status_message->Some_0.text@ == "Could not query mpv: "@
            + failure.message@,
        final(failing).playing_path == old(failing).playing_path,
        *final(again) == *final(failing),
{
    reveal_strlit("Could not query mpv:");
    reveal_strlit("Could not query mpv: ");
    let text = final(failing).status_message->Some_0.text@;
    assert(text.subrange(0, "Could not query mpv:"@.len() as int) =~= "Could not query mpv:"@);
}

/// Reloaded sounds take the place of the others, with the first selected; where they could not be
/// loaded, everything stays and the failure is handed back.
pub proof fn reloading_takes_the_new_sounds(
    state: &mut App,
    sounds: Vec<Sound>,
    result: Result<(), Failure>,
    failing: &mut App,
    failure: Failure,
    failed: Result<(), Failure>,
)
    requires
        call_ensures(App::sounds_reloaded, (state, Ok(sounds)), result),
        call_ensures(App::sounds_reloaded, (failing, Err(failure)), failed),
    ensures
        result is Ok,
        *final(state) == (App { sounds, selected_index: 0, ..*old(state) }),
        failed == Err::<(), Failure>(failure),
        *final(failing) == *old(failing),
{
}

/// The selected sound's volume, and no other's, changes by what was asked for, within 0 and 100, and
/// is to be stored; a change back restores it. Where nothing changes nothing is stored. A change
/// that could not be stored is undone.
pub proof fn the_selected_volume_changes(
    state: &mut App,
    delta: i8,
    action: Action,
    storing: &mut App,
    failure: Failure,
    failed: Result<(), Failure>,
    stored: &mut App,
    done: Result<(), Failure>,
    other: int,
)
    requires
        old(state).selected_index < old(state).sounds@.len(),
        old(state).sounds@[old(state).selected_index as int].volume <= 100,
        call_ensures(App::adjust_volume, (state, delta), action),
        *old(storing) == *final(state),
        *old(stored) == *final(state),
        action is SaveVolume,
        call_ensures(
            App::volume_saved,
            (
                storing,
                action->SaveVolume_index,
                action->SaveVolume_previous_volume,
                Err(failure),
            ),
            failed,
        ),
        call_ensures(
            App::volume_saved,
            (stored, action->SaveVolume_index, action->SaveVolume_previous_volume, Ok(())),
            done,
        ),
        0 <= other < old(state).sounds@.len(),
        other != old(state).selected_index,
    ensures
        ({
            let at = old(state).selected_index as int;
            let wanted = old(state).sounds@[at].volume + delta;
            let volume = final(state).sounds@[at].volume;
            &&& 0 <= wanted <= 100 ==> volume == wanted
            &&& wanted > 100 ==> volume == 100
            &&& wanted < 0 ==> volume == 0
            &&& final(state).sounds@.len() == old(state).sounds@.len()
            &&& final(state).sounds@[at].name == old(state).sounds@[at].name
            &&& final(state).sounds@[at].path == old(state).sounds@[at].path
            &&& final(state).sounds@[at].aliases == old(state).sounds@[at].aliases
            &&& final(state).sounds@[other] == old(state).sounds@[other]
            &&& *final(state) == (App { sounds: final(state).sounds, ..*old(state) })
            &&& final(storing).sounds@ == old(state).sounds@
        }),
        failed == Err::<(), Failure>(failure),
        *final(stored) == *final(state) && done is Ok,
{
    assert(final(storing).sounds@ =~= old(state).sounds@);
}

/// A volume is stored exactly where it changed.
pub proof fn an_unchanged_volume_is_not_stored(state: &mut App, delta: i8, action: Action)
    requires
        call_ensures(App::adjust_volume, (state, delta), action),
        old(state).selected_index < old(state).sounds@.len()
            ==> old(state).sounds@[old(state).selected_index as int].volume <= 100,
    ensures
        action is SaveVolume || action is Nothing,
        action is Nothing ==> *final(state) == *old(state),
        old(state).selected_index >= old(state).sounds@.len() ==> action is Nothing,
        old(state).selected_index < old(state).sounds@.len() ==> ({
            let volume = old(state).sounds@[old(state).selected_index as int].volume;
            &&& delta > 0 && volume < 100 ==> action is SaveVolume
            &&& delta < 0 && volume > 0 ==> action is SaveVolume
            &&& delta == 0 ==> action is Nothing
            &&& delta > 0 && volume == 100 ==> action is Nothing
            &&& delta < 0 && volume == 0 ==> action is Nothing
        }),
{
}

/// Local playback is switched, and that is to be stored. Once it is stored that it is off, what
/// plays there is stopped; where it could not be stored, it is switched back.
pub proof fn local_playback_is_switched(
    state: &mut App,
    action: Action,
    stored: &mut App,
    done: Result<Action, Failure>,
    failing: &mut App,
    failure: Failure,
    failed: Result<Action, Failure>,
    stopping: &mut App,
    silent: &mut App,
)
    requires
        call_ensures(App::toggle_local_playback, (state,), action),
        *old(stored) == *final(state),
        call_ensures(App::local_playback_saved, (stored, Ok(())), done),
        *old(failing) == *final(state),
        call_ensures(App::local_playback_saved, (failing, Err(failure)), failed),
        call_ensures(App::local_stopped, (stopping, Err(failure)), ()),
        call_ensures(App::local_stopped, (silent, Ok(())), ()),
    ensures
        action is SaveLocalPlayback,
        final(state).settings.local_playback != old(state).settings.local_playback,
        final(state).settings.audio == old(state).settings.audio,
        final(state).sounds == old(state).sounds && final(state).playing_path
            == old(state).playing_path,
        *final(stored) == *final(state),
        old(state).settings.local_playback ==> done == Ok::<Action, Failure>(Action::StopLocal),
        !old(state).settings.local_playback ==> done == Ok::<Action, Failure>(Action::Nothing),
        *final(failing) == *old(state),
        failed == Err::<Action, Failure>(failure),
        final(stopping).status_message is Some && final(stopping).status_message->Some_0.is_error
            && final(stopping).status_message->Some_0.text@ == "Could not stop local playback: "@
            + failure.message@,
        final(stopping).settings == old(stopping).settings,
        *final(silent) == *old(silent),
{
}

/// The selection moves by one place among the sounds that are found, and by the asked number of
/// pads, and stops at the first and at the last.
pub proof fn the_selection_moves_and_stops(
    next: &mut App,
    previous: &mut App,
    forward: &mut App,
    backward: &mut App,
    amount: usize,
    found: Vec<&Sound>,
)
    requires
        call_ensures(App::filtered_sounds, (&*old(next),), found),
        call_ensures(App::select_next, (next,), ()),
        call_ensures(App::select_previous, (previous,), ()),
        call_ensures(App::select_next_pad, (forward, amount), ()),
        call_ensures(App::select_previous_pad, (backward, amount), ()),
        old(next).selected_index < found@.len(),
        old(forward).selected_index < old(forward).sounds@.len(),
    ensures
        old(next).selected_index + 1 < found@.len() ==> final(next).selected_index
            == old(next).selected_index + 1,
        old(next).selected_index + 1 == found@.len() ==> final(next).selected_index
            == old(next).selected_index,
        *final(next) == (App { selected_index: final(next).selected_index, ..*old(next) }),
        old(previous).selected_index > 0 ==> final(previous).selected_index
            == old(previous).selected_index - 1,
        old(previous).selected_index == 0 ==> final(previous).selected_index == 0,
        *final(previous) == (App {
            selected_index: final(previous).selected_index,
            ..*old(previous)
        }),
        old(forward).selected_index + amount < old(forward).sounds@.len()
            ==> final(forward).selected_index == old(forward).selected_index + amount,
        old(forward).selected_index + amount >= old(forward).sounds@.len()
            ==> final(forward).selected_index == old(forward).sounds@.len() - 1,
        *final(forward) == (App { selected_index: final(forward).selected_index, ..*old(forward) }),
        old(backward).selected_index >= amount ==> final(backward).selected_index
            == old(backward).selected_index - amount,
        old(backward).selected_index < amount ==> final(backward).selected_index == 0,
        *final(backward) == (App {
            selected_index: final(backward).selected_index,
            ..*old(backward)
        }),
{
    assert(found@.unref().len() == found@.len());
    assert(found.len() == found@.len());
    assert(old(forward).sounds.len() == old(forward).sounds@.len());
}

} // verus!
