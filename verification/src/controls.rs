//! What the keys do.

use vstd::prelude::*;

use crate::app::{Action, App, DeleteConfirmation, Mode};
use crate::dialog;
use crate::editor::MetadataEditor;
use crate::key::{Key, KeyCode};
use crate::library;
use crate::pads;
use crate::picker;
use crate::wizard;

verus! {

/// The narrowest that a pad is.
pub const MIN_PAD_WIDTH: u16 = 20;

/// The width of the list beside the pads.
pub const LIBRARY_WIDTH: u16 = 32;

/// How many pads stand side by side in an area with a border: as many as fit, and at least one.
pub open spec fn columns_in(width: int) -> int {
    if width < MIN_PAD_WIDTH + 2 {
        1
    } else {
        (width - 2) / (MIN_PAD_WIDTH as int)
    }
}

/// How many pads stand side by side in an area of this width.
pub fn pad_columns(width: u16) -> (columns: usize)
    ensures
        columns == columns_in(width as int),
        columns >= 1,
{
    let columns = width.saturating_sub(2) / MIN_PAD_WIDTH;
    if columns < 1 {
        1
    } else {
        columns as usize
    }
}

/// How many pads stand side by side on a screen of this width.
pub fn screen_columns(width: u16) -> (columns: usize)
    ensures
        columns == columns_in(
            if width < LIBRARY_WIDTH {
                0
            } else {
                width - LIBRARY_WIDTH
            },
        ),
        columns >= 1,
{
    pad_columns(width.saturating_sub(LIBRARY_WIDTH))
}

/// The state with another query and the first result selected.
pub open spec fn searches(before: App, after: App, query: Seq<char>) -> bool {
    &&& after.query@ == query
    &&& after == (App { query: after.query, selected_index: 0, ..before })
}

/// The selection one place back.
pub open spec fn back(selected: int, amount: int) -> int {
    if selected <= amount {
        0
    } else {
        selected - amount
    }
}

/// What quick play does with a key while no dialog is open.
pub open spec fn use_key(before: App, key: Key, after: App, action: Action) -> bool {
    let selected = before.selected_index as int;
    let next = before.selecting(picker::stepped(selected, 1, before.filtered().len() as int));
    let previous = before.selecting(back(selected, 1));
    match key.code {
        KeyCode::Down => action is Nothing && after == next,
        KeyCode::Up => action is Nothing && after == previous,
        KeyCode::Enter => pads::orders(
            before,
            after,
            pads::item_at(before.filtered(), selected),
            false,
            action,
        ),
        KeyCode::Escape => action is Nothing && after == (App { should_quit: true, ..before }),
        KeyCode::Backspace => action is Nothing && searches(
            before,
            after,
            if before.query@.len() == 0 {
                before.query@
            } else {
                before.query@.drop_last()
            },
        ),
        KeyCode::Character(c) => action is Nothing && if key.control && c == 'k' {
            after == before.in_other_mode()
        } else if key.control && c == 'n' {
            after == next
        } else if key.control && c == 'p' {
            after == previous
        } else if key.typed() {
            searches(before, after, before.query@.push(c))
        } else {
            after == before
        },
        _ => action is Nothing && after == before,
    }
}

/// The confirmation of the selected sound's deletion opens, if a sound is selected.
pub open spec fn deletion_asked(before: App, after: App) -> bool {
    match pads::item_at(before.sounds@, before.selected_index as int) {
        Some(sound) => after == (App {
            delete_confirmation: Some(DeleteConfirmation { name: sound.name, path: sound.path }),
            status_message: None,
            ..before
        }),
        None => after == before,
    }
}

/// The editor of the selected sound opens, if a sound is selected.
pub open spec fn edit_asked(before: App, after: App) -> bool {
    match pads::item_at(before.sounds@, before.selected_index as int) {
        Some(sound) => {
            &&& after.metadata_editor is Some
            &&& after.metadata_editor->Some_0.opened(before.selected_index, sound)
            &&& after == (App {
                metadata_editor: after.metadata_editor,
                status_message: None,
                ..before
            })
        },
        None => after == before,
    }
}

/// What configuration does with a key while no dialog is open; `columns` pads stand side by side.
pub open spec fn configuration_key(
    before: App,
    key: Key,
    columns: int,
    after: App,
    action: Action,
) -> bool {
    let selected = before.selected_index as int;
    let count = before.sounds@.len() as int;
    match key.code {
        KeyCode::Right => action is Nothing && after == before.selecting(
            picker::stepped(selected, 1, count),
        ),
        KeyCode::Left => action is Nothing && after == before.selecting(back(selected, 1)),
        KeyCode::Down => action is Nothing && after == before.selecting(
            picker::stepped(selected, columns, count),
        ),
        KeyCode::Up => action is Nothing && after == before.selecting(back(selected, columns)),
        KeyCode::Enter | KeyCode::Character(' ') => pads::orders(
            before,
            after,
            pads::item_at(before.sounds@, selected),
            true,
            action,
        ),
        KeyCode::Character('+') | KeyCode::Character('=') => pads::volume_moved(
            before,
            after,
            5,
            action,
        ),
        KeyCode::Character('-') => pads::volume_moved(before, after, -5, action),
        KeyCode::Character('m') => after == pads::with_local_switched(before)
            && action is SaveLocalPlayback,
        KeyCode::Character('A') => after == before && action is OpenSetup,
        KeyCode::Character('s') => after == before && action is StopPlayback,
        KeyCode::Character('r') => after == before && action is ReloadSounds,
        KeyCode::Character('a') => after == before && action is OpenPicker,
        KeyCode::Character('d') => action is Nothing && deletion_asked(before, after),
        KeyCode::Character('e') => action is Nothing && edit_asked(before, after),
        KeyCode::Character('k') => action is Nothing && after == if key.control {
            before.in_other_mode()
        } else {
            before
        },
        KeyCode::Escape | KeyCode::Character('q') => action is Nothing && after == (App {
            should_quit: true,
            ..before
        }),
        _ => action is Nothing && after == before,
    }
}

/// What a key does: it goes to the dialog on top (the setup, the editor, the confirmation, the
/// picker, in this order), else to the mode.
pub open spec fn key_handled(
    before: App,
    key: Key,
    columns: int,
    after: App,
    action: Action,
) -> bool {
    if before.audio_setup is Some {
        wizard::setup_key(before, key, after, action)
    } else if before.metadata_editor is Some {
        dialog::editor_key(before, key, after, action)
    } else if before.delete_confirmation is Some {
        dialog::confirmation_key(before, key, after, action)
    } else if before.file_picker is Some {
        dialog::picker_key(before, key, after, action)
    } else {
        match before.mode {
            Mode::Use => use_key(before, key, after, action),
            Mode::Configuration => configuration_key(before, key, columns, after, action),
        }
    }
}

impl App {
    /// Takes a key; `pad_columns` pads stand side by side.
    pub fn handle_key(&mut self, key: Key, pad_columns: usize) -> (action: Action)
        ensures
            key_handled(*old(self), key, pad_columns as int, *final(self), action),
    {
        if self.audio_setup.is_some() {
            return self.handle_audio_setup_key(key);
        }
        if self.metadata_editor.is_some() {
            return self.handle_metadata_editor_key(key);
        }
        if self.delete_confirmation.is_some() {
            return self.handle_delete_confirmation_key(key);
        }
        if self.file_picker.is_some() {
            return self.handle_file_picker_key(key);
        }
        match self.mode {
            Mode::Use => self.handle_use_key(key),
            Mode::Configuration => self.handle_configuration_key(key, pad_columns),
        }
    }

    fn handle_use_key(&mut self, key: Key) -> (action: Action)
        ensures
            use_key(*old(self), key, *final(self), action),
    {
        match key.code {
            KeyCode::Down => self.select_next(),
            KeyCode::Up => self.select_previous(),
            KeyCode::Enter => {
                return self.play_selected();
            },
            KeyCode::Escape => {
                self.should_quit = true;
            },
            KeyCode::Backspace => {
                self.query.pop();
                self.selected_index = 0;
            },
            KeyCode::Character(c) => {
                if key.control && c == 'k' {
                    self.toggle_mode();
                } else if key.control && c == 'n' {
                    self.select_next();
                } else if key.control && c == 'p' {
                    self.select_previous();
                } else if key.is_typed() {
                    self.query.push(c);
                    self.selected_index = 0;
                }
            },
            _ => {},
        }
        Action::Nothing
    }

    fn handle_configuration_key(&mut self, key: Key, pad_columns: usize) -> (action: Action)
        ensures
            configuration_key(*old(self), key, pad_columns as int, *final(self), action),
    {
        match key.code {
            KeyCode::Right => self.select_next_pad(1),
            KeyCode::Left => self.select_previous_pad(1),
            KeyCode::Down => self.select_next_pad(pad_columns),
            KeyCode::Up => self.select_previous_pad(pad_columns),
            KeyCode::Enter | KeyCode::Character(' ') => {
                return self.play_pad();
            },
            KeyCode::Character('+') | KeyCode::Character('=') => {
                return self.adjust_volume(5);
            },
            KeyCode::Character('-') => {
                return self.adjust_volume(-5);
            },
            KeyCode::Character('m') => {
                return self.toggle_local_playback();
            },
            KeyCode::Character('A') => {
                return Action::OpenSetup;
            },
            KeyCode::Character('s') => {
                return Action::StopPlayback;
            },
            KeyCode::Character('r') => {
                return Action::ReloadSounds;
            },
            KeyCode::Character('a') => {
                return Action::OpenPicker;
            },
            KeyCode::Character('d') => self.ask_deletion(),
            KeyCode::Character('e') => self.ask_edit(),
            KeyCode::Character('k') => {
                if key.control {
                    self.toggle_mode();
                }
            },
            KeyCode::Escape | KeyCode::Character('q') => {
                self.should_quit = true;
            },
            _ => {},
        }
        Action::Nothing
    }

    fn ask_deletion(&mut self)
        ensures
            deletion_asked(*old(self), *final(self)),
    {
        if self.selected_index < self.sounds.len() {
            let sound = &self.sounds[self.selected_index];
            let confirmation = DeleteConfirmation {
                name: sound.name.clone(),
                path: sound.path.clone(),
            };
            self.delete_confirmation = Some(confirmation);
            self.status_message = None;
        }
    }

    fn ask_edit(&mut self)
        ensures
            edit_asked(*old(self), *final(self)),
    {
        if self.selected_index < self.sounds.len() {
            let editor = MetadataEditor::new(
                self.selected_index,
                &self.sounds[self.selected_index],
            );
            self.metadata_editor = Some(editor);
            self.status_message = None;
        }
    }
}

/// No dialog is open.
pub open spec fn no_dialog(state: App) -> bool {
    &&& state.audio_setup is None
    &&& state.metadata_editor is None
    &&& state.delete_confirmation is None
    &&& state.file_picker is None
}

/// The escape key closes the dialog on top, and the program where no dialog is open.
pub proof fn escape_closes_what_is_on_top(
    before: App,
    key: Key,
    columns: int,
    after: App,
    action: Action,
)
    requires
        key_handled(before, key, columns, after, action),
        key.code == KeyCode::Escape,
    ensures
        action is Nothing,
        before.audio_setup is Some ==> after.audio_setup is None,
        before.audio_setup is None && before.metadata_editor is Some
            ==> after.metadata_editor is None,
        before.audio_setup is None && before.metadata_editor is None
            && before.delete_confirmation is Some ==> after.delete_confirmation is None,
        before.audio_setup is None && before.metadata_editor is None
            && before.delete_confirmation is None && before.file_picker is Some
            ==> after.file_picker is None,
        no_dialog(before) ==> after.should_quit,
{
}

/// While a dialog is open, no key ends the program, changes the mode or the query, or moves the
/// selection among the sounds.
pub proof fn dialogs_keep_the_board(
    before: App,
    key: Key,
    columns: int,
    after: App,
    action: Action,
)
    requires
        key_handled(before, key, columns, after, action),
        !no_dialog(before),
    ensures
        after.should_quit == before.should_quit,
        after.mode == before.mode,
        after.query == before.query,
        after.selected_index == before.selected_index,
        after.playing_path == before.playing_path,
{
}

/// A key leaves the dialogs under the one on top as they are.
pub proof fn dialogs_below_are_kept(
    before: App,
    key: Key,
    columns: int,
    after: App,
    action: Action,
)
    requires
        key_handled(before, key, columns, after, action),
    ensures
        before.audio_setup is Some ==> after.metadata_editor == before.metadata_editor
            && after.delete_confirmation == before.delete_confirmation && after.file_picker
            == before.file_picker,
        before.audio_setup is None && before.metadata_editor is Some ==> after.delete_confirmation
            == before.delete_confirmation && after.file_picker == before.file_picker,
        before.audio_setup is None && before.metadata_editor is None
            && before.delete_confirmation is Some ==> after.file_picker == before.file_picker,
{
}

/// In configuration the selection stays on a sound.
pub proof fn selection_stays_on_a_sound(
    before: App,
    key: Key,
    columns: int,
    after: App,
    action: Action,
)
    requires
        key_handled(before, key, columns, after, action),
        no_dialog(before),
        before.mode == Mode::Configuration,
        before.selected_index < before.sounds@.len(),
        0 <= columns <= usize::MAX,
    ensures
        after.selected_index < after.sounds@.len(),
{
}

/// In quick play the selection stays on a result, or goes to the first place as the query changes.
pub proof fn selection_stays_on_a_result(
    before: App,
    key: Key,
    columns: int,
    after: App,
    action: Action,
)
    requires
        key_handled(before, key, columns, after, action),
        no_dialog(before),
        before.mode == Mode::Use,
        before.selected_index < before.filtered().len(),
    ensures
        after.query == before.query ==> after.selected_index < before.filtered().len(),
        after.query != before.query ==> after.selected_index == 0,
{
}

/// Nothing is ordered to be played without a destination, and what is ordered goes to it.
pub proof fn playing_needs_a_destination(
    before: App,
    key: Key,
    columns: int,
    after: App,
    action: Action,
)
    requires
        key_handled(before, key, columns, after, action),
        action is Play,
    ensures
        before.settings.audio.mix_sink == Some(action->Play_0.mix_sink),
{
}

/// A deletion is ordered only from its confirmation, and of what the confirmation was for.
pub proof fn deletion_needs_confirmation(
    before: App,
    key: Key,
    columns: int,
    after: App,
    action: Action,
)
    requires
        key_handled(before, key, columns, after, action),
        action is DeleteSound,
    ensures
        before.delete_confirmation == Some(action->DeleteSound_confirmation),
        after.delete_confirmation is None,
{
}

/// No key changes which files the sounds are, or their order.
pub proof fn keys_keep_the_files(
    before: App,
    key: Key,
    columns: int,
    after: App,
    action: Action,
)
    requires
        key_handled(before, key, columns, after, action),
    ensures
        library::paths_of(after.sounds@) == library::paths_of(before.sounds@),
{
    assert(library::paths_of(after.sounds@) =~= library::paths_of(before.sounds@));
}

/// A key changes the audio settings only where the setup is open, and then asks for them to be
/// stored.
pub proof fn changed_settings_are_stored(
    before: App,
    key: Key,
    columns: int,
    after: App,
    action: Action,
)
    requires
        key_handled(before, key, columns, after, action),
        after.settings != before.settings,
    ensures
        action is SaveAudio || action is SaveLocalPlayback,
        action is SaveAudio ==> before.audio_setup is Some && action->SaveAudio_previous
            == before.settings.audio,
{
}

/// In the picker each path stays marked once at most, whatever is pressed.
pub proof fn keys_keep_marks_distinct(
    before: App,
    key: Key,
    columns: int,
    after: App,
    action: Action,
)
    requires
        key_handled(before, key, columns, after, action),
        before.file_picker is Some ==> before.file_picker->Some_0.well_formed(),
    ensures
        after.file_picker is Some ==> after.file_picker->Some_0.well_formed(),
{
    if before.file_picker is Some {
        let open = before.file_picker->Some_0;
        let at = open.selected_index as int;
        if at < open.visible().len() {
            picker::toggling_changes_one_mark(open.selected_paths@, open.visible()[at].path);
        }
    }
}

/// In configuration, Enter and the space bar order the sound of the selected pad, and `+` and `-`
/// make it louder and quieter by five.
pub proof fn pads_are_played_and_adjusted(
    state: &mut App,
    key: Key,
    columns: usize,
    action: Action,
)
    requires
        call_ensures(App::handle_key, (state, key, columns), action),
        no_dialog(*old(state)),
        old(state).mode == Mode::Configuration,
        old(state).selected_index < old(state).sounds@.len(),
        old(state).sounds@[old(state).selected_index as int].volume <= 100,
    ensures
        ({
            let sound = old(state).sounds@[old(state).selected_index as int];
            let volume = final(state).sounds@[old(state).selected_index as int].volume;
            &&& (key.code == KeyCode::Enter || key.code == KeyCode::Character(' '))
                && old(state).settings.audio.mix_sink is Some ==> {
                &&& *final(state) == *old(state)
                &&& action is Play
                &&& action->Play_0.path == sound.path
                &&& action->Play_0.volume == sound.volume
                &&& Some(action->Play_0.mix_sink) == old(state).settings.audio.mix_sink
                &&& action->Play_0.local_playback == old(state).settings.local_playback
                &&& action->Play_0.from_pad
            }
            &&& key.code == KeyCode::Character('+') || key.code == KeyCode::Character('=') ==> {
                &&& sound.volume <= 95 ==> volume == sound.volume + 5
                &&& sound.volume > 95 ==> volume == 100
                &&& sound.volume < 100 ==> action is SaveVolume
            }
            &&& key.code == KeyCode::Character('-') ==> {
                &&& sound.volume >= 5 ==> volume == sound.volume - 5
                &&& sound.volume < 5 ==> volume == 0
                &&& sound.volume > 0 ==> action is SaveVolume
            }
        }),
{
}

/// In configuration, each letter asks for its work and changes nothing but what it is for: `m`
/// switches local playback, `A` opens the setup, `s` stops, `r` reloads, `a` opens the picker,
/// Control and `k` go to quick play, `q` and Escape end the program.
pub proof fn letters_ask_for_their_work(
    state: &mut App,
    key: Key,
    columns: usize,
    action: Action,
)
    requires
        call_ensures(App::handle_key, (state, key, columns), action),
        no_dialog(*old(state)),
        old(state).mode == Mode::Configuration,
    ensures
        key.code == KeyCode::Character('m') ==> action is SaveLocalPlayback
            && final(state).settings.local_playback != old(state).settings.local_playback
                && final(state).settings.audio == old(state).settings.audio,
        key.code == KeyCode::Character('A') ==> action is OpenSetup && *final(state) == *old(state),
        key.code == KeyCode::Character('s') ==> action is StopPlayback && *final(state)
            == *old(state),
        key.code == KeyCode::Character('r') ==> action is ReloadSounds && *final(state)
            == *old(state),
        key.code == KeyCode::Character('a') ==> action is OpenPicker && *final(state)
            == *old(state),
        key.code == KeyCode::Character('k') && key.control ==> action is Nothing && *final(state)
            == (App { mode: Mode::Use, ..*old(state) }),
        key.code == KeyCode::Character('k') && !key.control ==> *final(state) == *old(state),
        key.code == KeyCode::Character('q') || key.code == KeyCode::Escape ==> action is Nothing
            && *final(state) == (App { should_quit: true, ..*old(state) }),
        key.code != KeyCode::Character('q') && key.code != KeyCode::Escape
            ==> final(state).should_quit == old(state).should_quit,
{
}

/// In configuration, `d` asks whether the selected sound is to be deleted, and `e` opens its name
/// and its aliases in the editor; where no sound is selected, neither does anything.
pub proof fn the_selected_sound_is_deleted_or_edited(
    state: &mut App,
    key: Key,
    columns: usize,
    action: Action,
)
    requires
        call_ensures(App::handle_key, (state, key, columns), action),
        no_dialog(*old(state)),
        old(state).mode == Mode::Configuration,
        key.code == KeyCode::Character('d') || key.code == KeyCode::Character('e'),
    ensures
        action is Nothing,
        old(state).selected_index >= old(state).sounds@.len() ==> *final(state) == *old(state),
        old(state).selected_index < old(state).sounds@.len() ==> ({
            let sound = old(state).sounds@[old(state).selected_index as int];
            &&& final(state).sounds == old(state).sounds
            &&& key.code == KeyCode::Character('d') ==> {
                &&& final(state).delete_confirmation is Some
                &&& final(state).delete_confirmation->Some_0.path == sound.path
                &&& final(state).delete_confirmation->Some_0.name == sound.name
                &&& final(state).metadata_editor is None
            }
            &&& key.code == KeyCode::Character('e') ==> {
                &&& final(state).metadata_editor is Some
                &&& final(state).metadata_editor->Some_0.sound_index == old(state).selected_index
                &&& final(state).metadata_editor->Some_0.name == sound.name
                &&& final(state).metadata_editor->Some_0.aliases@ == crate::text::joined(
                    crate::text::views(sound.aliases@),
                    ", "@,
                )
                &&& final(state).delete_confirmation is None
            }
        }),
{
}

/// In configuration, the arrows move the selection: by one to the sides, by a row of pads up and
/// down, and no further than the first and the last sound.
pub proof fn arrows_move_among_the_pads(
    state: &mut App,
    key: Key,
    columns: usize,
    action: Action,
)
    requires
        call_ensures(App::handle_key, (state, key, columns), action),
        no_dialog(*old(state)),
        old(state).mode == Mode::Configuration,
        old(state).selected_index < old(state).sounds@.len(),
    ensures
        ({
            let before = old(state).selected_index as int;
            let after = final(state).selected_index as int;
            let last = old(state).sounds@.len() - 1;
            &&& key.code == KeyCode::Right ==> after == if before < last {
                before + 1
            } else {
                last
            }
            &&& key.code == KeyCode::Left ==> after == if before > 0 {
                before - 1
            } else {
                0
            }
            &&& key.code == KeyCode::Down ==> after == if before + columns <= last {
                before + columns
            } else {
                last
            }
            &&& key.code == KeyCode::Up ==> after == if before >= columns {
                before - columns
            } else {
                0
            }
        }),
        (key.code == KeyCode::Right || key.code == KeyCode::Left || key.code == KeyCode::Down
            || key.code == KeyCode::Up) ==> action is Nothing && *final(state) == (App {
            selected_index: final(state).selected_index,
            ..*old(state)
        }),
{
    assert(old(state).sounds.len() == old(state).sounds@.len());
}

/// In quick play, what is typed goes into the query and what is erased leaves it; Enter orders the
/// selected one of the sounds that are found, Escape ends the program, and Control and `k` go to
/// configuration.
pub proof fn quick_play_searches_and_plays(
    state: &mut App,
    key: Key,
    columns: usize,
    action: Action,
    found: Vec<&library::Sound>,
)
    requires
        call_ensures(App::handle_key, (state, key, columns), action),
        call_ensures(App::filtered_sounds, (&*old(state),), found),
        no_dialog(*old(state)),
        old(state).mode == Mode::Use,
    ensures
        (key.code matches KeyCode::Character(c) && !key.control && !key.other) ==> {
            &&& action is Nothing
            &&& final(state).query@ == old(state).query@.push(key.code->Character_0)
            &&& final(state).selected_index == 0
            &&& *final(state) == (App {
                query: final(state).query,
                selected_index: 0,
                ..*old(state)
            })
        },
        key.code == KeyCode::Backspace && old(state).query@.len() > 0 ==> final(state).query@
            == old(state).query@.drop_last() && final(state).selected_index == 0,
        key.code == KeyCode::Backspace && old(state).query@.len() == 0 ==> final(state).query@.len()
            == 0,
        key.code == KeyCode::Enter && old(state).selected_index < found@.len()
            && old(state).settings.audio.mix_sink is Some ==> {
            &&& *final(state) == *old(state)
            &&& action is Play
            &&& action->Play_0.path == found@[old(state).selected_index as int].path
            &&& action->Play_0.volume == found@[old(state).selected_index as int].volume
            &&& Some(action->Play_0.mix_sink) == old(state).settings.audio.mix_sink
            &&& action->Play_0.local_playback == old(state).settings.local_playback
            &&& !action->Play_0.from_pad
        },
        key.code == KeyCode::Enter && old(state).selected_index >= found@.len()
            ==> action is Nothing && *final(state) == *old(state),
        key.code == KeyCode::Escape ==> action is Nothing && *final(state) == (App {
            should_quit: true,
            ..*old(state)
        }),
        key.code == KeyCode::Character('k') && key.control ==> action is Nothing && *final(state)
            == (App { mode: Mode::Configuration, ..*old(state) }),
        key.code != KeyCode::Escape ==> final(state).should_quit == old(state).should_quit,
{
    assert(found@.unref().len() == found@.len());
    if old(state).selected_index < found@.len() {
        assert(found@.unref()[old(state).selected_index as int]
            == *found@[old(state).selected_index as int]);
    }
}

/// In quick play, Down and Control with `n` go to the next of the sounds that are found, Up and
/// Control with `p` to the previous one, and no further than the first and the last.
pub proof fn quick_play_moves_among_the_found(
    state: &mut App,
    key: Key,
    columns: usize,
    action: Action,
    found: Vec<&library::Sound>,
)
    requires
        call_ensures(App::handle_key, (state, key, columns), action),
        call_ensures(App::filtered_sounds, (&*old(state),), found),
        no_dialog(*old(state)),
        old(state).mode == Mode::Use,
        old(state).selected_index < found@.len(),
    ensures
        key.code == KeyCode::Down || (key.code == KeyCode::Character('n') && key.control)
            ==> final(state).selected_index == if old(state).selected_index + 1 < found@.len() {
            old(state).selected_index + 1
        } else {
            old(state).selected_index as int
        },
        key.code == KeyCode::Up || (key.code == KeyCode::Character('p') && key.control)
            ==> final(state).selected_index == if old(state).selected_index > 0 {
            old(state).selected_index - 1
        } else {
            0
        },
        key.code == KeyCode::Down || key.code == KeyCode::Up ==> action is Nothing
            && final(state).query == old(state).query,
{
    assert(found@.unref().len() == found@.len());
    assert(found.len() == found@.len());
}

/// Keys go to what is on top: the setup, then the editor, then the confirmation, then the picker;
/// each of them does with the key what it does by itself.
pub proof fn keys_go_to_what_is_on_top(
    state: &mut App,
    key: Key,
    columns: usize,
    action: Action,
)
    requires
        call_ensures(App::handle_key, (state, key, columns), action),
    ensures
        old(state).audio_setup is Some && key.code == KeyCode::Character('r')
            ==> action is RefreshSetup && *final(state) == *old(state),
        old(state).audio_setup is None && old(state).metadata_editor is Some && key.code
            == KeyCode::Escape ==> final(state).metadata_editor is None
                && final(state).delete_confirmation == old(state).delete_confirmation
                    && final(state).file_picker == old(state).file_picker,
        old(state).audio_setup is None && old(state).metadata_editor is None
            && old(state).delete_confirmation is Some && key.code == KeyCode::Enter ==> action == (
        Action::DeleteSound { confirmation: old(state).delete_confirmation->Some_0 })
            && final(state).delete_confirmation is None,
        old(state).audio_setup is None && old(state).metadata_editor is None
            && old(state).delete_confirmation is None && old(state).file_picker is Some && key.code
            == KeyCode::Escape ==> final(state).file_picker is None && !(action is DeleteSound)
            && final(state).should_quit == old(state).should_quit,
{
}

/// As many pads stand side by side as fit at twenty columns each beside the list and inside the
/// border, and at least one.
pub proof fn pads_fit_the_width(width: u16, columns: usize, beside: usize, screen: usize)
    requires
        call_ensures(pad_columns, (width,), columns),
        width >= 32 ==> call_ensures(pad_columns, ((width - 32) as u16,), beside),
        call_ensures(screen_columns, (width,), screen),
    ensures
        columns >= 1,
        width >= 22 ==> columns * 20 + 2 <= width < (columns + 1) * 20 + 2,
        width < 22 ==> columns == 1,
        width >= 32 ==> screen == beside,
        width < 32 ==> screen == 1,
{
}

/// A key that a mode has no use for changes nothing.
pub proof fn other_keys_do_nothing(state: &mut App, key: Key, columns: usize, action: Action)
    requires
        call_ensures(App::handle_key, (state, key, columns), action),
        no_dialog(*old(state)),
        key.code == KeyCode::Tab || key.code == KeyCode::Other || old(state).mode
            == Mode::Configuration && key.code == KeyCode::Backspace || old(state).mode == Mode::Use
            && (key.code == KeyCode::Left || key.code == KeyCode::Right || key.code is Character
            && !key.control && key.other || key.code == KeyCode::Character('x') && key.control)
            || old(state).mode == Mode::Configuration && (key.code == KeyCode::Character('x')
            || key.code == KeyCode::Character('n') || key.code == KeyCode::Character('p')),
    ensures
        action is Nothing,
        *final(state) == *old(state),
{
}

/// While a dialog is open the key does what it does in that dialog, and nothing of what it would do
/// on the board.
pub proof fn an_open_dialog_takes_the_key(
    state: &mut App,
    key: Key,
    columns: usize,
    action: Action,
)
    requires
        call_ensures(App::handle_key, (state, key, columns), action),
    ensures
        old(state).audio_setup is Some ==> wizard::setup_key(
            *old(state),
            key,
            *final(state),
            action,
        ),
        old(state).audio_setup is None && old(state).metadata_editor is Some ==> dialog::editor_key(
            *old(state),
            key,
            *final(state),
            action,
        ),
        old(state).audio_setup is None && old(state).metadata_editor is None
            && old(state).delete_confirmation is Some ==> dialog::confirmation_key(
            *old(state),
            key,
            *final(state),
            action,
        ),
        old(state).audio_setup is None && old(state).metadata_editor is None
            && old(state).delete_confirmation is None && old(state).file_picker is Some
                ==> dialog::picker_key(
            *old(state),
            key,
            *final(state),
            action,
        ),
{
}

/// Without a destination nothing is played in either mode, and an error says what to do.
pub proof fn playing_without_a_destination_is_an_error(
    state: &mut App,
    key: Key,
    columns: usize,
    action: Action,
    found: Vec<&library::Sound>,
)
    requires
        call_ensures(App::handle_key, (state, key, columns), action),
        call_ensures(App::filtered_sounds, (&*old(state),), found),
        no_dialog(*old(state)),
        key.code == KeyCode::Enter,
        old(state).settings.audio.mix_sink is None,
        old(state).mode == Mode::Use ==> old(state).selected_index < found@.len(),
        old(state).mode == Mode::Configuration
            ==> old(state).selected_index < old(state).sounds@.len(),
    ensures
        action is Nothing,
        final(state).status_message is Some && final(state).status_message->Some_0.is_error,
        final(state).status_message->Some_0.text@
            == "Configure an audio destination before playing."@,
        final(state).playing_path == old(state).playing_path,
{
    assert(found@.unref().len() == found@.len());
}

} // verus!
