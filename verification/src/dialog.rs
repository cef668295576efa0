//! The dialogs over the soundboard: the editor, the confirmation of a deletion, and the picker.

use std::path::PathBuf;

use vstd::prelude::*;

use crate::app;
use crate::app::{Action, App, DeleteConfirmation, MetadataEdit};
use crate::editor;
use crate::editor::{parse_aliases, MetadataEditor};
use crate::failure::Failure;
use crate::key::{Key, KeyCode};
use crate::library::{ImportReport, Sound};
use crate::path;
use crate::path::parent_of;
use crate::picker;
use crate::picker::{clamp_selection, step_selection, DirectoryItem, FilePicker};
use crate::text;
use crate::text::{join, join2, join3, join4, number, trim};

verus! {

/// The state differs in the editor alone, which has another text in its active field.
pub open spec fn types(before: App, after: App, text: Seq<char>) -> bool {
    &&& before.metadata_editor is Some && after.metadata_editor is Some
    &&& editor::edited(before.metadata_editor->Some_0, after.metadata_editor->Some_0, text)
    &&& after == (App { metadata_editor: after.metadata_editor, ..before })
}

/// What the open editor does with a key.
pub open spec fn editor_key(before: App, key: Key, after: App, action: Action) -> bool {
    let active = before.metadata_editor->Some_0.active();
    match key.code {
        KeyCode::Escape => action is Nothing && after == (App {
            metadata_editor: None,
            status_message: None,
            ..before
        }),
        KeyCode::Tab | KeyCode::Up | KeyCode::Down => action is Nothing && after == (App {
            metadata_editor: Some(before.metadata_editor->Some_0.on_other_field()),
            ..before
        }),
        KeyCode::Enter => edit_made(before, after, action),
        KeyCode::Backspace => action is Nothing && types(
            before,
            after,
            if active.len() == 0 {
                active
            } else {
                active.drop_last()
            },
        ),
        KeyCode::Character(c) => action is Nothing && if c == 'u' && key.control {
            types(before, after, Seq::empty())
        } else if key.typed() {
            types(before, after, active.push(c))
        } else {
            after == before
        },
        _ => action is Nothing && after == before,
    }
}

/// The sound has the name and the aliases that the editor holds; the rest of it stays.
pub open spec fn takes_edit(before: Sound, after: Sound, editor: MetadataEditor) -> bool {
    &&& after.name@ == text::trimmed(editor.name@)
    &&& text::views(after.aliases@) == editor::aliases_in(editor.aliases@)
    &&& after == (Sound { name: after.name, aliases: after.aliases, ..before })
}

/// What the editor holds is put into its sound, and is to be stored; a blank name is refused, and
/// so is a sound that is no longer there.
pub open spec fn edit_made(before: App, after: App, action: Action) -> bool {
    match before.metadata_editor {
        Some(editor) => {
            let at = editor.sound_index as int;
            if text::trimmed(editor.name@).len() == 0 {
                action is Nothing && app::shows_error(before, after, "Name cannot be empty."@)
            } else if at >= before.sounds@.len() {
                action is Nothing && app::shows_error(
                    App { metadata_editor: None, ..before },
                    after,
                    "The selected audio is no longer available."@,
                )
            } else {
                &&& after == (App { sounds: after.sounds, ..before })
                &&& after.sounds@ == before.sounds@.update(at, after.sounds@[at])
                &&& takes_edit(before.sounds@[at], after.sounds@[at], editor)
                &&& action is SaveMetadata
                &&& edit_of(action->SaveMetadata_edit, editor.sound_index, before.sounds@[at])
                &&& action->SaveMetadata_edit.name@ == text::trimmed(editor.name@)
            }
        },
        None => after == before && action is Nothing,
    }
}

/// The edit is of this sound, and keeps the name and the aliases that it had.
pub open spec fn edit_of(edit: MetadataEdit, sound_index: usize, sound: Sound) -> bool {
    &&& edit.sound_index == sound_index
    &&& edit.previous_name == sound.name
    &&& edit.previous_aliases == sound.aliases
}

/// What storing an edit leads to: a stored one closes the editor; one that was not stored is
/// undone, and the editor stays open.
pub open spec fn edit_settled(
    before: App,
    after: App,
    edit: MetadataEdit,
    stored: Result<(), Failure>,
    now: u64,
) -> bool {
    match stored {
        Ok(_) => app::shows_status(
            App { metadata_editor: None, ..before },
            after,
            "Updated audio '"@ + edit.name@ + "'."@,
            now,
        ),
        Err(failure) => {
            &&& app::shows_error(
                App { sounds: after.sounds, ..before },
                after,
                "Could not save audio metadata: "@ + failure.message@,
            )
            &&& after.sounds@ == if edit.sound_index < before.sounds@.len() {
                before.sounds@.update(
                    edit.sound_index as int,
                    Sound {
                        name: edit.previous_name,
                        aliases: edit.previous_aliases,
                        ..before.sounds@[edit.sound_index as int]
                    },
                )
            } else {
                before.sounds@
            }
        },
    }
}

/// What the open confirmation does with a key.
pub open spec fn confirmation_key(before: App, key: Key, after: App, action: Action) -> bool {
    match key.code {
        KeyCode::Enter | KeyCode::Character('y') | KeyCode::Character('Y') => deletion_ordered(
            before,
            after,
            action,
        ),
        KeyCode::Escape | KeyCode::Character('n') | KeyCode::Character('N') => action is Nothing
            && after == (App { delete_confirmation: None, ..before }),
        _ => action is Nothing && after == before,
    }
}

/// The confirmation is closed, and what it was for is to be deleted.
pub open spec fn deletion_ordered(before: App, after: App, action: Action) -> bool {
    &&& after == (App { delete_confirmation: None, ..before })
    &&& match before.delete_confirmation {
        Some(confirmation) => action == (Action::DeleteSound { confirmation }),
        None => action is Nothing,
    }
}

/// The state differs in the picker alone.
pub open spec fn picker_changes(before: App, after: App) -> bool {
    &&& before.file_picker is Some && after.file_picker is Some
    &&& after == (App { file_picker: after.file_picker, ..before })
}

/// What the open picker does with a key.
pub open spec fn picker_key(before: App, key: Key, after: App, action: Action) -> bool {
    let old_picker = before.file_picker->Some_0;
    let new_picker = after.file_picker->Some_0;
    let at = old_picker.selected_index as int;
    match key.code {
        KeyCode::Escape => action is Nothing && after == (App { file_picker: None, ..before }),
        KeyCode::Down => action is Nothing && after == (App {
            file_picker: Some(
                FilePicker {
                    selected_index: picker::stepped(at, 1, old_picker.visible().len() as int) as usize,
                    ..old_picker
                },
            ),
            ..before
        }),
        KeyCode::Up => action is Nothing && after == (App {
            file_picker: Some(
                FilePicker {
                    selected_index: (if at == 0 {
                        0
                    } else {
                        at - 1
                    }) as usize,
                    ..old_picker
                },
            ),
            ..before
        }),
        KeyCode::Tab => import_ordered(before, after, action),
        KeyCode::Enter => if key.control {
            import_ordered(before, after, action)
        } else if at < old_picker.visible().len() && old_picker.visible()[at].is_directory {
            after == before && action == (Action::OpenDirectory {
                directory: old_picker.visible()[at].path,
            })
        } else {
            action is Nothing && picker_changes(before, after) && picker::selected_toggled(
                old_picker,
                new_picker,
            )
        },
        KeyCode::Backspace => if old_picker.query@.len() > 0 {
            action is Nothing && picker_changes(before, after) && picker::filtered_by(
                old_picker,
                new_picker,
                old_picker.query@.drop_last(),
            )
        } else {
            after == before && match path::parent_components(
                path::path_bytes(old_picker.directory),
            ) {
                Some(_) => action is OpenDirectory && path::parent_is(
                    path::path_bytes(old_picker.directory),
                    path::path_bytes(action->OpenDirectory_directory),
                ),
                None => action is Nothing,
            }
        },
        KeyCode::Character(c) => action is Nothing && if key.typed() {
            picker_changes(before, after) && picker::filtered_by(
                old_picker,
                new_picker,
                old_picker.query@.push(c),
            )
        } else {
            after == before
        },
        _ => action is Nothing && after == before,
    }
}

/// The marked files are to be imported, in their order; where none is marked, an error is shown.
pub open spec fn import_ordered(before: App, after: App, action: Action) -> bool {
    match before.file_picker {
        Some(open) => if open.selected_paths@.len() > 0 {
            &&& after == before
            &&& action is ImportFiles
            &&& picker::arranged(action->ImportFiles_paths@, open.selected_paths@)
        } else {
            action is Nothing && app::shows_error(before, after, "Select at least one audio file"@)
        },
        None => action is Nothing && app::shows_error(
            before,
            after,
            "Select at least one audio file"@,
        ),
    }
}

/// The message that a finished import shows.
pub open spec fn import_shown(before: App, after: App, report: ImportReport, now: u64) -> bool {
    if report.errors@.len() == 0 {
        app::shows_status(
            before,
            after,
            "Imported "@ + text::decimal(report.imported as nat) + " audio file(s)."@,
            now,
        )
    } else {
        app::shows_error(
            before,
            after,
            "Imported "@ + text::decimal(report.imported as nat) + " file(s); "@ + (text::decimal(
                report.errors@.len() as nat,
            ) + " failed:\n"@ + text::joined(text::views(report.errors@), "\n"@)),
        )
    }
}

impl App {
    /// Takes a key for the open editor.
    pub fn handle_metadata_editor_key(&mut self, key: Key) -> (action: Action)
        requires
            old(self).metadata_editor is Some,
        ensures
            editor_key(*old(self), key, *final(self), action),
    {
        match key.code {
            KeyCode::Escape => {
                self.metadata_editor = None;
                self.status_message = None;
            },
            KeyCode::Enter => {
                return self.save_metadata();
            },
            _ => {
                if let Some(editor) = &mut self.metadata_editor {
                    match key.code {
                        KeyCode::Tab | KeyCode::Up | KeyCode::Down => {
                            editor.toggle_field();
                        },
                        KeyCode::Backspace => {
                            editor.active_value_mut().pop();
                        },
                        KeyCode::Character(c) => {
                            if c == 'u' && key.control {
                                *editor.active_value_mut() = String::new();
                            } else if key.is_typed() {
                                editor.active_value_mut().push(c);
                            }
                        },
                        _ => {},
                    }
                }
            },
        }
        Action::Nothing
    }

    /// Puts what the editor holds into its sound.
    pub fn save_metadata(&mut self) -> (action: Action)
        ensures
            edit_made(*old(self), *final(self), action),
    {
        let (sound_index, name, mut aliases) = match &self.metadata_editor {
            Some(editor) => (
                editor.sound_index,
                trim(&editor.name),
                parse_aliases(&editor.aliases),
            ),
            None => return Action::Nothing,
        };
        if name.as_str().is_empty() {
            self.set_error("Name cannot be empty.".to_owned());
            return Action::Nothing;
        }
        if sound_index >= self.sounds.len() {
            self.metadata_editor = None;
            self.set_error("The selected audio is no longer available.".to_owned());
            return Action::Nothing;
        }
        let mut previous_name = name.clone();
        let sound = &mut self.sounds[sound_index];
        std::mem::swap(&mut sound.name, &mut previous_name);
        std::mem::swap(&mut sound.aliases, &mut aliases);
        Action::SaveMetadata {
            edit: MetadataEdit { sound_index, name, previous_name, previous_aliases: aliases },
        }
    }

    /// Takes what storing an edit gave.
    pub fn metadata_saved(&mut self, edit: MetadataEdit, stored: Result<(), Failure>, now: u64)
        ensures
            edit_settled(*old(self), *final(self), edit, stored, now),
    {
        match stored {
            Ok(_) => {
                self.metadata_editor = None;
                self.set_temporary_status(join3("Updated audio '", &edit.name, "'."), now);
            },
            Err(failure) => {
                if edit.sound_index < self.sounds.len() {
                    let sound = &mut self.sounds[edit.sound_index];
                    sound.name = edit.previous_name;
                    sound.aliases = edit.previous_aliases;
                }
                self.set_error(join2("Could not save audio metadata: ", &failure.message));
            },
        }
    }

    /// Takes a key for the open confirmation.
    pub fn handle_delete_confirmation_key(&mut self, key: Key) -> (action: Action)
        ensures
            confirmation_key(*old(self), key, *final(self), action),
    {
        match key.code {
            KeyCode::Enter | KeyCode::Character('y') | KeyCode::Character('Y') => {
                self.delete_selected_sound()
            },
            KeyCode::Escape | KeyCode::Character('n') | KeyCode::Character('N') => {
                self.delete_confirmation = None;
                Action::Nothing
            },
            _ => Action::Nothing,
        }
    }

    /// Closes the confirmation and orders the deletion.
    pub fn delete_selected_sound(&mut self) -> (action: Action)
        ensures
            deletion_ordered(*old(self), *final(self), action),
    {
        match self.delete_confirmation.take() {
            Some(confirmation) => Action::DeleteSound { confirmation },
            None => Action::Nothing,
        }
    }

    /// Takes what deleting a sound's file gave.
    pub fn sound_deleted(&mut self, confirmation: DeleteConfirmation, result: Result<(), Failure>) -> (action:
        Action)
        ensures
            match result {
                Ok(_) => *final(self) == *old(self) && action == (Action::ReloadDeleted {
                    name: confirmation.name,
                }),
                Err(failure) => action is Nothing && app::shows_error(
                    *old(self),
                    *final(self),
                    "Could not delete '"@ + confirmation.name@ + "': "@ + failure.message@,
                ),
            },
    {
        match result {
            Ok(_) => Action::ReloadDeleted { name: confirmation.name },
            Err(failure) => {
                self.set_error(
                    join4("Could not delete '", &confirmation.name, "': ", &failure.message),
                );
                Action::Nothing
            },
        }
    }

    /// Takes what loading the sounds after a deletion gave. The selection stays where it is, or
    /// goes to the last sound.
    pub fn deleted_reloaded(&mut self, name: String, loaded: Result<Vec<Sound>, Failure>, now: u64)
        ensures
            match loaded {
                Ok(sounds) => app::shows_status(
                    App {
                        sounds,
                        selected_index: picker::clamped(
                            old(self).selected_index as int,
                            sounds@.len() as int,
                        ) as usize,
                        ..*old(self)
                    },
                    *final(self),
                    "Deleted audio '"@ + name@ + "'."@,
                    now,
                ),
                Err(failure) => app::shows_error(
                    *old(self),
                    *final(self),
                    "Deleted '"@ + name@ + "', but could not reload the library: "@
                        + failure.message@,
                ),
            },
    {
        match loaded {
            Ok(sounds) => {
                self.selected_index = clamp_selection(self.selected_index, sounds.len());
                self.sounds = sounds;
                self.set_temporary_status(join3("Deleted audio '", &name, "'."), now);
            },
            Err(failure) => self.set_error(
                join4(
                    "Deleted '",
                    &name,
                    "', but could not reload the library: ",
                    &failure.message,
                ),
            ),
        }
    }

    /// Takes what opening the picker gave.
    pub fn picker_opened(&mut self, opened: Result<FilePicker, Failure>)
        ensures
            match opened {
                Ok(picker) => *final(self) == (App {
                    file_picker: Some(picker),
                    status_message: None,
                    ..*old(self)
                }),
                Err(failure) => app::shows_error(
                    *old(self),
                    *final(self),
                    "Could not open file picker: "@ + failure.message@,
                ),
            },
    {
        match opened {
            Ok(picker) => {
                self.file_picker = Some(picker);
                self.status_message = None;
            },
            Err(failure) => self.set_error(
                join2("Could not open file picker: ", &failure.message),
            ),
        }
    }

    /// Takes a key for the open picker.
    pub fn handle_file_picker_key(&mut self, key: Key) -> (action: Action)
        requires
            old(self).file_picker is Some,
        ensures
            picker_key(*old(self), key, *final(self), action),
    {
        match key.code {
            KeyCode::Escape => {
                self.file_picker = None;
                return Action::Nothing;
            },
            KeyCode::Tab => {
                return self.import_selected_files();
            },
            KeyCode::Enter => {
                if key.control {
                    return self.import_selected_files();
                }
            },
            _ => {},
        }
        if let Some(picker) = &mut self.file_picker {
            match key.code {
                KeyCode::Down => {
                    let count = picker.visible_entry_count();
                    picker.selected_index = step_selection(picker.selected_index, 1, count);
                },
                KeyCode::Up => {
                    picker.selected_index = picker.selected_index.saturating_sub(1);
                },
                KeyCode::Enter => {
                    if let Some(entry) = picker.selected_entry() {
                        if entry.is_directory {
                            return Action::OpenDirectory { directory: entry.path.clone() };
                        }
                    }
                    picker.toggle_selected_file();
                },
                KeyCode::Backspace => {
                    if picker.pop_query() {
                        return Action::Nothing;
                    }
                    if let Some(directory) = parent_of(&picker.directory) {
                        return Action::OpenDirectory { directory };
                    }
                },
                KeyCode::Character(c) => {
                    if key.is_typed() {
                        picker.push_query(c);
                    }
                },
                _ => {},
            }
        }
        Action::Nothing
    }

    /// Takes what listing a directory gave: the picker goes there; where it cannot be listed, the
    /// picker's own directory is to be listed again.
    pub fn directory_opened(
        &mut self,
        directory: PathBuf,
        listing: Result<Vec<DirectoryItem>, Failure>,
    ) -> (action: Action)
        ensures
            match old(self).file_picker {
                Some(open) => match listing {
                    Ok(items) => action is Nothing && picker_changes(*old(self), *final(self))
                        && picker::moved_to(
                        open,
                        final(self).file_picker->Some_0,
                        directory,
                        items@,
                    ),
                    Err(failure) => action == (Action::ReopenDirectory { failure })
                        && *final(self) == (App {
                        file_picker: Some(FilePicker { selected_index: 0, ..open }),
                        ..*old(self)
                    }),
                },
                None => action is Nothing && *final(self) == *old(self),
            },
    {
        if let Some(picker) = &mut self.file_picker {
            if let Err(failure) = picker.change_directory(directory, listing) {
                return Action::ReopenDirectory { failure };
            }
        }
        Action::Nothing
    }

    /// Takes what listing the picker's own directory gave after another could not be listed; the
    /// failure is shown: that of the other directory, or that of its own if it failed too.
    pub fn directory_reopened(
        &mut self,
        failure: Failure,
        listing: Result<Vec<DirectoryItem>, Failure>,
    )
        ensures
            match old(self).file_picker {
                Some(open) => {
                    &&& final(self).file_picker is Some
                    &&& app::shows_error(
                        App { file_picker: final(self).file_picker, ..*old(self) },
                        *final(self),
                        "Could not open directory: "@ + match listing {
                            Ok(_) => failure.message@,
                            Err(second) => second.message@,
                        },
                    )
                    &&& match listing {
                        Ok(items) => picker::refreshed(
                            open,
                            final(self).file_picker->Some_0,
                            items@,
                        ),
                        Err(_) => final(self).file_picker == old(self).file_picker,
                    }
                },
                None => *final(self) == *old(self),
            },
    {
        let reported = match &mut self.file_picker {
            Some(picker) => picker.stay(failure, listing),
            None => return ,
        };
        self.set_error(join2("Could not open directory: ", &reported.message));
    }

    /// Orders the import of the marked files.
    pub fn import_selected_files(&mut self) -> (action: Action)
        ensures
            import_ordered(*old(self), *final(self), action),
    {
        if let Some(picker) = &self.file_picker {
            if picker.selected_paths.len() > 0 {
                return Action::ImportFiles { paths: picker.marked_files() };
            }
        }
        self.set_error("Select at least one audio file".to_owned());
        Action::Nothing
    }

    fn report_import(&mut self, report: &ImportReport, now: u64)
        ensures
            import_shown(*old(self), *final(self), *report, now),
    {
        let imported = number(report.imported as u128);
        if report.errors.len() == 0 {
            self.set_temporary_status(join3("Imported ", &imported, " audio file(s)."), now);
        } else {
            let failed = number(report.errors.len() as u128);
            let details = join(&report.errors, "\n");
            let rest = join3(&failed, " failed:\n", &details);
            self.set_error(join4("Imported ", &imported, " file(s); ", &rest));
        }
    }

    /// Takes what an import gave. Where files were imported, the sounds are to be loaded before
    /// the import is reported.
    pub fn files_imported(&mut self, imported: Result<ImportReport, Failure>, now: u64) -> (action:
        Action)
        ensures
            match imported {
                Ok(report) => if report.imported > 0 {
                    &&& *final(self) == (App { file_picker: None, ..*old(self) })
                    &&& action == (Action::ReloadImported { report })
                } else {
                    &&& action is Nothing
                    &&& import_shown(
                        App { file_picker: None, ..*old(self) },
                        *final(self),
                        report,
                        now,
                    )
                },
                Err(failure) => action is Nothing && app::shows_error(
                    *old(self),
                    *final(self),
                    "Could not access the managed library: "@ + failure.message@,
                ),
            },
    {
        let report = match imported {
            Ok(report) => report,
            Err(failure) => {
                self.set_error(
                    join2("Could not access the managed library: ", &failure.message),
                );
                return Action::Nothing;
            },
        };
        self.file_picker = None;
        if report.imported > 0 {
            return Action::ReloadImported { report };
        }
        self.report_import(&report, now);
        Action::Nothing
    }

    /// Takes what loading the sounds after an import gave.
    pub fn import_reloaded(
        &mut self,
        report: ImportReport,
        loaded: Result<Vec<Sound>, Failure>,
        now: u64,
    )
        ensures
            match loaded {
                Ok(sounds) => import_shown(
                    App { sounds, selected_index: 0, ..*old(self) },
                    *final(self),
                    report,
                    now,
                ),
                Err(failure) => app::shows_error(
                    *old(self),
                    *final(self),
                    "Imported "@ + text::decimal(report.imported as nat)
                        + " file(s), but could not reload the library: "@ + failure.message@,
                ),
            },
    {
        match self.sounds_reloaded(loaded) {
            Ok(_) => self.report_import(&report, now),
            Err(failure) => self.set_error(
                join4(
                    "Imported ",
                    &number(report.imported as u128),
                    " file(s), but could not reload the library: ",
                    &failure.message,
                ),
            ),
        }
    }
}

/// An edit that could not be stored leaves the sounds as they were.
pub proof fn failed_edit_is_undone(
    before: App,
    edited: App,
    after: App,
    action: Action,
    failure: Failure,
    now: u64,
)
    requires
        edit_made(before, edited, action),
        action is SaveMetadata,
        edit_settled(edited, after, action->SaveMetadata_edit, Err(failure), now),
    ensures
        after.sounds@ == before.sounds@,
        after.metadata_editor == before.metadata_editor,
        after == (App {
            sounds: after.sounds,
            status_message: after.status_message,
            ..before
        }),
{
    assert(after.sounds@ =~= before.sounds@);
}

/// What was entered is left again: in a directory that stands under a name in another one, Backspace
/// without a filter goes to that other one.
pub proof fn backspace_leaves_a_directory(
    above: Seq<u8>,
    name: Seq<u8>,
    before: App,
    key: Key,
    after: App,
    action: Action,
)
    requires
        before.file_picker is Some,
        before.file_picker->Some_0.query@.len() == 0,
        path::is_piece(name),
        path::path_bytes(before.file_picker->Some_0.directory) == path::path_joined(above, name),
        key.code == KeyCode::Backspace,
        picker_key(before, key, after, action),
    ensures
        action is OpenDirectory,
        path::same_components(path::path_bytes(action->OpenDirectory_directory), above),
{
    path::joined_piece_is_last(above, name);
}

/// What is typed into the editor goes to the end of the active field, Backspace takes it off again,
/// and Control with `u` empties the field; the other field and the sounds stay as they are.
pub proof fn typing_edits_the_active_field(
    typing: &mut App,
    key: Key,
    action: Action,
    erasing: &mut App,
    back: Key,
    erased: Action,
    clearing: &mut App,
    clear: Key,
    cleared: Action,
)
    requires
        old(typing).metadata_editor is Some,
        key.code is Character && !key.control && !key.other,
        call_ensures(App::handle_metadata_editor_key, (typing, key), action),
        *old(erasing) == *final(typing),
        back.code == KeyCode::Backspace,
        call_ensures(App::handle_metadata_editor_key, (erasing, back), erased),
        *old(clearing) == *final(typing),
        clear.code == KeyCode::Character('u') && clear.control,
        call_ensures(App::handle_metadata_editor_key, (clearing, clear), cleared),
    ensures
        action is Nothing && erased is Nothing && cleared is Nothing,
        final(typing).metadata_editor is Some && final(erasing).metadata_editor is Some
            && final(clearing).metadata_editor is Some,
        ({
            let before = old(typing).metadata_editor->Some_0;
            let typed = final(typing).metadata_editor->Some_0;
            let without = final(erasing).metadata_editor->Some_0;
            let empty = final(clearing).metadata_editor->Some_0;
            &&& before.field == editor::MetadataField::Name ==> typed.name@ == before.name@.push(
                key.code->Character_0,
            ) && typed.aliases == before.aliases && without.name@ == before.name@
                && empty.name@.len() == 0
            &&& before.field == editor::MetadataField::Aliases ==> typed.aliases@
                == before.aliases@.push(key.code->Character_0) && typed.name == before.name
                && without.aliases@ == before.aliases@ && empty.aliases@.len() == 0
            &&& typed.field == before.field && typed.sound_index == before.sound_index
        }),
        final(typing).sounds == old(typing).sounds,
{
    let before = old(typing).metadata_editor->Some_0;
    assert(before.active().push(key.code->Character_0).drop_last() =~= before.active());
}

/// In the editor, Tab and the arrows up and down go to the other field, and Escape closes it without
/// a change to the sounds.
pub proof fn the_editor_is_left_unsaved(state: &mut App, key: Key, action: Action)
    requires
        old(state).metadata_editor is Some,
        call_ensures(App::handle_metadata_editor_key, (state, key), action),
    ensures
        key.code == KeyCode::Escape ==> action is Nothing && final(state).metadata_editor is None
            && final(state).sounds == old(state).sounds,
        key.code == KeyCode::Tab || key.code == KeyCode::Up || key.code == KeyCode::Down ==> {
            &&& action is Nothing
            &&& final(state).metadata_editor is Some
            &&& final(state).metadata_editor->Some_0.field
                != old(state).metadata_editor->Some_0.field
            &&& final(state).metadata_editor->Some_0.name
                == old(state).metadata_editor->Some_0.name
            &&& final(state).metadata_editor->Some_0.aliases
                == old(state).metadata_editor->Some_0.aliases
        },
        key.code != KeyCode::Enter ==> final(state).sounds == old(state).sounds,
{
}

/// Enter in the editor gives the sound the name, trimmed, and the aliases that were typed, and asks
/// to store them; its file and its volume and every other sound stay. A blank name is refused. Once
/// stored, the editor closes; where it could not be stored, the sound is as before.
pub proof fn an_edit_is_made_and_stored(
    state: &mut App,
    key: Key,
    action: Action,
    texts: (&str, &str),
    name: String,
    aliases: Vec<String>,
    stored: &mut App,
    now: u64,
    failing: &mut App,
    failure: Failure,
    other: int,
)
    requires
        old(state).metadata_editor is Some,
        key.code == KeyCode::Enter,
        call_ensures(App::handle_metadata_editor_key, (state, key), action),
        texts.0@ == old(state).metadata_editor->Some_0.name@,
        texts.1@ == old(state).metadata_editor->Some_0.aliases@,
        call_ensures(trim, (texts.0,), name),
        call_ensures(parse_aliases, (texts.1,), aliases),
        old(state).metadata_editor->Some_0.sound_index < old(state).sounds@.len(),
        *old(stored) == *final(state),
        *old(failing) == *final(state),
        action is SaveMetadata ==> call_ensures(
            App::metadata_saved,
            (stored, action->SaveMetadata_edit, Ok(()), now),
            (),
        ),
        action is SaveMetadata ==> call_ensures(
            App::metadata_saved,
            (failing, action->SaveMetadata_edit, Err(failure), now),
            (),
        ),
        0 <= other < old(state).sounds@.len(),
        other != old(state).metadata_editor->Some_0.sound_index,
    ensures
        name@.len() == 0 ==> action is Nothing && final(state).sounds == old(state).sounds
            && final(state).metadata_editor == old(state).metadata_editor
                && final(state).status_message is Some
            && final(state).status_message->Some_0.is_error,
        name@.len() > 0 ==> ({
            let at = old(state).metadata_editor->Some_0.sound_index as int;
            &&& action is SaveMetadata
            &&& final(state).sounds@.len() == old(state).sounds@.len()
            &&& final(state).sounds@[at].name@ == name@
            &&& text::views(final(state).sounds@[at].aliases@) == text::views(aliases@)
            &&& final(state).sounds@[at].path == old(state).sounds@[at].path
            &&& final(state).sounds@[at].volume == old(state).sounds@[at].volume
            &&& final(state).sounds@[other] == old(state).sounds@[other]
            &&& final(stored).metadata_editor is None
            &&& final(stored).sounds == final(state).sounds
            &&& final(stored).status_message is Some
                && !final(stored).status_message->Some_0.is_error
            &&& final(stored).status_message->Some_0.text@ == "Updated audio '"@ + name@ + "'."@
            &&& final(failing).sounds@ == old(state).sounds@
            &&& final(failing).metadata_editor == old(state).metadata_editor
            &&& final(failing).status_message is Some
                && final(failing).status_message->Some_0.is_error
            &&& final(failing).status_message->Some_0.text@ == "Could not save audio metadata: "@
                + failure.message@
        }),
{
    if name@.len() > 0 {
        assert(final(failing).sounds@ =~= old(state).sounds@);
    }
}

/// A deletion is ordered by Enter or `y` and only then, of what was asked about; Escape and `n`
/// close the question, and any other key leaves it.
pub proof fn a_deletion_is_confirmed_or_not(state: &mut App, key: Key, action: Action)
    requires
        old(state).delete_confirmation is Some,
        call_ensures(App::handle_delete_confirmation_key, (state, key), action),
    ensures
        ({
            let confirms = key.code == KeyCode::Enter || key.code == KeyCode::Character('y')
                || key.code == KeyCode::Character('Y');
            let declines = key.code == KeyCode::Escape || key.code == KeyCode::Character('n')
                || key.code == KeyCode::Character('N');
            &&& confirms ==> action == (Action::DeleteSound {
                confirmation: old(state).delete_confirmation->Some_0,
            })
            &&& !confirms ==> action is Nothing
            &&& confirms || declines ==> *final(state) == (App {
                delete_confirmation: None,
                ..*old(state)
            })
            &&& !confirms && !declines ==> *final(state) == *old(state)
        }),
{
}

/// After a file was deleted the sounds are loaded again, and the selection stays on a sound; where
/// it could not be deleted, or the sounds not be loaded, an error names it and the sounds stay.
pub proof fn a_deleted_sound_is_gone(
    deleting: &mut App,
    confirmation: DeleteConfirmation,
    ordered: Action,
    failing: &mut App,
    failure: Failure,
    refused: Action,
    reloading: &mut App,
    name: String,
    sounds: Vec<Sound>,
    now: u64,
    unloaded: &mut App,
)
    requires
        call_ensures(App::sound_deleted, (deleting, confirmation, Ok(())), ordered),
        call_ensures(App::sound_deleted, (failing, confirmation, Err(failure)), refused),
        call_ensures(App::deleted_reloaded, (reloading, name, Ok(sounds), now), ()),
        call_ensures(App::deleted_reloaded, (unloaded, name, Err(failure), now), ()),
    ensures
        ordered == (Action::ReloadDeleted { name: confirmation.name }),
        *final(deleting) == *old(deleting),
        refused is Nothing,
        final(failing).sounds == old(failing).sounds,
        final(failing).status_message is Some && final(failing).status_message->Some_0.is_error,
        final(failing).status_message->Some_0.text@ == "Could not delete '"@ + confirmation.name@
            + "': "@ + failure.message@,
        final(reloading).sounds == sounds,
        sounds@.len() > 0 ==> final(reloading).selected_index < sounds@.len(),
        old(reloading).selected_index < sounds@.len() ==> final(reloading).selected_index
            == old(reloading).selected_index,
        0 < sounds@.len() <= old(reloading).selected_index ==> final(reloading).selected_index
            == sounds@.len() - 1,
        final(reloading).status_message is Some
            && !final(reloading).status_message->Some_0.is_error,
        final(reloading).status_message->Some_0.text@ == "Deleted audio '"@ + name@ + "'."@,
        final(unloaded).sounds == old(unloaded).sounds,
        final(unloaded).status_message is Some && final(unloaded).status_message->Some_0.is_error,
        final(unloaded).status_message->Some_0.text@ == "Deleted '"@ + name@
            + "', but could not reload the library: "@ + failure.message@,
{
    assert(sounds.len() == sounds@.len());
}

/// The picker opens over what is shown, or an error tells why not.
pub proof fn the_picker_opens_or_tells_why_not(
    opening: &mut App,
    picker: FilePicker,
    failing: &mut App,
    failure: Failure,
)
    requires
        call_ensures(App::picker_opened, (opening, Ok(picker)), ()),
        call_ensures(App::picker_opened, (failing, Err(failure)), ()),
    ensures
        *final(opening) == (App {
            file_picker: Some(picker),
            status_message: None,
            ..*old(opening)
        }),
        final(failing).file_picker == old(failing).file_picker,
        final(failing).status_message is Some && final(failing).status_message->Some_0.is_error,
        final(failing).status_message->Some_0.text@ == "Could not open file picker: "@
            + failure.message@,
{
}

/// In the picker, Enter on a directory goes there and on a file puts or takes its mark, Tab and
/// Control with Enter order the import of the marked files, and Escape closes it. Without a mark
/// there is nothing to import, which is an error.
pub proof fn the_picker_marks_and_imports(
    state: &mut App,
    key: Key,
    action: Action,
    entry: Option<&picker::FileEntry>,
    path: PathBuf,
)
    requires
        old(state).file_picker is Some,
        old(state).file_picker->Some_0.well_formed(),
        call_ensures(App::handle_file_picker_key, (state, key), action),
        call_ensures(
            FilePicker::selected_entry,
            (&old(state).file_picker->Some_0,),
            entry,
        ),
    ensures
        ({
            let open = old(state).file_picker->Some_0;
            let imports = key.code == KeyCode::Tab || key.code == KeyCode::Enter && key.control;
            &&& key.code == KeyCode::Escape ==> action is Nothing && *final(state) == (App {
                file_picker: None,
                ..*old(state)
            })
            &&& imports && open.selected_paths@.len() > 0 ==> {
                &&& action is ImportFiles
                &&& action->ImportFiles_paths@.to_multiset() == open.selected_paths@.to_multiset()
                &&& *final(state) == *old(state)
            }
            &&& imports && open.selected_paths@.len() == 0 ==> {
                &&& action is Nothing
                &&& final(state).status_message is Some
                    && final(state).status_message->Some_0.is_error
                &&& final(state).status_message->Some_0.text@ == "Select at least one audio file"@
                &&& final(state).file_picker == old(state).file_picker
            }
            &&& key.code == KeyCode::Enter && !key.control && entry is Some
                && entry->Some_0.is_directory ==> {
                &&& action == (Action::OpenDirectory { directory: entry->Some_0.path })
                &&& *final(state) == *old(state)
            }
            &&& key.code == KeyCode::Enter && !key.control && entry is Some
                && !entry->Some_0.is_directory ==> {
                &&& action is Nothing
                &&& final(state).file_picker is Some
                &&& picker::is_marked(
                    final(state).file_picker->Some_0.selected_paths@,
                    entry->Some_0.path,
                ) != picker::is_marked(open.selected_paths@, entry->Some_0.path)
                &&& !path::same_components(
                    path::path_bytes(path),
                    path::path_bytes(entry->Some_0.path),
                ) ==> picker::is_marked(
                    final(state).file_picker->Some_0.selected_paths@,
                    path,
                ) == picker::is_marked(open.selected_paths@, path)
            }
        }),
{
    if entry is Some {
        picker::toggling_changes_one_mark(
            old(state).file_picker->Some_0.selected_paths@,
            entry->Some_0.path,
        );
    }
}

/// In the picker, the arrows move among the visible entries, what is typed narrows them, and
/// Backspace takes the last character off the filter before it leaves the directory.
pub proof fn the_picker_moves_and_filters(
    state: &mut App,
    key: Key,
    action: Action,
    count: usize,
)
    requires
        old(state).file_picker is Some,
        call_ensures(App::handle_file_picker_key, (state, key), action),
        call_ensures(
            FilePicker::visible_entry_count,
            (&old(state).file_picker->Some_0,),
            count,
        ),
        old(state).file_picker->Some_0.selected_index < count,
    ensures
        ({
            let before = old(state).file_picker->Some_0;
            let after = final(state).file_picker->Some_0;
            &&& key.code == KeyCode::Down ==> action is Nothing && after.selected_index == (
            if before.selected_index + 1 < count {
                before.selected_index + 1
            } else {
                before.selected_index as int
            }) && after.query == before.query && after.selected_paths == before.selected_paths
            &&& key.code == KeyCode::Up ==> action is Nothing && after.selected_index == (
            if before.selected_index > 0 {
                before.selected_index - 1
            } else {
                0
            }) && after.query == before.query && after.selected_paths == before.selected_paths
            &&& key.code is Character && !key.control && !key.other ==> action is Nothing
                && after.query@ == before.query@.push(key.code->Character_0)
                && after.selected_index == 0 && after.selected_paths == before.selected_paths
            &&& key.code == KeyCode::Backspace && before.query@.len() > 0 ==> action is Nothing
                && after.query@ == before.query@.drop_last() && after.selected_paths
                == before.selected_paths
            &&& key.code != KeyCode::Escape ==> final(state).file_picker is Some
        }),
{
}

/// A listed directory is entered; one that cannot be listed is reported, and the picker's own
/// directory is listed again. The marks are kept either way.
pub proof fn a_directory_is_entered_or_reported(
    entering: &mut App,
    directory: PathBuf,
    items: Vec<DirectoryItem>,
    entered: Action,
    refusing: &mut App,
    failure: Failure,
    refused: Action,
    returning: &mut App,
    listing: Result<Vec<DirectoryItem>, Failure>,
)
    requires
        old(entering).file_picker is Some,
        call_ensures(App::directory_opened, (entering, directory, Ok(items)), entered),
        old(refusing).file_picker is Some,
        call_ensures(App::directory_opened, (refusing, directory, Err(failure)), refused),
        old(returning).file_picker is Some,
        call_ensures(App::directory_reopened, (returning, failure, listing), ()),
    ensures
        entered is Nothing,
        final(entering).file_picker is Some,
        final(entering).file_picker->Some_0.directory == directory,
        final(entering).file_picker->Some_0.query@.len() == 0,
        final(entering).file_picker->Some_0.selected_paths
            == old(entering).file_picker->Some_0.selected_paths,
        refused == (Action::ReopenDirectory { failure }),
        final(refusing).file_picker is Some,
        final(refusing).file_picker->Some_0.directory
            == old(refusing).file_picker->Some_0.directory,
        final(refusing).file_picker->Some_0.selected_paths
            == old(refusing).file_picker->Some_0.selected_paths,
        final(returning).file_picker is Some,
        final(returning).file_picker->Some_0.selected_paths
            == old(returning).file_picker->Some_0.selected_paths,
        final(returning).status_message is Some
            && final(returning).status_message->Some_0.is_error,
        listing is Ok ==> final(returning).status_message->Some_0.text@
            == "Could not open directory: "@ + failure.message@,
        listing matches Err(second) ==> final(returning).status_message->Some_0.text@
            == "Could not open directory: "@ + second.message@,
{
}

/// An import closes the picker. Where anything was imported the sounds are loaded again before it is
/// told how many files were imported; what failed is told as an error, file by file.
pub proof fn an_import_is_told(
    state: &mut App,
    report: ImportReport,
    now: u64,
    action: Action,
    reloading: &mut App,
    sounds: Vec<Sound>,
    failing: &mut App,
    failure: Failure,
    refused: Action,
    unloaded: &mut App,
    digits: String,
    details: String,
    between: &str,
)
    requires
        call_ensures(App::files_imported, (state, Ok(report), now), action),
        call_ensures(App::import_reloaded, (reloading, report, Ok(sounds), now), ()),
        call_ensures(App::files_imported, (failing, Err(failure), now), refused),
        call_ensures(App::import_reloaded, (unloaded, report, Err(failure), now), ()),
        call_ensures(number, (report.imported as u128,), digits),
        between@ == seq!['\n'],
        call_ensures(join, (&report.errors, between), details),
    ensures
        final(state).file_picker is None,
        report.imported > 0 ==> action == (Action::ReloadImported { report }),
        report.imported == 0 ==> action is Nothing && final(state).status_message is Some,
        final(reloading).sounds == sounds && final(reloading).selected_index == 0,
        final(reloading).status_message is Some,
        final(reloading).status_message->Some_0.is_error <==> report.errors@.len() > 0,
        report.errors@.len() == 0 ==> final(reloading).status_message->Some_0.text@ == "Imported "@
            + digits@ + " audio file(s)."@,
        report.errors@.len() > 0 ==> details@.is_suffix_of(
            final(reloading).status_message->Some_0.text@,
        ) && ("Imported "@ + digits@ + " file(s); "@).is_prefix_of(
            final(reloading).status_message->Some_0.text@,
        ),
        refused is Nothing,
        final(failing).file_picker == old(failing).file_picker,
        final(failing).status_message is Some && final(failing).status_message->Some_0.is_error,
        final(failing).status_message->Some_0.text@ == "Could not access the managed library: "@
            + failure.message@,
        final(unloaded).sounds == old(unloaded).sounds,
        final(unloaded).status_message is Some && final(unloaded).status_message->Some_0.is_error,
        final(unloaded).status_message->Some_0.text@ == "Imported "@ + digits@
            + " file(s), but could not reload the library: "@ + failure.message@,
{
    reveal_strlit("\n");
    assert("\n"@ =~= seq!['\n']);
    if report.errors@.len() > 0 {
        let text = final(reloading).status_message->Some_0.text@;
        let lead = "Imported "@ + digits@ + " file(s); "@;
        assert(text.subrange(0, lead.len() as int) =~= lead);
        assert(text.subrange(text.len() - details@.len(), text.len() as int) =~= details@);
    }
}

/// A key that a dialog has no use for changes nothing.
pub proof fn other_keys_do_nothing_in_a_dialog(
    editing: &mut App,
    picking: &mut App,
    key: Key,
    actions: (Action, Action),
)
    requires
        old(editing).metadata_editor is Some,
        call_ensures(App::handle_metadata_editor_key, (editing, key), actions.0),
        old(picking).file_picker is Some,
        call_ensures(App::handle_file_picker_key, (picking, key), actions.1),
        key.code == KeyCode::Left || key.code == KeyCode::Right || key.code == KeyCode::Other
            || key.code is Character && key.other && key.code != KeyCode::Character('u'),
    ensures
        *final(editing) == *old(editing) && actions.0 is Nothing,
        *final(picking) == *old(picking) && actions.1 is Nothing,
{
}

/// An edit of a sound that is no longer there closes the editor with an error.
pub proof fn an_edit_needs_its_sound(
    state: &mut App,
    key: Key,
    action: Action,
    typed: &str,
    name: String,
)
    requires
        old(state).metadata_editor is Some,
        key.code == KeyCode::Enter,
        typed@ == old(state).metadata_editor->Some_0.name@,
        call_ensures(trim, (typed,), name),
        name@.len() > 0,
        old(state).metadata_editor->Some_0.sound_index >= old(state).sounds@.len(),
        call_ensures(App::handle_metadata_editor_key, (state, key), action),
    ensures
        action is Nothing,
        final(state).metadata_editor is None,
        final(state).sounds == old(state).sounds,
        final(state).status_message is Some && final(state).status_message->Some_0.is_error,
        final(state).status_message->Some_0.text@ == "The selected audio is no longer available."@,
{
}

} // verus!
