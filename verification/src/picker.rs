//! The picker for files to import.

use std::path::PathBuf;

use vstd::prelude::*;

use crate::failure::Failure;
use crate::library;
use crate::library::is_supported_audio;
use crate::order;
use crate::order::{sort, Keyed};
use crate::path;
use crate::path::{bytes_of, name_of, same_path, sort_paths};
use crate::text;
use crate::text::{characters, contains, decode_lossy, to_lowercase};

verus! {

/// What stands in a directory.
pub struct DirectoryItem {
    pub path: PathBuf,
    pub is_directory: bool,
    pub is_file: bool,
}

/// A directory or a file that can be imported.
pub struct FileEntry {
    pub path: PathBuf,
    pub is_directory: bool,
}

impl Keyed for FileEntry {
    /// Directories come before files; among themselves they go by the bytes of their names, and
    /// what has no name comes first.
    open spec fn key(&self) -> Seq<u8> {
        (if self.is_directory {
            seq![0u8]
        } else {
            seq![1u8]
        }) + (match path::name_in(path::path_bytes(self.path)) {
            Some(name) => seq![1u8] + name,
            None => seq![0u8],
        })
    }

    fn key_bytes(&self) -> (bytes: Vec<u8>) {
        let mut bytes: Vec<u8> = Vec::new();
        bytes.push(
            if self.is_directory {
                0
            } else {
                1
            },
        );
        match name_of(&self.path) {
            Some(name) => {
                bytes.push(1);
                let mut rest = bytes_of(&name);
                bytes.append(&mut rest);
            },
            None => {
                bytes.push(0);
            },
        }
        assert(bytes@ =~= self.key());
        bytes
    }
}

/// The file name of a path, with what is no UTF-8 replaced.
pub open spec fn shown_name(path: PathBuf) -> Option<Seq<char>> {
    match path::name_in(path::path_bytes(path)) {
        Some(name) => Some(text::lossy_text(name)),
        None => None,
    }
}

/// The text begins with a dot.
pub open spec fn dotted(text: Seq<char>) -> bool {
    text.len() > 0 && text[0] == '.'
}

/// The name is shown for the query: hidden names only for a query that begins with a dot too, and
/// otherwise each name in which the query occurs, in upper or lower case.
pub open spec fn name_matches(name: Seq<char>, query: Seq<char>) -> bool {
    shown_for(name, query, text::lowercase(name), text::lowercase(query))
}

/// The name is shown for the query, both given in lower case too.
pub open spec fn shown_for(
    name: Seq<char>,
    query: Seq<char>,
    lower_name: Seq<char>,
    lower_query: Seq<char>,
) -> bool {
    &&& !dotted(name) || dotted(query)
    &&& query.len() == 0 || text::occurs_in(lower_query, lower_name)
}

/// The path is shown for the query.
pub open spec fn path_matches(path: PathBuf, query: Seq<char>) -> bool {
    match shown_name(path) {
        Some(name) => name_matches(name, query),
        None => false,
    }
}

fn begins_with_dot(text: &str) -> (dot: bool)
    ensures
        dot == dotted(text@),
{
    let chars = characters(text);
    chars.len() > 0 && chars[0] == '.'
}

/// Whether a name is shown for the query.
pub fn file_name_matches(name: &str, query: &str) -> (matches: bool)
    ensures
        matches == name_matches(name@, query@),
{
    is_shown_for(name, query, &to_lowercase(name), &to_lowercase(query))
}

/// Whether a name is shown for the query, both given in lower case too.
pub fn is_shown_for(name: &str, query: &str, lower_name: &str, lower_query: &str) -> (shown: bool)
    ensures
        shown == shown_for(name@, query@, lower_name@, lower_query@),
{
    if begins_with_dot(name) && !begins_with_dot(query) {
        return false;
    }
    query.is_empty() || contains(lower_name, lower_query)
}

/// The file name of a path, with what is no UTF-8 replaced.
pub fn display_name(path: &PathBuf) -> (name: Option<String>)
    ensures
        path::optional_text(name) == shown_name(*path),
{
    match name_of(path) {
        Some(name) => Some(decode_lossy(bytes_of(&name).as_slice())),
        None => None,
    }
}

/// Whether an entry is shown for the query.
pub fn file_entry_matches(entry: &FileEntry, query: &str) -> (matches: bool)
    ensures
        matches == path_matches(entry.path, query@),
{
    match display_name(&entry.path) {
        Some(name) => file_name_matches(&name, query),
        None => false,
    }
}

/// The entry that an item of a directory makes: directories and supported audio files do.
pub open spec fn entry_for(item: DirectoryItem) -> Option<FileEntry> {
    if item.is_directory || (item.is_file && library::supported(item.path)) {
        Some(FileEntry { path: item.path, is_directory: item.is_directory })
    } else {
        None
    }
}

/// The entries of a directory: those that its items make, directories first, by name.
pub open spec fn lists(entries: Seq<FileEntry>, items: Seq<DirectoryItem>) -> bool {
    order::stably_sorted(items.filter_map(|item: DirectoryItem| entry_for(item)), entries)
}

/// The entries of a directory.
pub fn list_entries(items: Vec<DirectoryItem>) -> (entries: Vec<FileEntry>)
    ensures
        lists(entries@, items@),
{
    let ghost to_entry = |item: DirectoryItem| entry_for(item);
    let mut entries: Vec<FileEntry> = Vec::new();
    let mut i: usize = 0;
    assert(items@.take(0) == Seq::<DirectoryItem>::empty());
    assert(entries@ =~= items@.take(0).filter_map(to_entry));
    while i < items.len()
        invariant
            i <= items@.len(),
            to_entry == (|item: DirectoryItem| entry_for(item)),
            entries@ == items@.take(i as int).filter_map(to_entry),
        decreases items@.len() - i,
    {
        proof {
            items@.lemma_filter_map_take_succ(to_entry, i as int);
        }
        let ghost before = entries@;
        let item = &items[i];
        if item.is_directory || (item.is_file && is_supported_audio(&item.path)) {
            entries.push(FileEntry { path: item.path.clone(), is_directory: item.is_directory });
            assert(entries@ =~= before + seq![entry_for(items@[i as int])->Some_0]);
        }
        i += 1;
    }
    assert(items@.take(i as int) == items@);
    sort(entries)
}

/// The directory that the picker opens on: the user's home where it is known, else the current
/// directory, which may not be known either.
pub fn start_directory(home: Option<PathBuf>, current: Result<PathBuf, Failure>) -> (directory:
    Result<PathBuf, Failure>)
    ensures
        directory == match home {
            Some(home) => Ok(home),
            None => current,
        },
{
    match home {
        Some(home) => Ok(home),
        None => current,
    }
}

/// The picker: the directory that is shown, what stands in it, the filter, the place of the
/// selection among what is visible, and the files that were marked.
pub struct FilePicker {
    pub directory: PathBuf,
    pub entries: Vec<FileEntry>,
    pub query: String,
    pub selected_index: usize,
    pub selected_paths: Vec<PathBuf>,
}

/// The place of the first path with the same components, or the number of paths.
pub open spec fn place_of(paths: Seq<PathBuf>, path: PathBuf) -> int
    decreases paths.len(),
{
    if paths.len() == 0 {
        0
    } else if path::same_components(path::path_bytes(paths[0]), path::path_bytes(path)) {
        0
    } else {
        1 + place_of(paths.drop_first(), path)
    }
}

/// No two of the paths have the same components: each path is marked once at most.
pub open spec fn marks_differ(paths: Seq<PathBuf>) -> bool {
    forall|i: int, j: int|
        0 <= i < j < paths.len() ==> !path::same_components(
            path::path_bytes(#[trigger] paths[i]),
            path::path_bytes(#[trigger] paths[j]),
        )
}

/// A path with these components is among the marked ones.
pub open spec fn is_marked(paths: Seq<PathBuf>, path: PathBuf) -> bool {
    exists|i: int|
        0 <= i < paths.len() && path::same_components(
            path::path_bytes(#[trigger] paths[i]),
            path::path_bytes(path),
        )
}

/// The paths after marking this one, or taking its mark away.
pub open spec fn toggled(paths: Seq<PathBuf>, path: PathBuf) -> Seq<PathBuf> {
    if place_of(paths, path) < paths.len() {
        paths.remove(place_of(paths, path))
    } else {
        paths.push(path)
    }
}

/// Where the path stands among the paths.
pub fn find_path(paths: &Vec<PathBuf>, path: &PathBuf) -> (place: Option<usize>)
    ensures
        match place {
            Some(place) => place < paths@.len() && place == place_of(paths@, *path),
            None => place_of(paths@, *path) == paths@.len(),
        },
{
    let mut i: usize = 0;
    assert(paths@.skip(0) == paths@);
    while i < paths.len()
        invariant
            i <= paths@.len(),
            place_of(paths@, *path) == i + place_of(paths@.skip(i as int), *path),
        decreases paths@.len() - i,
    {
        if same_path(&paths[i], path) {
            return Some(i);
        }
        assert(paths@.skip(i as int).drop_first() == paths@.skip(i + 1));
        i += 1;
    }
    None
}

/// The paths of a list once more.
pub fn copy_paths(paths: &Vec<PathBuf>) -> (copy: Vec<PathBuf>)
    ensures
        copy@ == paths@,
{
    let mut copy: Vec<PathBuf> = Vec::new();
    let mut i: usize = 0;
    while i < paths.len()
        invariant
            i <= paths@.len(),
            copy@ == paths@.take(i as int),
        decreases paths@.len() - i,
    {
        copy.push(paths[i].clone());
        assert(paths@.take(i + 1) == paths@.take(i as int).push(paths@[i as int]));
        i += 1;
    }
    assert(paths@.take(i as int) == paths@);
    copy
}

/// The selection at or before the last of `count` places.
pub open spec fn clamped(selected: int, count: int) -> int {
    if count == 0 {
        0
    } else if selected >= count {
        count - 1
    } else {
        selected
    }
}

/// The selection at or before the last of `count` places.
pub fn clamp_selection(selected: usize, count: usize) -> (place: usize)
    ensures
        place == clamped(selected as int, count as int),
{
    if count == 0 {
        0
    } else if selected >= count {
        count - 1
    } else {
        selected
    }
}

/// One place further, at or before the last of `count` places; nowhere where there are none.
pub open spec fn stepped(selected: int, amount: int, count: int) -> int {
    if count == 0 {
        selected
    } else if selected + amount >= count {
        count - 1
    } else {
        selected + amount
    }
}

/// `amount` places further, at or before the last of `count` places.
pub fn step_selection(selected: usize, amount: usize, count: usize) -> (place: usize)
    ensures
        place == stepped(selected as int, amount as int, count as int),
{
    if count == 0 {
        selected
    } else if selected >= count || amount >= count - selected {
        count - 1
    } else {
        selected + amount
    }
}

/// The picker with another filter and the first entry selected.
pub open spec fn filtered_by(before: FilePicker, after: FilePicker, query: Seq<char>) -> bool {
    &&& after.query@ == query
    &&& after == (FilePicker { query: after.query, selected_index: 0, ..before })
}

/// The picker with the mark of the selected file put or taken away; a directory has none.
pub open spec fn selected_toggled(before: FilePicker, after: FilePicker) -> bool {
    let at = before.selected_index as int;
    if at < before.visible().len() && !before.visible()[at].is_directory {
        &&& after.selected_paths@ == toggled(before.selected_paths@, before.visible()[at].path)
        &&& after == (FilePicker { selected_paths: after.selected_paths, ..before })
    } else {
        after == before
    }
}

/// The paths in their order.
pub open spec fn arranged(files: Seq<PathBuf>, paths: Seq<PathBuf>) -> bool {
    &&& files.to_multiset() == paths.to_multiset()
    &&& path::in_path_order(files)
}

/// The picker in another directory: what stands there is shown, unfiltered, from the top, and the
/// marks stay.
pub open spec fn moved_to(
    before: FilePicker,
    after: FilePicker,
    directory: PathBuf,
    items: Seq<DirectoryItem>,
) -> bool {
    &&& lists(after.entries@, items)
    &&& after.query@.len() == 0
    &&& after == (FilePicker {
        directory,
        entries: after.entries,
        query: after.query,
        selected_index: 0,
        ..before
    })
}

/// The picker with what stands in its directory now.
pub open spec fn refreshed(before: FilePicker, after: FilePicker, items: Seq<DirectoryItem>) -> bool {
    &&& lists(after.entries@, items)
    &&& after == (FilePicker {
        entries: after.entries,
        selected_index: after.selected_index,
        ..before
    })
    &&& after.selected_index == clamped(
        before.selected_index as int,
        after.visible().len() as int,
    )
}

impl FilePicker {
    /// Each path is marked once at most.
    pub open spec fn well_formed(self) -> bool {
        marks_differ(self.selected_paths@)
    }

    /// The entries that are shown for the query.
    pub open spec fn visible(self) -> Seq<FileEntry> {
        self.entries@.filter(|entry: FileEntry| path_matches(entry.path, self.query@))
    }

    /// The picker as it opens, on what stands in a directory.
    pub fn new(directory: PathBuf, items: Vec<DirectoryItem>) -> (picker: FilePicker)
        ensures
            picker.directory == directory,
            lists(picker.entries@, items@),
            picker.query@.len() == 0,
            picker.selected_index == 0,
            picker.selected_paths@.len() == 0,
            picker.well_formed(),
    {
        FilePicker {
            directory,
            entries: list_entries(items),
            query: String::new(),
            selected_index: 0,
            selected_paths: Vec::new(),
        }
    }

    /// The entries that are shown.
    pub fn visible_entries(&self) -> (visible: Vec<&FileEntry>)
        ensures
            visible@.unref() == self.visible(),
    {
        let ghost shown = |entry: FileEntry| path_matches(entry.path, self.query@);
        let mut visible: Vec<&FileEntry> = Vec::new();
        let mut i: usize = 0;
        proof {
            reveal(Seq::filter);
        }
        assert(self.entries@.take(0) == Seq::<FileEntry>::empty());
        assert(visible@.unref() =~= self.entries@.take(0).filter(shown));
        while i < self.entries.len()
            invariant
                i <= self.entries@.len(),
                shown == (|entry: FileEntry| path_matches(entry.path, self.query@)),
                visible@.unref() == self.entries@.take(i as int).filter(shown),
            decreases self.entries@.len() - i,
        {
            let ghost seen = self.entries@.take(i as int);
            assert(self.entries@.take(i + 1) == seen.push(self.entries@[i as int]));
            proof {
                seen.lemma_filter_push(self.entries@[i as int], shown);
            }
            let ghost before = visible@.unref();
            if file_entry_matches(&self.entries[i], &self.query) {
                visible.push(&self.entries[i]);
                assert(visible@.unref() =~= before.push(self.entries@[i as int]));
            }
            i += 1;
        }
        assert(self.entries@.take(i as int) == self.entries@);
        visible
    }

    /// How many entries are shown.
    pub fn visible_entry_count(&self) -> (count: usize)
        ensures
            count == self.visible().len(),
    {
        let visible = self.visible_entries();
        assert(visible@.unref().len() == visible@.len());
        visible.len()
    }

    /// The selected entry.
    pub fn selected_entry(&self) -> (entry: Option<&FileEntry>)
        ensures
            match entry {
                Some(entry) => self.selected_index < self.visible().len() && *entry
                    == self.visible()[self.selected_index as int],
                None => self.selected_index >= self.visible().len(),
            },
    {
        let visible = self.visible_entries();
        assert(visible@.unref().len() == visible@.len());
        if self.selected_index < visible.len() {
            assert(visible@.unref()[self.selected_index as int]
                == *visible@[self.selected_index as int]);
            Some(visible[self.selected_index])
        } else {
            None
        }
    }

    /// Adds a character to the filter.
    pub fn push_query(&mut self, character: char)
        ensures
            filtered_by(*old(self), *final(self), old(self).query@.push(character)),
    {
        self.query.push(character);
        self.selected_index = 0;
    }

    /// Takes the last character off the filter; tells whether there was one.
    pub fn pop_query(&mut self) -> (popped: bool)
        ensures
            popped == (old(self).query@.len() > 0),
            !popped ==> *final(self) == *old(self),
            popped ==> filtered_by(*old(self), *final(self), old(self).query@.drop_last()),
    {
        if self.query.as_str().is_empty() {
            return false;
        }
        self.query.pop();
        self.selected_index = 0;
        true
    }

    /// Marks the selected file, or takes its mark away; a directory cannot be marked. Each path
    /// stays marked once at most.
    pub fn toggle_selected_file(&mut self)
        ensures
            selected_toggled(*old(self), *final(self)),
            old(self).well_formed() ==> final(self).well_formed(),
    {
        proof {
            let at = self.selected_index as int;
            if self.well_formed() && at < self.visible().len() {
                toggling_changes_one_mark(self.selected_paths@, self.visible()[at].path);
            }
        }
        let path = match self.selected_entry() {
            Some(entry) => if entry.is_directory {
                return;
            } else {
                entry.path.clone()
            },
            None => return,
        };
        match find_path(&self.selected_paths, &path) {
            Some(place) => {
                self.selected_paths.remove(place);
            },
            None => {
                self.selected_paths.push(path);
            },
        }
    }

    /// Shows what stands in the directory now.
    pub fn refresh(&mut self, items: Vec<DirectoryItem>)
        ensures
            refreshed(*old(self), *final(self), items@),
    {
        self.entries = list_entries(items);
        let count = self.visible_entry_count();
        self.selected_index = clamp_selection(self.selected_index, count);
    }

    /// Goes to another directory, by what listing it gave. Where it cannot be listed, the picker
    /// stays where it is, with the selection at the top, and hands the failure back: its own
    /// directory is then to be listed again.
    pub fn change_directory(
        &mut self,
        directory: PathBuf,
        listing: Result<Vec<DirectoryItem>, Failure>,
    ) -> (result: Result<(), Failure>)
        ensures
            match listing {
                Ok(items) => result is Ok && moved_to(
                    *old(self),
                    *final(self),
                    directory,
                    items@,
                ),
                Err(failure) => {
                    &&& result == Err::<(), Failure>(failure)
                    &&& *final(self) == (FilePicker { selected_index: 0, ..*old(self) })
                },
            },
    {
        self.selected_index = 0;
        match listing {
            Ok(items) => {
                self.directory = directory;
                self.query = String::new();
                self.refresh(items);
                Ok(())
            },
            Err(failure) => Err(failure),
        }
    }

    /// Takes what listing the picker's own directory gave after another could not be listed, and
    /// says which failure is to be reported.
    pub fn stay(&mut self, failure: Failure, listing: Result<Vec<DirectoryItem>, Failure>) -> (reported:
        Failure)
        ensures
            match listing {
                Ok(items) => reported == failure && refreshed(*old(self), *final(self), items@),
                Err(second) => reported == second && *final(self) == *old(self),
            },
    {
        match listing {
            Ok(items) => {
                self.refresh(items);
                failure
            },
            Err(second) => second,
        }
    }

    /// The marked files, in the order in which they are imported.
    pub fn marked_files(&self) -> (files: Vec<PathBuf>)
        ensures
            arranged(files@, self.selected_paths@),
    {
        sort_paths(copy_paths(&self.selected_paths))
    }
}

pub(crate) proof fn lemma_place_of(paths: Seq<PathBuf>, path: PathBuf)
    ensures
        0 <= place_of(paths, path) <= paths.len(),
        place_of(paths, path) < paths.len() ==> path::same_components(
            path::path_bytes(paths[place_of(paths, path)]),
            path::path_bytes(path),
        ),
        forall|i: int|
            0 <= i < place_of(paths, path) ==> !path::same_components(
                path::path_bytes(#[trigger] paths[i]),
                path::path_bytes(path),
            ),
    decreases paths.len(),
{
    if paths.len() > 0 && !path::same_components(
        path::path_bytes(paths[0]),
        path::path_bytes(path),
    ) {
        let rest = paths.drop_first();
        lemma_place_of(rest, path);
        let place = place_of(rest, path);
        if place < rest.len() {
            assert(rest[place] == paths[place + 1]);
        }
        assert forall|i: int| 0 <= i < place_of(paths, path) implies !path::same_components(
            path::path_bytes(#[trigger] paths[i]),
            path::path_bytes(path),
        ) by {
            if i > 0 {
                assert(rest[i - 1] == paths[i]);
            }
        }
    }
}

/// Toggling a path marks it where it was not marked and takes its mark away where it was; every
/// other mark stays, and each path stays marked once at most.
pub proof fn toggling_changes_one_mark(paths: Seq<PathBuf>, path: PathBuf)
    requires
        marks_differ(paths),
    ensures
        marks_differ(toggled(paths, path)),
        forall|other: PathBuf| #[trigger]
            is_marked(toggled(paths, path), other) == if path::same_components(
                path::path_bytes(other),
                path::path_bytes(path),
            ) {
                !is_marked(paths, other)
            } else {
                is_marked(paths, other)
            },
{
    lemma_place_of(paths, path);
    let place = place_of(paths, path);
    let after = toggled(paths, path);
    if place < paths.len() {
        assert forall|i: int| 0 <= i < after.len() implies #[trigger] after[i] == paths[if i
            < place {
            i
        } else {
            i + 1
        }] by {}
    } else {
        assert forall|i: int| 0 <= i < paths.len() implies #[trigger] after[i] == paths[i] by {}
        assert(after[paths.len() as int] == path);
    }
    assert forall|other: PathBuf| #[trigger]
        is_marked(after, other) == if path::same_components(
            path::path_bytes(other),
            path::path_bytes(path),
        ) {
            !is_marked(paths, other)
        } else {
            is_marked(paths, other)
        } by {
        if is_marked(paths, other) {
            let i = choose|i: int|
                0 <= i < paths.len() && path::same_components(
                    path::path_bytes(#[trigger] paths[i]),
                    path::path_bytes(other),
                );
            if i < place {
                assert(after[i] == paths[i]);
            } else if i > place {
                assert(after[i - 1] == paths[i]);
            }
        }
    }
}

/// The picker after the selected entry is toggled twice: the same paths are marked as before, each
/// once, and the rest of the picker is as it was. A file that was not marked leaves the very list
/// of marks.
pub proof fn two_toggles_restore_the_marks(
    before: FilePicker,
    between: FilePicker,
    after: FilePicker,
)
    requires
        before.well_formed(),
        selected_toggled(before, between),
        selected_toggled(between, after),
    ensures
        after.well_formed(),
        forall|path: PathBuf| #[trigger]
            is_marked(after.selected_paths@, path) == is_marked(before.selected_paths@, path),
        after.selected_paths@.len() == before.selected_paths@.len(),
        between.selected_paths@.len() > before.selected_paths@.len() ==> after.selected_paths@
            == before.selected_paths@,
        after == (FilePicker { selected_paths: after.selected_paths, ..before }),
{
    let at = before.selected_index as int;
    assert(between.visible() == before.visible());
    if at < before.visible().len() && !before.visible()[at].is_directory {
        let path = before.visible()[at].path;
        let marks = before.selected_paths@;
        toggling_changes_one_mark(marks, path);
        toggling_changes_one_mark(toggled(marks, path), path);
        lemma_place_of(marks, path);
        lemma_place_of(toggled(marks, path), path);
        assert(is_marked(toggled(marks, path), path) != is_marked(marks, path));
        if place_of(marks, path) == marks.len() {
            let pushed = marks.push(path);
            assert forall|i: int| 0 <= i < marks.len() implies #[trigger] pushed[i]
                == marks[i] by {}
            assert(pushed[marks.len() as int] == path);
            assert(place_of(pushed, path) == marks.len());
            assert(pushed.remove(marks.len() as int) =~= marks);
        } else {
            assert(is_marked(marks, path)) by {
                assert(path::same_components(
                    path::path_bytes(marks[place_of(marks, path)]),
                    path::path_bytes(path),
                ));
            }
        }
    }
}

proof fn lemma_listed_entries(entries: Seq<FileEntry>, items: Seq<DirectoryItem>)
    requires
        lists(entries, items),
    ensures
        forall|entry: FileEntry| #[trigger]
            entries.contains(entry) <==> exists|i: int|
                0 <= i < items.len() && entry_for(#[trigger] items[i]) == Some(entry),
        entries.len() <= items.len(),
{
    let to_entry = |item: DirectoryItem| entry_for(item);
    let made = items.filter_map(to_entry);
    order::lemma_sorted_items(made, entries);
    lemma_filter_map_is_shorter(items);
    assert forall|entry: FileEntry| #[trigger] entries.contains(entry) implies exists|i: int|
        0 <= i < items.len() && entry_for(#[trigger] items[i]) == Some(entry) by {
        assert(made.contains(entry));
        items.lemma_filter_map_contains(to_entry, entry);
        let item = choose|item: DirectoryItem| #[trigger]
            items.contains(item) && to_entry(item) == Some(entry);
        let i = choose|i: int| 0 <= i < items.len() && items[i] == item;
        assert(entry_for(items[i]) == Some(entry));
    }
    assert forall|entry: FileEntry|
        (exists|i: int|
            0 <= i < items.len() && entry_for(#[trigger] items[i]) == Some(
                entry,
            )) implies #[trigger] entries.contains(entry) by {
        let i = choose|i: int|
            0 <= i < items.len() && entry_for(#[trigger] items[i]) == Some(entry);
        order::lemma_filter_map_keeps(items, to_entry, i);
        assert(made.contains(entry));
    }
}

proof fn lemma_filter_map_is_shorter(items: Seq<DirectoryItem>)
    ensures
        items.filter_map(|item: DirectoryItem| entry_for(item)).len() <= items.len(),
    decreases items.len(),
{
    if items.len() > 0 {
        lemma_filter_map_is_shorter(items.drop_last());
    }
}

/// A directory is listed with its directories and its supported audio files, all of them and nothing
/// else, the directories first and both in the order of their names.
pub proof fn a_directory_is_listed(
    items: Vec<DirectoryItem>,
    entries: Vec<FileEntry>,
    at: int,
    is_supported: bool,
    places: (int, int),
)
    requires
        call_ensures(list_entries, (items,), entries),
        0 <= at < items@.len(),
        call_ensures(is_supported_audio, (&items@[at].path,), is_supported),
        0 <= places.0 < places.1 < entries@.len(),
    ensures
        items@[at].is_directory ==> entries@.contains(
            FileEntry { path: items@[at].path, is_directory: true },
        ),
        !items@[at].is_directory && items@[at].is_file && is_supported ==> entries@.contains(
            FileEntry { path: items@[at].path, is_directory: false },
        ),
        entries@.len() <= items@.len(),
        exists|i: int|
            0 <= i < items@.len() && (#[trigger] items@[i]).path == entries@[places.0].path
                && items@[i].is_directory == entries@[places.0].is_directory && (
            items@[i].is_directory || items@[i].is_file && library::supported(items@[i].path)),
        !entries@[places.0].is_directory ==> !entries@[places.1].is_directory,
        entries@[places.0].is_directory == entries@[places.1].is_directory ==> (match (
            path::name_in(path::path_bytes(entries@[places.0].path)),
            path::name_in(path::path_bytes(entries@[places.1].path)),
        ) {
            (Some(first), Some(second)) => order::not_after(first, second),
            _ => true,
        }),
{
    lemma_listed_entries(entries@, items@);
    let item = items@[at];
    if item.is_directory || item.is_file && is_supported {
        assert(entry_for(items@[at]) == Some(
            FileEntry { path: item.path, is_directory: item.is_directory },
        ));
    }
    assert(entries@.contains(entries@[places.0]));
    let i = choose|i: int|
        0 <= i < items@.len() && entry_for(#[trigger] items@[i]) == Some(entries@[places.0]);
    assert(items@[i].path == entries@[places.0].path);
    let first = entries@[places.0].key();
    let second = entries@[places.1].key();
    assert(order::not_after(first, second));
    assert(first[0] <= second[0]);
    if entries@[places.0].is_directory == entries@[places.1].is_directory {
        if let (Some(one), Some(other)) = (
            path::name_in(path::path_bytes(entries@[places.0].path)),
            path::name_in(path::path_bytes(entries@[places.1].path)),
        ) {
            let inner = first.drop_first();
            let outer = second.drop_first();
            assert(order::not_after(inner, outer));
            assert(inner[0] == 1 && outer[0] == 1);
            assert(inner.drop_first() =~= one);
            assert(outer.drop_first() =~= other);
        }
    }
}

/// A name is shown where the filter stands in it, whatever the case, or there is no filter; a hidden
/// one only where the filter is for hidden names, that is begins with a dot.
pub proof fn names_are_shown_for_the_filter(
    name: &str,
    query: &str,
    shown: bool,
    before: Seq<char>,
    after: Seq<char>,
)
    requires
        call_ensures(file_name_matches, (name, query), shown),
    ensures
        name@.len() > 0 && name@[0] == '.' && (query@.len() == 0 || query@[0] != '.') ==> !shown,
        (name@.len() == 0 || name@[0] != '.') && query@.len() == 0 ==> shown,
        (name@.len() == 0 || name@[0] != '.' || query@.len() > 0 && query@[0] == '.')
            && text::lowercase(name@) == before + text::lowercase(query@) + after ==> shown,
        shown && query@.len() > 0 ==> text::occurs_in(
            text::lowercase(query@),
            text::lowercase(name@),
        ),
{
    text::occurring_is_standing_inside(text::lowercase(query@), text::lowercase(name@));
}

/// What is visible is what the filter lets through, in the order of the listing; the selected entry
/// is the one at the place of the selection, where there is one.
pub proof fn the_visible_entries_match_the_filter(
    picker: FilePicker,
    visible: Vec<&FileEntry>,
    count: usize,
    selected: Option<&FileEntry>,
    at: int,
    matches: bool,
    query: &str,
)
    requires
        call_ensures(FilePicker::visible_entries, (&picker,), visible),
        call_ensures(FilePicker::visible_entry_count, (&picker,), count),
        call_ensures(FilePicker::selected_entry, (&picker,), selected),
        0 <= at < picker.entries@.len(),
        query@ == picker.query@,
        call_ensures(file_entry_matches, (&picker.entries@[at], query), matches),
    ensures
        visible@.unref().contains(picker.entries@[at]) <==> matches,
        count == visible@.len(),
        selected is Some <==> picker.selected_index < visible@.len(),
        selected is Some ==> *selected->Some_0 == *visible@[picker.selected_index as int],
{
    let shown = |entry: FileEntry| path_matches(entry.path, picker.query@);
    let all = picker.entries@.filter(shown);
    assert(visible@.unref() == all);
    assert(visible@.unref().len() == visible@.len());
    if matches {
        picker.entries@.lemma_filter_contains(shown, at);
    }
    if all.contains(picker.entries@[at]) {
        let k = choose|k: int| 0 <= k < all.len() && all[k] == picker.entries@[at];
        picker.entries@.lemma_filter_pred(shown, k);
    }
    if picker.selected_index < visible@.len() {
        assert(visible@.unref()[picker.selected_index as int]
            == *visible@[picker.selected_index as int]);
    }
}

/// An entry is shown for the filter exactly where its name is.
pub proof fn an_entry_is_shown_by_its_name(
    entry: FileEntry,
    query: &str,
    matches: bool,
    name: Option<String>,
    shown_text: &str,
    shown: bool,
)
    requires
        call_ensures(file_entry_matches, (&entry, query), matches),
        call_ensures(display_name, (&entry.path,), name),
        name is Some ==> shown_text@ == name->Some_0@,
        call_ensures(file_name_matches, (shown_text, query), shown),
    ensures
        name is None ==> !matches,
        name is Some ==> matches == shown,
        name is Some <==> path::name_in(path::path_bytes(entry.path)) is Some,
        name is Some ==> name->Some_0@ == text::lossy_text(
            path::name_in(path::path_bytes(entry.path))->Some_0,
        ),
{
}

/// Typing extends the filter, erasing shortens it and tells whether there was anything to erase, and
/// both go back to the first entry and keep the marks.
pub proof fn the_filter_is_typed_and_erased(
    typing: &mut FilePicker,
    character: char,
    erasing: &mut FilePicker,
    popped: bool,
)
    requires
        call_ensures(FilePicker::push_query, (typing, character), ()),
        *old(erasing) == *final(typing),
        call_ensures(FilePicker::pop_query, (erasing,), popped),
    ensures
        final(typing).query@ == old(typing).query@.push(character),
        final(typing).selected_index == 0,
        *final(typing) == (FilePicker {
            query: final(typing).query,
            selected_index: 0,
            ..*old(typing)
        }),
        popped,
        final(erasing).query@ == old(typing).query@,
        final(erasing).selected_index == 0,
        final(erasing).selected_paths == old(typing).selected_paths && final(erasing).entries
            == old(typing).entries && final(erasing).directory == old(typing).directory,
{
    assert(old(typing).query@.push(character).drop_last() =~= old(typing).query@);
}

/// The selected file is marked where it was not and loses its mark where it was; no other mark
/// changes. What is no file cannot be marked.
pub proof fn the_selected_file_is_marked(
    picker: &mut FilePicker,
    entry: Option<&FileEntry>,
    other: PathBuf,
)
    requires
        old(picker).well_formed(),
        call_ensures(FilePicker::selected_entry, (&*old(picker),), entry),
        call_ensures(FilePicker::toggle_selected_file, (picker,), ()),
    ensures
        entry is None || entry->Some_0.is_directory ==> *final(picker) == *old(picker),
        entry is Some && !entry->Some_0.is_directory ==> {
            &&& is_marked(final(picker).selected_paths@, entry->Some_0.path) != is_marked(
                old(picker).selected_paths@,
                entry->Some_0.path,
            )
            &&& !path::same_components(
                path::path_bytes(other),
                path::path_bytes(entry->Some_0.path),
            ) ==> is_marked(final(picker).selected_paths@, other) == is_marked(
                old(picker).selected_paths@,
                other,
            )
            &&& *final(picker) == (FilePicker {
                selected_paths: final(picker).selected_paths,
                ..*old(picker)
            })
        },
{
    if entry is Some && !entry->Some_0.is_directory {
        toggling_changes_one_mark(old(picker).selected_paths@, entry->Some_0.path);
    }
}

/// Another directory is shown from its top and without a filter, and the marks are kept; one that
/// cannot be listed leaves the picker where it is, with its marks, and is reported.
pub proof fn another_directory_is_shown(
    picker: &mut FilePicker,
    directory: PathBuf,
    items: Vec<DirectoryItem>,
    entered: Result<(), Failure>,
    staying: &mut FilePicker,
    failure: Failure,
    refused: Result<(), Failure>,
    listed_again: &mut FilePicker,
    unlisted: &mut FilePicker,
    second: Failure,
    reports: (Failure, Failure),
    at: int,
)
    requires
        call_ensures(FilePicker::change_directory, (picker, directory, Ok(items)), entered),
        call_ensures(FilePicker::change_directory, (staying, directory, Err(failure)), refused),
        call_ensures(FilePicker::stay, (listed_again, failure, Ok(items)), reports.0),
        call_ensures(FilePicker::stay, (unlisted, failure, Err(second)), reports.1),
        0 <= at < items@.len(),
        items@[at].is_directory,
    ensures
        entered is Ok,
        final(picker).directory == directory,
        final(picker).query@.len() == 0,
        final(picker).selected_index == 0,
        final(picker).selected_paths == old(picker).selected_paths,
        final(picker).entries@.contains(FileEntry { path: items@[at].path, is_directory: true }),
        refused == Err::<(), Failure>(failure),
        final(staying).directory == old(staying).directory,
        final(staying).entries == old(staying).entries,
        final(staying).selected_paths == old(staying).selected_paths,
        final(staying).query == old(staying).query,
        reports.0 == failure,
        final(listed_again).directory == old(listed_again).directory,
        final(listed_again).selected_paths == old(listed_again).selected_paths,
        final(listed_again).entries@.contains(
            FileEntry { path: items@[at].path, is_directory: true },
        ),
        reports.1 == second,
        *final(unlisted) == *old(unlisted),
{
    lemma_listed_entries(final(picker).entries@, items@);
    lemma_listed_entries(final(listed_again).entries@, items@);
    assert(entry_for(items@[at]) == Some(
        FileEntry { path: items@[at].path, is_directory: true },
    ));
}

/// The files that are imported are the marked ones, each once as it was marked, in the order of
/// their paths.
pub proof fn marked_files_are_handed_out(
    picker: FilePicker,
    files: Vec<PathBuf>,
    path: PathBuf,
    places: (int, int),
)
    requires
        call_ensures(FilePicker::marked_files, (&picker,), files),
        0 <= places.0 < places.1 < files@.len(),
    ensures
        files@.contains(path) <==> picker.selected_paths@.contains(path),
        files@.len() == picker.selected_paths@.len(),
        path::path_not_after(
            path::path_bytes(files@[places.0]),
            path::path_bytes(files@[places.1]),
        ),
{
    broadcast use vstd::seq_lib::group_to_multiset_ensures;

    files@.to_multiset_ensures();
    picker.selected_paths@.to_multiset_ensures();
    assert(files@.contains(path) <==> files@.to_multiset().count(path) > 0);
    assert(picker.selected_paths@.contains(path)
        <==> picker.selected_paths@.to_multiset().count(path) > 0);
}

/// The picker opens on the home directory where it is known, else on the current one, without a
/// filter or a mark.
pub proof fn the_picker_opens_at_home(
    home: PathBuf,
    current: Result<PathBuf, Failure>,
    known: Result<PathBuf, Failure>,
    unknown: Result<PathBuf, Failure>,
    items: Vec<DirectoryItem>,
    picker: FilePicker,
)
    requires
        call_ensures(start_directory, (Some(home), current), known),
        call_ensures(start_directory, (None, current), unknown),
        call_ensures(FilePicker::new, (home, items), picker),
    ensures
        known == Ok::<PathBuf, Failure>(home),
        unknown == current,
        picker.directory == home,
        picker.query@.len() == 0,
        picker.selected_index == 0,
        picker.selected_paths@.len() == 0,
{
}

/// A selection is moved by the asked number of places and stays on one that there is.
pub proof fn a_selection_stays_among_its_places(
    selected: usize,
    amount: usize,
    count: usize,
    stepped_place: usize,
    clamped_place: usize,
)
    requires
        call_ensures(step_selection, (selected, amount, count), stepped_place),
        call_ensures(clamp_selection, (selected, count), clamped_place),
    ensures
        count > 0 ==> stepped_place < count && clamped_place < count,
        selected + amount < count ==> stepped_place == selected + amount,
        0 < count <= selected + amount ==> stepped_place == count - 1,
        count == 0 ==> stepped_place == selected && clamped_place == 0,
        selected < count ==> clamped_place == selected,
        0 < count <= selected ==> clamped_place == count - 1,
{
}

/// Showing a directory anew keeps the filter and the marks, and the selection on an entry that is
/// visible.
pub proof fn a_refreshed_picker_keeps_its_place(
    picker: &mut FilePicker,
    items: Vec<DirectoryItem>,
    count: usize,
)
    requires
        call_ensures(FilePicker::refresh, (picker, items), ()),
        call_ensures(FilePicker::visible_entry_count, (&*final(picker),), count),
    ensures
        count > 0 ==> final(picker).selected_index < count,
        old(picker).selected_index < count ==> final(picker).selected_index
            == old(picker).selected_index,
        final(picker).query == old(picker).query,
        final(picker).selected_paths == old(picker).selected_paths,
        final(picker).directory == old(picker).directory,
{
}

} // verus!
