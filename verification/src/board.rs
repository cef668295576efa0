//! The screens of the two modes and of the picker, without their layout.

use vstd::arithmetic::div_mod::{lemma_fundamental_div_mod, lemma_remainder_upper};
use vstd::prelude::*;

use crate::app::{App, StatusMessage};
use crate::controls;
use crate::controls::pad_columns;
use crate::library;
use crate::library::Sound;
use crate::path;
use crate::path::{display, same_path};
use crate::picker;
use crate::picker::{display_name, find_path, FileEntry, FilePicker};
use crate::screen;
use crate::screen::{put_text, ScreenLine, Tone};
use crate::text;
use crate::text::{join2, join3, join4, number};

verus! {

/// The height of a pad.
pub const PAD_HEIGHT: u16 = 5;

/// The keys of configuration.
pub const CONFIGURATION_KEYS: &'static str =
    " Arrows Select  Enter/Space Play  s Stop  +/- Volume  a Add  e Edit  d Delete  m Monitor  A Audio setup  r Reload  Ctrl+k Quick play  q Exit ";

/// The keys of quick play.
pub const USE_KEYS: &'static str =
    " Enter  Play    Up/Down  Select    Ctrl+k  Config    Esc  Close ";

/// The keys of the picker.
pub const PICKER_KEYS: &'static str =
    " Type Filter  Up/Down Select  Enter Open/Mark  Backspace Erase/Parent  Tab Import  Esc Cancel ";

/// The text at the bottom: its title, where it has one, and the tone of its border.
pub struct Footer {
    pub text: String,
    pub title: Option<String>,
    pub tone: Tone,
}

/// The footer shows the message, where there is one, else the keys.
pub open spec fn footer_shows(footer: Footer, status: Option<StatusMessage>, keys: Seq<char>) -> bool {
    match status {
        Some(message) => {
            &&& footer.text@ == message.text@
            &&& path::optional_text(footer.title) == Some(" STATUS "@)
            &&& footer.tone == if message.is_error {
                Tone::Bad
            } else {
                Tone::Good
            }
        },
        None => footer.text@ == keys && footer.title is None && footer.tone == Tone::Faint,
    }
}

/// The footer shows the message, where it is an error, else the keys.
pub open spec fn footer_warns(footer: Footer, status: Option<StatusMessage>, keys: Seq<char>) -> bool {
    if status is Some && status->Some_0.is_error {
        &&& footer.text@ == status->Some_0.text@
        &&& path::optional_text(footer.title) == Some(" ERROR "@)
        &&& footer.tone == Tone::Bad
    } else {
        footer.text@ == keys && footer.title is None && footer.tone == Tone::Plain
    }
}

fn status_footer(status: &Option<StatusMessage>, keys: &str) -> (footer: Footer)
    ensures
        footer_shows(footer, *status, keys@),
{
    match status {
        Some(message) => Footer {
            text: message.text.clone(),
            title: Some(" STATUS ".to_owned()),
            tone: if message.is_error {
                Tone::Bad
            } else {
                Tone::Good
            },
        },
        None => Footer { text: keys.to_owned(), title: None, tone: Tone::Faint },
    }
}

fn error_footer(status: &Option<StatusMessage>, keys: &str) -> (footer: Footer)
    ensures
        footer_warns(footer, *status, keys@),
{
    if let Some(message) = status {
        if message.is_error {
            return Footer {
                text: message.text.clone(),
                title: Some(" ERROR ".to_owned()),
                tone: Tone::Bad,
            };
        }
    }
    Footer { text: keys.to_owned(), title: None, tone: Tone::Plain }
}

/// The sound is the one that plays.
pub open spec fn is_playing(state: App, sound: Sound) -> bool {
    match state.playing_path {
        Some(playing) => path::same_components(
            path::path_bytes(playing),
            path::path_bytes(sound.path),
        ),
        None => false,
    }
}

fn plays(state: &App, sound: &Sound) -> (playing: bool)
    ensures
        playing == is_playing(*state, *sound),
{
    match &state.playing_path {
        Some(playing) => same_path(playing, &sound.path),
        None => false,
    }
}

/// Configuration: the header, the list of sounds and the footer with its height.
pub struct ConfigurationScreen {
    pub header: String,
    pub library: Vec<String>,
    pub footer: Footer,
    pub footer_height: u16,
}

/// The header: where sounds go, and whether they are played locally too.
pub open spec fn header_text(state: App) -> Seq<char> {
    " CONFIGURATION  AUDIO "@ + (match state.settings.audio.mix_sink {
        Some(sink) => sink@,
        None => "NOT CONFIGURED"@,
    }) + "  LOCAL MONITOR "@ + ((if state.settings.local_playback {
        "ON"@
    } else {
        "OFF"@
    }) + " "@)
}

/// The item of a sound in the list: a star where it plays, its name, its volume and its file.
pub open spec fn library_item(state: App, sound: Sound) -> Seq<char> {
    (if is_playing(state, sound) {
        " * "@
    } else {
        "   "@
    }) + sound.name@ + "  "@ + (text::decimal(sound.volume as nat) + "%\n    "@
        + library::file_name_text(sound.path))
}

fn library_items(state: &App) -> (items: Vec<String>)
    ensures
        text::views(items@) == state.sounds@.map_values(|sound: Sound| library_item(*state, sound)),
{
    let ghost all = state.sounds@.map_values(|sound: Sound| library_item(*state, sound));
    let mut items: Vec<String> = Vec::new();
    let mut i: usize = 0;
    while i < state.sounds.len()
        invariant
            i <= state.sounds@.len(),
            all == state.sounds@.map_values(|sound: Sound| library_item(*state, sound)),
            text::views(items@) == all.take(i as int),
        decreases state.sounds@.len() - i,
    {
        let sound = &state.sounds[i];
        let marker = if plays(state, sound) {
            " * "
        } else {
            "   "
        };
        let rest = join3(&number(sound.volume as u128), "%\n    ", &sound.file_name());
        let item = join4(marker, &sound.name, "  ", &rest);
        let ghost before = text::views(items@);
        items.push(item);
        assert(text::views(items@) =~= before.push(item@));
        assert(all[i as int] == item@);
        assert(all.take(i + 1) =~= all.take(i as int).push(item@));
        i += 1;
    }
    assert(all.take(i as int) =~= all);
    items
}

/// The screen of configuration.
pub fn configuration_screen(state: &App) -> (screen: ConfigurationScreen)
    ensures
        screen.header@ == header_text(*state),
        text::views(screen.library@) == state.sounds@.map_values(
            |sound: Sound| library_item(*state, sound),
        ),
        footer_shows(
            screen.footer,
            state.status_message,
            CONFIGURATION_KEYS@,
        ),
        screen.footer_height == if state.status_message is Some {
            5
        } else {
            3u16
        },
{
    let destination = match &state.settings.audio.mix_sink {
        Some(sink) => sink.as_str(),
        None => "NOT CONFIGURED",
    };
    let local = if state.settings.local_playback {
        join2("ON", " ")
    } else {
        join2("OFF", " ")
    };
    ConfigurationScreen {
        header: join4(" CONFIGURATION  AUDIO ", destination, "  LOCAL MONITOR ", &local),
        library: library_items(state),
        footer: status_footer(
            &state.status_message,
            CONFIGURATION_KEYS,
        ),
        footer_height: if state.status_message.is_some() {
            5
        } else {
            3
        },
    }
}

/// Quick play: the query, the results, the selected one, and the footer with its height.
pub struct UseScreen {
    pub search: String,
    pub results: Vec<String>,
    pub selected: Option<usize>,
    pub footer: Footer,
    pub footer_height: u16,
}

/// The item of a sound among the results.
pub open spec fn result_item(sound: Sound) -> Seq<char> {
    sound.name@ + "  ["@ + library::file_name_text(sound.path) + "]"@
}

/// The screen of quick play.
pub fn use_screen(state: &App) -> (screen: UseScreen)
    ensures
        screen.search@ == "> "@ + state.query@ + "_"@,
        text::views(screen.results@) == state.filtered().map_values(
            |sound: Sound| result_item(sound),
        ),
        screen.selected == if state.filtered().len() == 0 {
            None
        } else {
            Some(state.selected_index)
        },
        footer_shows(
            screen.footer,
            state.status_message,
            USE_KEYS@,
        ),
        screen.footer_height == if state.status_message is Some {
            4
        } else {
            1u16
        },
{
    let sounds = state.filtered_sounds();
    let ghost found = state.filtered();
    let ghost all = found.map_values(|sound: Sound| result_item(sound));
    assert(sounds@.unref().len() == sounds@.len());
    let mut results: Vec<String> = Vec::new();
    let mut i: usize = 0;
    while i < sounds.len()
        invariant
            i <= sounds@.len(),
            sounds@.unref() == found,
            found.len() == sounds@.len(),
            all == found.map_values(|sound: Sound| result_item(sound)),
            text::views(results@) == all.take(i as int),
        decreases sounds@.len() - i,
    {
        assert(found[i as int] == *sounds@[i as int]);
        let item = join4(&sounds[i].name, "  [", &sounds[i].file_name(), "]");
        let ghost before = text::views(results@);
        results.push(item);
        assert(text::views(results@) =~= before.push(item@));
        assert(all[i as int] == item@);
        assert(all.take(i + 1) =~= all.take(i as int).push(item@));
        i += 1;
    }
    assert(all.take(i as int) =~= all);
    UseScreen {
        search: join3("> ", &state.query, "_"),
        results,
        selected: if sounds.len() == 0 {
            None
        } else {
            Some(state.selected_index)
        },
        footer: status_footer(
            &state.status_message,
            USE_KEYS,
        ),
        footer_height: if state.status_message.is_some() {
            4
        } else {
            1
        },
    }
}

/// The first of the items that are shown in a window of `rows`: the selection stands in its
/// middle, as far as the items reach.
pub open spec fn window_start(selected: int, count: int, rows: int) -> int {
    if count <= rows || selected <= rows / 2 {
        0
    } else if selected - rows / 2 > count - rows {
        count - rows
    } else {
        selected - rows / 2
    }
}

/// The first of the items that are shown in a window.
pub fn centered_window_start(selected: usize, item_count: usize, visible_rows: usize) -> (start:
    usize)
    ensures
        start == window_start(selected as int, item_count as int, visible_rows as int),
{
    if item_count <= visible_rows {
        return 0;
    }
    let start = selected.saturating_sub(visible_rows / 2);
    if start > item_count - visible_rows {
        item_count - visible_rows
    } else {
        start
    }
}

/// The selected item is shown, and no row of the window is left empty while there are items for
/// it.
pub proof fn window_shows_the_selection(selected: int, count: int, rows: int)
    requires
        0 <= selected < count,
        rows >= 1,
    ensures
        window_start(selected, count, rows) <= selected < window_start(selected, count, rows)
            + rows,
        0 <= window_start(selected, count, rows),
        rows <= count ==> window_start(selected, count, rows) + rows <= count,
{
}

/// The picker: its title, the directory, the filter, the title of the list, the items that are
/// shown, the selected one of them, and the footer.
pub struct PickerScreen {
    pub title: String,
    pub directory: String,
    pub filter: String,
    pub list_title: String,
    pub items: Vec<String>,
    pub selected: Option<usize>,
    pub footer: Footer,
}

/// The item of an entry: a directory ends in a slash, a file has a box with its mark.
pub open spec fn entry_item(open: FilePicker, entry: FileEntry) -> Seq<char> {
    let name = match picker::shown_name(entry.path) {
        Some(name) => name,
        None => Seq::empty(),
    };
    if entry.is_directory {
        "  "@ + name + "/"@
    } else if picker::place_of(open.selected_paths@, entry.path) < open.selected_paths@.len() {
        "[x] "@ + name
    } else {
        "[ ] "@ + name
    }
}

fn item_of(open: &FilePicker, entry: &FileEntry) -> (item: String)
    ensures
        item@ == entry_item(*open, *entry),
{
    let name = match display_name(&entry.path) {
        Some(name) => name,
        None => String::new(),
    };
    assert(name@ == match picker::shown_name(entry.path) {
        Some(name) => name,
        None => Seq::empty(),
    });
    if entry.is_directory {
        return join3("  ", &name, "/");
    }
    match find_path(&open.selected_paths, &entry.path) {
        Some(_) => join2("[x] ", &name),
        None => join2("[ ] ", &name),
    }
}

/// How many rows a bordered list of this height has; at least one.
pub fn list_rows(height: u16) -> (rows: usize)
    ensures
        rows == if height <= 3 {
            1
        } else {
            height - 2
        },
{
    if height <= 3 {
        1
    } else {
        (height - 2) as usize
    }
}

/// The entries that a window of `rows` shows.
pub open spec fn window_of(open: FilePicker, rows: int) -> Seq<FileEntry> {
    let count = open.visible().len() as int;
    let start = window_start(open.selected_index as int, count, rows);
    open.visible().subrange(
        start,
        if start + rows < count {
            start + rows
        } else {
            count
        },
    )
}

/// The screen of the picker, with `rows` rows for its entries.
pub fn picker_screen(open: &FilePicker, status: &Option<StatusMessage>, rows: usize) -> (screen:
    PickerScreen)
    ensures
        screen.title@ == " ADD AUDIO  "@ + text::decimal(open.selected_paths@.len() as nat)
            + " selected "@,
        screen.directory@ == path::path_text(open.directory),
        screen.filter@ == "Filter: "@ + open.query@ + "_"@,
        screen.list_title@ == " DIRECTORIES AND AUDIO FILES  "@ + text::decimal(
            open.visible().len(),
        ) + " matches "@,
        text::views(screen.items@) == window_of(*open, rows as int).map_values(
            |entry: FileEntry| entry_item(*open, entry),
        ),
        match screen.selected {
            Some(selected) => open.visible().len() > 0 && selected == open.selected_index
                - window_start(
                open.selected_index as int,
                open.visible().len() as int,
                rows as int,
            ),
            None => open.visible().len() == 0,
        },
        footer_warns(
            screen.footer,
            *status,
            PICKER_KEYS@,
        ),
{
    let visible = open.visible_entries();
    let ghost entries = open.visible();
    assert(visible@.unref().len() == visible@.len());
    let count = visible.len();
    let start = centered_window_start(open.selected_index, count, rows);
    let end = if count - start < rows {
        count
    } else {
        start + rows
    };
    let ghost shown = window_of(*open, rows as int);
    let ghost all = shown.map_values(|entry: FileEntry| entry_item(*open, entry));
    let mut items: Vec<String> = Vec::new();
    let mut i: usize = start;
    assert(all.take(0) =~= Seq::empty());
    assert(text::views(items@) =~= all.take(0));
    while i < end
        invariant
            start <= i <= end <= visible@.len(),
            visible@.unref() == entries,
            visible@.len() == entries.len(),
            shown == entries.subrange(start as int, end as int),
            all == shown.map_values(|entry: FileEntry| entry_item(*open, entry)),
            text::views(items@) == all.take(i - start),
        decreases end - i,
    {
        assert(entries[i as int] == *visible@[i as int]);
        let item = item_of(open, visible[i]);
        let ghost before = text::views(items@);
        items.push(item);
        assert(text::views(items@) =~= before.push(item@));
        assert(all[i - start] == item@);
        assert(all.take(i - start + 1) =~= all.take(i - start).push(item@));
        i += 1;
    }
    assert(all.take(end - start) =~= all);
    PickerScreen {
        title: join3(
            " ADD AUDIO  ",
            &number(open.selected_paths.len() as u128),
            " selected ",
        ),
        directory: display(&open.directory),
        filter: join3("Filter: ", &open.query, "_"),
        list_title: join3(
            " DIRECTORIES AND AUDIO FILES  ",
            &number(count as u128),
            " matches ",
        ),
        items,
        selected: if count == 0 {
            None
        } else {
            Some(open.selected_index - start)
        },
        footer: error_footer(
            status,
            PICKER_KEYS,
        ),
    }
}

/// A pad: the row and the column it stands in, the tone of its border, and its lines.
pub struct Pad {
    pub row: usize,
    pub column: usize,
    pub border: Tone,
    pub lines: Vec<ScreenLine>,
}

/// A page of pads: the title, a hint where there are no sounds, how many columns and rows there
/// are, and the pads.
pub struct PadsScreen {
    pub title: String,
    pub hint: Option<String>,
    pub columns: usize,
    pub rows: usize,
    pub pads: Vec<Pad>,
}

/// How many rows of pads fit in a bordered area of this height; at least one.
pub open spec fn rows_in(height: int) -> int {
    if height < PAD_HEIGHT + 2 {
        1
    } else {
        (height - 2) / (PAD_HEIGHT as int)
    }
}

/// How many rows of pads fit in an area of this height.
pub fn pad_rows(height: u16) -> (rows: usize)
    ensures
        rows == rows_in(height as int),
        rows >= 1,
{
    let rows = height.saturating_sub(2) / PAD_HEIGHT;
    if rows < 1 {
        1
    } else {
        rows as usize
    }
}

/// The first sound of the page on which the selection stands.
pub open spec fn page_start(selected: int, size: int) -> int {
    (selected / size) * size
}

/// How many sounds stand on the page that begins with `start`.
pub open spec fn page_length(start: int, size: int, count: int) -> int {
    if start >= count {
        0
    } else if start + size < count {
        size
    } else {
        count - start
    }
}

/// How many pages there are; at least one.
pub open spec fn page_count(count: int, size: int) -> int {
    if count == 0 {
        1
    } else {
        (count + size - 1) / size
    }
}

/// The digits of a volume, to the right of three places.
pub open spec fn aligned(volume: nat) -> Seq<char> {
    if volume < 10 {
        "  "@ + text::decimal(volume)
    } else if volume < 100 {
        " "@ + text::decimal(volume)
    } else {
        text::decimal(volume)
    }
}

/// The lines of a pad: the sound's name, its volume, and whether it plays.
pub open spec fn pad_lines(sound: Sound, selected: bool, playing: bool) -> Seq<
    Seq<(Seq<char>, Tone)>,
> {
    let tone = if selected {
        Tone::Chosen
    } else {
        Tone::Plain
    };
    seq![
        screen::toned(sound.name@, tone),
        screen::toned("VOL "@ + aligned(sound.volume as nat) + "%"@, tone),
        screen::toned(
            if playing {
                "PLAYING"@
            } else {
                ""@
            },
            Tone::Playing,
        ),
    ]
}

/// The pad at a position of the page, with the sound at `index`.
pub open spec fn pad_shows(pad: Pad, state: App, index: int, position: int, columns: int) -> bool {
    let sound = state.sounds@[index];
    let selected = index == state.selected_index;
    let playing = is_playing(state, sound);
    &&& pad.row == position / columns
    &&& pad.column == position % columns
    &&& pad.border == if playing {
        Tone::Good
    } else if selected {
        Tone::Marked
    } else {
        Tone::Faint
    }
    &&& screen::line_views(pad.lines@) == pad_lines(sound, selected, playing)
}

fn align(volume: u8) -> (text: String)
    ensures
        text@ == aligned(volume as nat),
{
    let digits = number(volume as u128);
    if volume < 10 {
        join2("  ", &digits)
    } else if volume < 100 {
        join2(" ", &digits)
    } else {
        digits
    }
}

fn pad_of(state: &App, index: usize, position: usize, columns: usize) -> (pad: Pad)
    requires
        index < state.sounds@.len(),
        columns >= 1,
    ensures
        pad_shows(pad, *state, index as int, position as int, columns as int),
{
    let sound = &state.sounds[index];
    let selected = index == state.selected_index;
    let playing = plays(state, sound);
    let tone = if selected {
        Tone::Chosen
    } else {
        Tone::Plain
    };
    let mut lines: Vec<ScreenLine> = Vec::new();
    assert(screen::line_views(lines@) =~= Seq::empty());
    put_text(&mut lines, &sound.name, tone);
    put_text(&mut lines, &join3("VOL ", &align(sound.volume), "%"), tone);
    put_text(
        &mut lines,
        if playing {
            "PLAYING"
        } else {
            ""
        },
        Tone::Playing,
    );
    assert(screen::line_views(lines@) =~= pad_lines(*sound, selected, playing));
    Pad {
        row: position / columns,
        column: position % columns,
        border: if playing {
            Tone::Good
        } else if selected {
            Tone::Marked
        } else {
            Tone::Faint
        },
        lines,
    }
}

/// The page of pads on which the selection stands, for an area of this size.
pub fn pads_screen(state: &App, width: u16, height: u16) -> (screen: PadsScreen)
    ensures
        screen.columns == controls::columns_in(width as int),
        screen.rows == rows_in(height as int),
        ({
            let size = screen.columns * screen.rows;
            let start = page_start(state.selected_index as int, size);
            let count = state.sounds@.len() as int;
            &&& screen.title@ == " SOUND PADS  "@ + text::decimal(
                (state.selected_index as int / size + 1) as nat,
            ) + "/"@ + (text::decimal(page_count(count, size) as nat) + " "@)
            &&& screen.pads@.len() == page_length(start, size, count)
            &&& forall|i: int|
                0 <= i < screen.pads@.len() ==> pad_shows(
                    #[trigger] screen.pads@[i],
                    *state,
                    start + i,
                    i,
                    screen.columns as int,
                )
        }),
        path::optional_text(screen.hint) == if state.sounds@.len() == 0 {
            Some("No audio files. Add files to the managed sounds directory."@)
        } else {
            None
        },
{
    let columns = pad_columns(width);
    let rows = pad_rows(height);
    proof {
        page_fits(columns as int, rows as int);
    }
    let size = columns * rows;
    let selected = state.selected_index;
    let count = state.sounds.len();
    proof {
        page_begins_before(selected as int, size as int);
    }
    let start = (selected / size) * size;
    let length = if start >= count {
        0
    } else if count - start > size {
        size
    } else {
        count - start
    };
    let page = number((selected / size) as u128 + 1);
    let pages = if count == 0 {
        number(1)
    } else {
        number((count as u128 + size as u128 - 1) / (size as u128))
    };
    let mut pads: Vec<Pad> = Vec::new();
    let mut i: usize = 0;
    while i < length
        invariant
            i <= length,
            columns >= 1,
            count == state.sounds@.len(),
            start + length <= count || length == 0,
            pads@.len() == i,
            forall|k: int|
                0 <= k < pads@.len() ==> pad_shows(
                    #[trigger] pads@[k],
                    *state,
                    start + k,
                    k,
                    columns as int,
                ),
        decreases length - i,
    {
        pads.push(pad_of(state, start + i, i, columns));
        i += 1;
    }
    PadsScreen {
        title: join4(" SOUND PADS  ", &page, "/", &join2(&pages, " ")),
        hint: if count == 0 {
            Some("No audio files. Add files to the managed sounds directory.".to_owned())
        } else {
            None
        },
        columns,
        rows,
        pads,
    }
}

proof fn page_fits(columns: int, rows: int)
    requires
        1 <= columns <= 4096,
        1 <= rows <= 16384,
    ensures
        1 <= columns * rows <= 67108864,
{
    assert(1 <= columns * rows <= 4096 * 16384) by (nonlinear_arith)
        requires
            1 <= columns <= 4096,
            1 <= rows <= 16384,
    ;
}

proof fn page_begins_before(selected: int, size: int)
    requires
        selected >= 0,
        size >= 1,
    ensures
        0 <= page_start(selected, size) <= selected < page_start(selected, size) + size,
{
    lemma_fundamental_div_mod(selected, size);
    lemma_remainder_upper(selected, size);
    assert(size * (selected / size) == (selected / size) * size) by (nonlinear_arith);
    assert((selected / size) * size >= 0) by (nonlinear_arith)
        requires
            selected >= 0,
            size >= 1,
    ;
}

/// The selected sound stands on the page that is shown.
pub proof fn page_shows_the_selection(selected: int, size: int, count: int)
    requires
        0 <= selected < count,
        size >= 1,
    ensures
        page_start(selected, size) <= selected < page_start(selected, size) + page_length(
            page_start(selected, size),
            size,
            count,
        ),
{
    page_begins_before(selected, size);
}

/// The board of configuration names the sink that sounds go to and whether they are heard locally,
/// and lists every sound with its name, its volume and its file, a star before the one that plays.
pub proof fn configuration_shows_every_sound(
    state: App,
    screen: ConfigurationScreen,
    at: int,
    digits: String,
    file: String,
)
    requires
        call_ensures(configuration_screen, (&state,), screen),
        0 <= at < state.sounds@.len(),
        call_ensures(number, (state.sounds@[at].volume as u128,), digits),
        call_ensures(Sound::file_name, (&state.sounds@[at],), file),
    ensures
        screen.library@.len() == state.sounds@.len(),
        (state.playing_path matches Some(playing) && path::components_in(
            path::path_bytes(playing),
        ) == path::components_in(path::path_bytes(state.sounds@[at].path)))
            ==> screen.library@[at]@ == " * "@ + state.sounds@[at].name@ + "  "@ + digits@
            + "%\n    "@ + file@,
        (state.playing_path is None || path::components_in(
            path::path_bytes(state.playing_path->Some_0),
        ) != path::components_in(path::path_bytes(state.sounds@[at].path)))
            ==> screen.library@[at]@ == "   "@ + state.sounds@[at].name@ + "  "@ + digits@
            + "%\n    "@ + file@,
        state.settings.audio.mix_sink matches Some(sink) ==> screen.header@
            == " CONFIGURATION  AUDIO "@ + sink@ + "  LOCAL MONITOR "@ + (
        if state.settings.local_playback {
            "ON"@
        } else {
            "OFF"@
        }) + " "@,
        state.settings.audio.mix_sink is None ==> screen.header@ == " CONFIGURATION  AUDIO "@
            + "NOT CONFIGURED"@ + "  LOCAL MONITOR "@ + (if state.settings.local_playback {
            "ON"@
        } else {
            "OFF"@
        }) + " "@,
{
    let items = text::views(screen.library@);
    assert(items.len() == screen.library@.len());
    assert(items[at] == screen.library@[at]@);
    let lead = if is_playing(state, state.sounds@[at]) {
        " * "@
    } else {
        "   "@
    };
    assert(screen.library@[at]@ =~= lead + state.sounds@[at].name@ + "  "@ + digits@ + "%\n    "@
        + file@);
    let local = if state.settings.local_playback {
        "ON"@
    } else {
        "OFF"@
    };
    match state.settings.audio.mix_sink {
        Some(sink) => {
            assert(screen.header@ =~= " CONFIGURATION  AUDIO "@ + sink@ + "  LOCAL MONITOR "@
                + local + " "@);
        },
        None => {
            assert(screen.header@ =~= " CONFIGURATION  AUDIO "@ + "NOT CONFIGURED"@
                + "  LOCAL MONITOR "@ + local + " "@);
        },
    }
}

/// A message takes the place of the keys at the bottom, marked as an error where it is one, and has
/// more room than they have; in the picker only an error does.
pub proof fn a_message_takes_the_place_of_the_keys(
    state: App,
    configuration: ConfigurationScreen,
    quick: UseScreen,
    open: FilePicker,
    rows: usize,
    picking: PickerScreen,
)
    requires
        call_ensures(configuration_screen, (&state,), configuration),
        call_ensures(use_screen, (&state,), quick),
        call_ensures(picker_screen, (&open, &state.status_message, rows), picking),
    ensures
        state.status_message matches Some(message) ==> {
            &&& configuration.footer.text@ == message.text@
            &&& quick.footer.text@ == message.text@
            &&& configuration.footer.tone == if message.is_error {
                Tone::Bad
            } else {
                Tone::Good
            }
            &&& quick.footer.tone == configuration.footer.tone
            &&& configuration.footer_height == 5 && quick.footer_height == 4
            &&& path::optional_text(configuration.footer.title) == Some(" STATUS "@)
            &&& path::optional_text(quick.footer.title) == Some(" STATUS "@)
            &&& message.is_error ==> path::optional_text(picking.footer.title) == Some(" ERROR "@)
            &&& message.is_error ==> picking.footer.text@ == message.text@ && picking.footer.tone
                == Tone::Bad
            &&& !message.is_error ==> picking.footer.text@ == PICKER_KEYS@
        },
        state.status_message is None ==> {
            &&& configuration.footer.text@ == CONFIGURATION_KEYS@
            &&& quick.footer.text@ == USE_KEYS@
            &&& picking.footer.text@ == PICKER_KEYS@
            &&& configuration.footer_height == 3 && quick.footer_height == 1
            &&& configuration.footer.title is None && quick.footer.title is None
        },
{
}

/// Quick play shows the query and the sounds that it finds, each with its name and its file, and
/// where the selection stands among them.
pub proof fn quick_play_shows_what_is_found(
    state: App,
    screen: UseScreen,
    found: Vec<&Sound>,
    at: int,
    file: String,
)
    requires
        call_ensures(use_screen, (&state,), screen),
        call_ensures(App::filtered_sounds, (&state,), found),
        0 <= at < found@.len(),
        call_ensures(Sound::file_name, (found@[at],), file),
    ensures
        screen.search@ == "> "@ + state.query@ + "_"@,
        screen.results@.len() == found@.len(),
        screen.results@[at]@ == found@[at].name@ + "  ["@ + file@ + "]"@,
        screen.selected == Some(state.selected_index),
{
    assert(found@.unref().len() == found@.len());
    assert(found@.unref()[at] == *found@[at]);
    let results = text::views(screen.results@);
    assert(results.len() == screen.results@.len());
    assert(results[at] == screen.results@[at]@);
}

/// Where nothing is found nothing is selected.
pub proof fn nothing_found_is_nothing_selected(
    state: App,
    screen: UseScreen,
    found: Vec<&Sound>,
)
    requires
        call_ensures(use_screen, (&state,), screen),
        call_ensures(App::filtered_sounds, (&state,), found),
        found@.len() == 0,
    ensures
        screen.results@.len() == 0,
        screen.selected is None,
{
    assert(found@.unref().len() == found@.len());
    assert(text::views(screen.results@).len() == screen.results@.len());
}

/// A list that fits its window is shown from the start; of a longer one the window shows the
/// selection, in its middle where the list goes on far enough on both sides, and no empty rows.
pub proof fn the_window_follows_the_selection(
    selected: usize,
    count: usize,
    rows: usize,
    start: usize,
)
    requires
        call_ensures(centered_window_start, (selected, count, rows), start),
        selected < count,
        rows >= 1,
    ensures
        count <= rows ==> start == 0,
        start <= selected < start + rows,
        count > rows ==> start + rows <= count,
        selected >= rows / 2 && selected - rows / 2 + rows <= count ==> start == selected - rows
            / 2,
{
}

/// The picker shows the entries around the selection, each as what it is: a directory, or a file
/// with its mark; the selected row is the one of the selected entry.
pub proof fn the_picker_shows_its_entries(
    open: FilePicker,
    status: Option<StatusMessage>,
    rows: usize,
    screen: PickerScreen,
    visible: Vec<&FileEntry>,
    start: usize,
    at: int,
    name: Option<String>,
)
    requires
        call_ensures(picker_screen, (&open, &status, rows), screen),
        call_ensures(FilePicker::visible_entries, (&open,), visible),
        call_ensures(centered_window_start, (open.selected_index, visible.len(), rows), start),
        rows >= 1,
        open.selected_index < visible@.len(),
        start <= at < visible@.len() && at < start + rows,
        call_ensures(display_name, (&visible@[at].path,), name),
        name is Some,
    ensures
        screen.selected is Some && start + screen.selected->Some_0 == open.selected_index,
        at - start < screen.items@.len(),
        screen.items@.len() <= rows,
        visible@[at].is_directory ==> screen.items@[at - start]@ == "  "@ + name->Some_0@ + "/"@,
        !visible@[at].is_directory && picker::is_marked(open.selected_paths@, visible@[at].path)
            ==> screen.items@[at - start]@ == "[x] "@ + name->Some_0@,
        !visible@[at].is_directory && !picker::is_marked(open.selected_paths@, visible@[at].path)
            ==> screen.items@[at - start]@ == "[ ] "@ + name->Some_0@,
        screen.directory@ == path::path_text(open.directory),
        screen.filter@ == "Filter: "@ + open.query@ + "_"@,
{
    assert(visible@.unref().len() == visible@.len());
    assert(visible.len() == visible@.len());
    assert(visible@.unref()[at] == *visible@[at]);
    let items = text::views(screen.items@);
    assert(items.len() == screen.items@.len());
    let shown = window_of(open, rows as int);
    assert(shown[at - start] == *visible@[at]);
    assert(items[at - start] == screen.items@[at - start]@);
    picker::lemma_place_of(open.selected_paths@, visible@[at].path);
    let place = picker::place_of(open.selected_paths@, visible@[at].path);
    if place < open.selected_paths@.len() {
        assert(path::same_components(
            path::path_bytes(open.selected_paths@[place]),
            path::path_bytes(visible@[at].path),
        ));
    }
}

/// The titles of the picker count the marked files and the visible entries.
pub proof fn the_picker_counts(
    open: FilePicker,
    status: Option<StatusMessage>,
    rows: usize,
    screen: PickerScreen,
    count: usize,
    digits: (String, String),
)
    requires
        call_ensures(picker_screen, (&open, &status, rows), screen),
        call_ensures(FilePicker::visible_entry_count, (&open,), count),
        call_ensures(number, (open.selected_paths.len() as u128,), digits.0),
        call_ensures(number, (count as u128,), digits.1),
    ensures
        screen.title@ == " ADD AUDIO  "@ + digits.0@ + " selected "@,
        screen.list_title@ == " DIRECTORIES AND AUDIO FILES  "@ + digits.1@ + " matches "@,
        screen.selected is None <==> count == 0,
{
}

/// As many rows of pads fit as the height has room for inside the border, at five lines each, and at
/// least one; a bordered list has all rows but the two of its border, and at least one.
pub proof fn rows_fit_the_height(height: u16, rows: usize, listed: usize)
    requires
        call_ensures(pad_rows, (height,), rows),
        call_ensures(list_rows, (height,), listed),
    ensures
        rows >= 1 && listed >= 1,
        height >= 7 ==> rows * 5 + 2 <= height < (rows + 1) * 5 + 2,
        height < 7 ==> rows == 1,
        height > 3 ==> listed == height - 2,
        height <= 3 ==> listed == 1,
{
}

/// The page of pads on which the selection stands is shown: the selected sound has its pad there,
/// marked as selected, with its name and its volume, and every pad tells whether its sound plays.
pub proof fn the_page_of_the_selection_is_shown(
    state: App,
    width: u16,
    height: u16,
    screen: PadsScreen,
    columns: usize,
    rows: usize,
    at: int,
)
    requires
        call_ensures(pads_screen, (&state, width, height), screen),
        call_ensures(pad_columns, (width,), columns),
        call_ensures(pad_rows, (height,), rows),
        state.selected_index < state.sounds@.len(),
        0 <= at < screen.pads@.len(),
        columns * rows >= 1,
    ensures
        screen.columns == columns && screen.rows == rows,
        screen.hint is None,
        screen.pads@.len() <= columns * rows,
        ({
            let size = columns * rows;
            let start = (state.selected_index as int / size) * size;
            let sound = state.sounds@[start + at];
            let playing = state.playing_path matches Some(path) && path::components_in(
                path::path_bytes(path),
            ) == path::components_in(path::path_bytes(sound.path));
            let selected = start + at == state.selected_index;
            let pad = screen.pads@[at];
            &&& start <= state.selected_index < start + screen.pads@.len()
            &&& start + at < state.sounds@.len()
            &&& pad.row * columns + pad.column == at
            &&& pad.column < columns
            &&& pad.lines@.len() == 3
            &&& pad.lines@[0]@ == seq![
                (
                    sound.name@,
                    if selected {
                        Tone::Chosen
                    } else {
                        Tone::Plain
                    },
                ),
            ]
            &&& playing ==> pad.border == Tone::Good && pad.lines@[2]@ == seq![
                ("PLAYING"@, Tone::Playing),
            ]
            &&& !playing && selected ==> pad.border == Tone::Marked
            &&& !playing && !selected ==> pad.border == Tone::Faint
            &&& !playing ==> pad.lines@[2]@ == seq![(""@, Tone::Playing)]
        }),
{
    let size = columns * rows;
    let start = page_start(state.selected_index as int, size);
    page_shows_the_selection(state.selected_index as int, size, state.sounds@.len() as int);
    page_begins_before(state.selected_index as int, size);
    let pad = screen.pads@[at];
    assert(pad_shows(pad, state, start + at, at, columns as int));
    let views = screen::line_views(pad.lines@);
    assert(views.len() == pad.lines@.len());
    assert(views[0] == pad.lines@[0]@);
    assert(views[2] == pad.lines@[2]@);
    assert(columns >= 1);
    lemma_fundamental_div_mod(at, columns as int);
    lemma_remainder_upper(at, columns as int);
    vstd::arithmetic::div_mod::lemma_mod_bound(at, columns as int);
    assert((columns as int) * (at / (columns as int)) == (at / (columns as int)) * (
    columns as int)) by (nonlinear_arith);
}

/// A pad shows the volume of its sound in per cent, to the right of three places.
pub proof fn a_pad_shows_its_volume(
    state: App,
    width: u16,
    height: u16,
    screen: PadsScreen,
    size: int,
    at: int,
    digits: String,
)
    requires
        call_ensures(pads_screen, (&state, width, height), screen),
        size == screen.columns * screen.rows,
        0 <= at < screen.pads@.len(),
        call_ensures(
            number,
            (state.sounds@[page_start(state.selected_index as int, size) + at].volume as u128,),
            digits,
        ),
    ensures
        screen.pads@[at].lines@.len() == 3,
        ({
            let volume = state.sounds@[page_start(state.selected_index as int, size) + at].volume;
            let shown = screen.pads@[at].lines@[1]@[0].0;
            &&& screen.pads@[at].lines@[1]@.len() == 1
            &&& volume < 10 ==> shown == "VOL "@ + ("  "@ + digits@) + "%"@
            &&& 10 <= volume < 100 ==> shown == "VOL "@ + (" "@ + digits@) + "%"@
            &&& volume >= 100 ==> shown == "VOL "@ + digits@ + "%"@
        }),
{
    let start = page_start(state.selected_index as int, size);
    let pad = screen.pads@[at];
    assert(pad_shows(pad, state, start + at, at, screen.columns as int));
    let views = screen::line_views(pad.lines@);
    assert(views.len() == pad.lines@.len());
    assert(views[1] == pad.lines@[1]@);
}

/// Without sounds there is no pad, but a hint how to get some; the title tells the page and how many
/// pages there are, with room for every sound.
pub proof fn the_pages_hold_every_sound(
    state: App,
    width: u16,
    height: u16,
    screen: PadsScreen,
    size: int,
    page: nat,
    pages: nat,
)
    requires
        call_ensures(pads_screen, (&state, width, height), screen),
        size == screen.columns * screen.rows,
        size >= 1,
        page == state.selected_index as int / size + 1,
        pages == page_count(state.sounds@.len() as int, size),
    ensures
        screen.hint is Some <==> state.sounds@.len() == 0,
        state.sounds@.len() == 0 ==> screen.pads@.len() == 0,
        screen.title@ == " SOUND PADS  "@ + text::decimal(page) + "/"@ + (text::decimal(pages)
            + " "@),
        pages >= 1,
        state.sounds@.len() <= pages * size,
        state.sounds@.len() > 0 ==> (pages - 1) * size < state.sounds@.len(),
{
    let count = state.sounds@.len() as int;
    page_begins_before(state.selected_index as int, size);
    if count > 0 {
        let sum = count + size - 1;
        lemma_fundamental_div_mod(sum, size);
        lemma_remainder_upper(sum, size);
        vstd::arithmetic::div_mod::lemma_mod_bound(sum, size);
        assert(pages == sum / size);
        assert(size * (sum / size) == pages * size) by (nonlinear_arith)
            requires
                pages == sum / size,
        ;
        assert((pages - 1) * size == pages * size - size) by (nonlinear_arith);
        assert(pages >= 1) by (nonlinear_arith)
            requires
                pages * size >= sum - size + 1,
                sum >= size,
                size >= 1,
        ;
    }
}

} // verus!
