//! Lines on the screen, and the dialogs that are made of them, without their layout.

use std::path::PathBuf;

use vstd::prelude::*;

use crate::app::{DeleteConfirmation, StatusMessage};
use crate::audio::{AudioNode, MANAGED_SOURCE_NAME};
use crate::editor::{MetadataEditor, MetadataField};
use crate::failure::Failure;
use crate::path;
use crate::path::display;
use crate::setup::{AudioSetup, AudioSetupStep};
use crate::text;
use crate::text::{join2, join3, join4, lines, number};

verus! {

/// How a text looks.
#[derive(Clone, Copy, Debug, PartialEq, Eq, Structural)]
pub enum Tone {
    Plain,
    Good,
    Bad,
    Faint,
    /// A selected choice.
    Chosen,
    /// The field that is edited.
    Active,
    /// The border of the selected pad.
    Marked,
    /// A sound that plays.
    Playing,
}

/// A piece of a line.
pub struct Piece {
    pub text: String,
    pub tone: Tone,
}

/// A line.
pub struct ScreenLine {
    pub pieces: Vec<Piece>,
}

impl View for ScreenLine {
    type V = Seq<(Seq<char>, Tone)>;

    open spec fn view(&self) -> Seq<(Seq<char>, Tone)> {
        self.pieces@.map_values(|piece: Piece| (piece.text@, piece.tone))
    }
}

/// A dialog: its title and its lines.
pub struct DialogScreen {
    pub title: String,
    pub lines: Vec<ScreenLine>,
}

/// The lines by their pieces.
pub open spec fn line_views(lines: Seq<ScreenLine>) -> Seq<Seq<(Seq<char>, Tone)>> {
    lines.map_values(|line: ScreenLine| line@)
}

/// A line of one piece.
pub open spec fn toned(text: Seq<char>, tone: Tone) -> Seq<(Seq<char>, Tone)> {
    seq![(text, tone)]
}

/// A line of one plain piece.
pub open spec fn plain(text: Seq<char>) -> Seq<(Seq<char>, Tone)> {
    toned(text, Tone::Plain)
}

/// A line of two pieces.
pub open spec fn paired(
    first: Seq<char>,
    first_tone: Tone,
    second: Seq<char>,
    second_tone: Tone,
) -> Seq<(Seq<char>, Tone)> {
    seq![(first, first_tone), (second, second_tone)]
}

/// The line that tells whether something works.
pub open spec fn status_of(label: Seq<char>, error: Option<Seq<char>>) -> Seq<(Seq<char>, Tone)> {
    match error {
        Some(error) => paired("[FAIL] "@ + label + ": "@, Tone::Bad, error, Tone::Plain),
        None => toned("[ OK ] "@ + label, Tone::Good),
    }
}

/// The line of a choice.
pub open spec fn choice_of(text: Seq<char>, selected: bool) -> Seq<(Seq<char>, Tone)> {
    if selected {
        toned("> "@ + text, Tone::Chosen)
    } else {
        toned("  "@ + text, Tone::Plain)
    }
}

/// The lines of choices, the first of which has the place `first`.
pub open spec fn choices_of(labels: Seq<Seq<char>>, selected: int, first: int) -> Seq<
    Seq<(Seq<char>, Tone)>,
> {
    Seq::new(labels.len(), |i: int| choice_of(labels[i], selected == first + i))
}

/// A node by its description and its name.
pub open spec fn node_label(node: AudioNode) -> Seq<char> {
    node.description@ + " ("@ + node.name@ + ")"@
}

/// The labels of nodes, each behind the same text.
pub open spec fn node_labels(nodes: Seq<AudioNode>, lead: Seq<char>) -> Seq<Seq<char>> {
    nodes.map_values(|node: AudioNode| lead + node_label(node))
}

fn one_piece(text: &str, tone: Tone) -> (line: ScreenLine)
    ensures
        line@ == toned(text@, tone),
{
    let mut pieces: Vec<Piece> = Vec::new();
    pieces.push(Piece { text: text.to_owned(), tone });
    let line = ScreenLine { pieces };
    assert(line@ =~= toned(text@, tone));
    line
}

fn two_pieces(first: &str, first_tone: Tone, second: &str, second_tone: Tone) -> (line: ScreenLine)
    ensures
        line@ == paired(first@, first_tone, second@, second_tone),
{
    let mut pieces: Vec<Piece> = Vec::new();
    pieces.push(Piece { text: first.to_owned(), tone: first_tone });
    pieces.push(Piece { text: second.to_owned(), tone: second_tone });
    let line = ScreenLine { pieces };
    assert(line@ =~= paired(first@, first_tone, second@, second_tone));
    line
}

/// The line that tells whether something works: the error of what does not, or that it does.
pub fn status_line(label: &str, error: Option<&str>) -> (line: ScreenLine)
    ensures
        line@ == status_of(
            label@,
            match error {
                Some(error) => Some(error@),
                None => None,
            },
        ),
{
    match error {
        Some(error) => two_pieces(&join3("[FAIL] ", label, ": "), Tone::Bad, error, Tone::Plain),
        None => one_piece(&join2("[ OK ] ", label), Tone::Good),
    }
}

/// The line of a choice.
pub fn selectable_line(selected: bool, text: &str) -> (line: ScreenLine)
    ensures
        line@ == choice_of(text@, selected),
{
    if selected {
        one_piece(&join2("> ", text), Tone::Chosen)
    } else {
        one_piece(&join2("  ", text), Tone::Plain)
    }
}

fn put(lines: &mut Vec<ScreenLine>, line: ScreenLine)
    ensures
        line_views(final(lines)@) == line_views(old(lines)@).push(line@),
{
    lines.push(line);
    assert(line_views(lines@) =~= line_views(old(lines)@).push(line@));
}

pub(crate) fn put_text(lines: &mut Vec<ScreenLine>, text: &str, tone: Tone)
    ensures
        line_views(final(lines)@) == line_views(old(lines)@).push(toned(text@, tone)),
{
    put(lines, one_piece(text, tone));
}

fn put_choices(lines: &mut Vec<ScreenLine>, labels: &Vec<String>, selected: usize, first: usize)
    ensures
        line_views(final(lines)@) == line_views(old(lines)@) + choices_of(
            text::views(labels@),
            selected as int,
            first as int,
        ),
{
    let ghost all = choices_of(text::views(labels@), selected as int, first as int);
    let ghost start = line_views(lines@);
    let mut i: usize = 0;
    assert(start + all.take(0) =~= start);
    while i < labels.len()
        invariant
            i <= labels@.len(),
            all == choices_of(text::views(labels@), selected as int, first as int),
            line_views(lines@) == start + all.take(i as int),
        decreases labels@.len() - i,
    {
        put(lines, selectable_line(selected >= first && selected - first == i, &labels[i]));
        assert(all[i as int] == choice_of(labels@[i as int]@, selected == first + i));
        assert(start + all.take(i + 1) =~= (start + all.take(i as int)).push(all[i as int]));
        i += 1;
    }
    assert(all.take(i as int) =~= all);
}

fn labels_of(nodes: &Vec<AudioNode>) -> (labels: Vec<String>)
    ensures
        text::views(labels@) == node_labels(nodes@, Seq::empty()),
{
    let mut labels: Vec<String> = Vec::new();
    let mut i: usize = 0;
    while i < nodes.len()
        invariant
            i <= nodes@.len(),
            text::views(labels@) == node_labels(nodes@, Seq::empty()).take(i as int),
        decreases nodes@.len() - i,
    {
        let ghost before = text::views(labels@);
        let label = join4(&nodes[i].description, " (", &nodes[i].name, ")");
        assert(Seq::<char>::empty() + label@ =~= label@);
        labels.push(label);
        assert(text::views(labels@) =~= before.push(label@));
        assert(node_labels(nodes@, Seq::empty()).take(i + 1) =~= node_labels(
            nodes@,
            Seq::empty(),
        ).take(i as int).push(label@));
        i += 1;
    }
    assert(node_labels(nodes@, Seq::empty()).take(i as int) =~= node_labels(nodes@, Seq::empty()));
    labels
}

fn existing_labels(setup: &AudioSetup) -> (labels: Vec<String>)
    ensures
        text::views(labels@) == node_labels(setup.virtual_choices(), "Use existing: "@),
{
    let nodes = setup.virtual_sinks();
    let ghost choices = setup.virtual_choices();
    let ghost all = node_labels(choices, "Use existing: "@);
    assert(nodes@.unref().len() == nodes@.len());
    let mut labels: Vec<String> = Vec::new();
    let mut i: usize = 0;
    while i < nodes.len()
        invariant
            i <= nodes@.len(),
            nodes@.unref() == choices,
            choices.len() == nodes@.len(),
            all == node_labels(choices, "Use existing: "@),
            text::views(labels@) == all.take(i as int),
        decreases nodes@.len() - i,
    {
        let ghost before = text::views(labels@);
        assert(choices[i as int] == *nodes@[i as int]);
        let label = join2(
            "Use existing: ",
            &join4(&nodes[i].description, " (", &nodes[i].name, ")"),
        );
        labels.push(label);
        assert(text::views(labels@) =~= before.push(label@));
        assert(all[i as int] == label@);
        assert(all.take(i + 1) =~= all.take(i as int).push(label@));
        i += 1;
    }
    assert(all.take(i as int) =~= all);
    labels
}

/// The title of the setup.
pub open spec fn setup_title(step: AudioSetupStep) -> Seq<char> {
    match step {
        AudioSetupStep::Diagnostics => " AUDIO DIAGNOSTICS "@,
        AudioSetupStep::Destination => " SELECT AUDIO DESTINATION "@,
        AudioSetupStep::VirtualSource => " SELECT VIRTUAL MICROPHONE "@,
        AudioSetupStep::PhysicalSource => " SELECT PHYSICAL MICROPHONE "@,
        AudioSetupStep::ConfirmCreation => " CONFIRM VIRTUAL MICROPHONE "@,
    }
}

/// The lines of the setup's first step: what works, and what was found.
pub open spec fn diagnostics_lines(setup: AudioSetup) -> Seq<Seq<(Seq<char>, Tone)>> {
    seq![
        status_of("PipeWire"@, path::optional_text(setup.diagnostics.pipewire_error)),
        status_of("pipewire-pulse"@, path::optional_text(setup.diagnostics.pulse_error)),
        status_of("mpv"@, path::optional_text(setup.diagnostics.mpv_error)),
        plain(""@),
        plain(
            "Detected: "@ + text::decimal(
                setup.diagnostics.inventory.physical_sources@.len() as nat,
            ) + " physical microphone(s), "@ + (text::decimal(setup.virtual_choices().len())
                + " virtual sink(s)"@),
        ),
        plain(""@),
        plain("Enter  Continue    r  Run diagnostics again    Esc  Close/Exit"@),
    ]
}

/// A line that stands only where there is nothing to choose from.
pub open spec fn unless_any(count: int, text: Seq<char>, tone: Tone) -> Seq<
    Seq<(Seq<char>, Tone)>,
> {
    if count == 0 {
        seq![toned(text, tone)]
    } else {
        Seq::empty()
    }
}

/// The lines of the choice of a destination.
pub open spec fn destination_lines(setup: AudioSetup) -> Seq<Seq<(Seq<char>, Tone)>> {
    seq![choice_of("Create Soundboard TUI virtual microphone"@, setup.selected_index == 0)]
        + choices_of(
        node_labels(setup.virtual_choices(), "Use existing: "@),
        setup.selected_index as int,
        1,
    ) + unless_any(
        setup.virtual_choices().len() as int,
        "No existing virtual sinks detected."@,
        Tone::Faint,
    ) + seq![plain(""@), plain("Up/Down  Select    Enter  Confirm    Esc  Close/Exit"@)]
}

/// The lines of the choice of a virtual microphone.
pub open spec fn virtual_source_lines(setup: AudioSetup) -> Seq<Seq<(Seq<char>, Tone)>> {
    choices_of(
        node_labels(setup.compatible_sources@, Seq::empty()),
        setup.selected_index as int,
        0,
    ) + unless_any(
        setup.compatible_sources@.len() as int,
        "No virtual microphone sources detected."@,
        Tone::Bad,
    ) + seq![
        plain(""@),
        plain("Choose the microphone source exposed to Discord or another voice app."@),
        plain("Up/Down  Select    Enter  Confirm    Esc  Close"@),
    ]
}

/// The lines of the choice of a physical microphone.
pub open spec fn physical_source_lines(setup: AudioSetup) -> Seq<Seq<(Seq<char>, Tone)>> {
    choices_of(
        node_labels(setup.diagnostics.inventory.physical_sources@, Seq::empty()),
        setup.selected_index as int,
        0,
    ) + seq![
        plain(""@),
        plain("This microphone will be mixed with soundboard audio."@),
        plain("Up/Down  Select    Enter  Continue    Esc  Close/Exit"@),
    ]
}

/// Where the managed configuration stands, or why that is not known.
pub open spec fn config_text(config_path: Result<PathBuf, Failure>) -> Seq<char> {
    match config_path {
        Ok(config_path) => path::path_text(config_path),
        Err(failure) => "unavailable: "@ + failure.message@,
    }
}

/// The lines of the confirmation: what the creation of the managed mix does.
pub open spec fn creation_lines(setup: AudioSetup, config_path: Result<PathBuf, Failure>) -> Seq<
    Seq<(Seq<char>, Tone)>,
> {
    seq![
        plain("The application will:"@),
        plain("  Create "@ + config_text(config_path)),
        plain(
            "  Mix "@ + (match setup.selected_source {
                Some(source) => source@,
                None => "unknown source"@,
            }) + " with soundboard audio"@,
        ),
        plain("  Restart the user pipewire-pulse service"@),
        plain(""@),
        plain(
            "Select "@ + MANAGED_SOURCE_NAME@
                + " as your microphone in Discord or another voice app."@,
        ),
        plain(""@),
        plain("Enter  Create and connect    Esc  Cancel"@),
    ]
}

/// The lines of the setup's step.
pub open spec fn step_lines(setup: AudioSetup, config_path: Result<PathBuf, Failure>) -> Seq<
    Seq<(Seq<char>, Tone)>,
> {
    match setup.step {
        AudioSetupStep::Diagnostics => diagnostics_lines(setup),
        AudioSetupStep::Destination => destination_lines(setup),
        AudioSetupStep::VirtualSource => virtual_source_lines(setup),
        AudioSetupStep::PhysicalSource => physical_source_lines(setup),
        AudioSetupStep::ConfirmCreation => creation_lines(setup, config_path),
    }
}

/// The line that offers to remove the managed mix, where it is in use.
pub open spec fn removal_lines(managed_mix: bool) -> Seq<Seq<(Seq<char>, Tone)>> {
    if managed_mix {
        seq![toned("x  Remove the managed virtual microphone"@, Tone::Bad)]
    } else {
        Seq::empty()
    }
}

/// The lines of an error, under an empty one.
pub open spec fn error_lines(error: Option<Seq<char>>) -> Seq<Seq<(Seq<char>, Tone)>> {
    match error {
        Some(error) => seq![plain(""@)] + text::lines_of(error).map_values(
            |line: Seq<char>| toned(line, Tone::Bad),
        ),
        None => Seq::empty(),
    }
}

fn put_step(lines: &mut Vec<ScreenLine>, setup: &AudioSetup, config_path: &Result<PathBuf, Failure>)
    requires
        old(lines)@.len() == 0,
    ensures
        line_views(final(lines)@) == step_lines(*setup, *config_path),
{
    assert(line_views(lines@) =~= Seq::empty());
    match setup.step {
        AudioSetupStep::Diagnostics => {
            put(lines, status_line("PipeWire", optional_str(&setup.diagnostics.pipewire_error)));
            put(
                lines,
                status_line("pipewire-pulse", optional_str(&setup.diagnostics.pulse_error)),
            );
            put(lines, status_line("mpv", optional_str(&setup.diagnostics.mpv_error)));
            put_text(lines, "", Tone::Plain);
            let sinks = setup.virtual_sinks();
            assert(sinks@.unref().len() == sinks@.len());
            let microphones = number(
                setup.diagnostics.inventory.physical_sources.len() as u128,
            );
            let rest = join2(&number(sinks.len() as u128), " virtual sink(s)");
            put_text(
                lines,
                &join4("Detected: ", &microphones, " physical microphone(s), ", &rest),
                Tone::Plain,
            );
            put_text(lines, "", Tone::Plain);
            put_text(
                lines,
                "Enter  Continue    r  Run diagnostics again    Esc  Close/Exit",
                Tone::Plain,
            );
        },
        AudioSetupStep::Destination => {
            put(
                lines,
                selectable_line(
                    setup.selected_index == 0,
                    "Create Soundboard TUI virtual microphone",
                ),
            );
            let labels = existing_labels(setup);
            assert(text::views(labels@).len() == labels@.len());
            put_choices(lines, &labels, setup.selected_index, 1);
            if labels.len() == 0 {
                put_text(lines, "No existing virtual sinks detected.", Tone::Faint);
            }
            put_text(lines, "", Tone::Plain);
            put_text(
                lines,
                "Up/Down  Select    Enter  Confirm    Esc  Close/Exit",
                Tone::Plain,
            );
            assert(line_views(lines@) =~= destination_lines(*setup));
        },
        AudioSetupStep::VirtualSource => {
            let labels = labels_of(&setup.compatible_sources);
            assert(text::views(labels@).len() == labels@.len());
            put_choices(lines, &labels, setup.selected_index, 0);
            if labels.len() == 0 {
                put_text(lines, "No virtual microphone sources detected.", Tone::Bad);
            }
            put_text(lines, "", Tone::Plain);
            put_text(
                lines,
                "Choose the microphone source exposed to Discord or another voice app.",
                Tone::Plain,
            );
            put_text(lines, "Up/Down  Select    Enter  Confirm    Esc  Close", Tone::Plain);
            assert(line_views(lines@) =~= virtual_source_lines(*setup));
        },
        AudioSetupStep::PhysicalSource => {
            let labels = labels_of(&setup.diagnostics.inventory.physical_sources);
            put_choices(lines, &labels, setup.selected_index, 0);
            put_text(lines, "", Tone::Plain);
            put_text(
                lines,
                "This microphone will be mixed with soundboard audio.",
                Tone::Plain,
            );
            put_text(
                lines,
                "Up/Down  Select    Enter  Continue    Esc  Close/Exit",
                Tone::Plain,
            );
            assert(line_views(lines@) =~= physical_source_lines(*setup));
        },
        AudioSetupStep::ConfirmCreation => {
            let config = match config_path {
                Ok(config_path) => display(config_path),
                Err(failure) => join2("unavailable: ", &failure.message),
            };
            let source = match &setup.selected_source {
                Some(source) => source.as_str(),
                None => "unknown source",
            };
            put_text(lines, "The application will:", Tone::Plain);
            put_text(lines, &join2("  Create ", &config), Tone::Plain);
            put_text(lines, &join3("  Mix ", source, " with soundboard audio"), Tone::Plain);
            put_text(lines, "  Restart the user pipewire-pulse service", Tone::Plain);
            put_text(lines, "", Tone::Plain);
            put_text(
                lines,
                &join3(
                    "Select ",
                    MANAGED_SOURCE_NAME,
                    " as your microphone in Discord or another voice app.",
                ),
                Tone::Plain,
            );
            put_text(lines, "", Tone::Plain);
            put_text(lines, "Enter  Create and connect    Esc  Cancel", Tone::Plain);
        },
    }
}

fn optional_str(text: &Option<String>) -> (result: Option<&str>)
    ensures
        path::optional_text(*text) == match result {
            Some(result) => Some(result@),
            None => None::<Seq<char>>,
        },
{
    match text {
        Some(text) => Some(text.as_str()),
        None => None,
    }
}

fn put_error(screen: &mut Vec<ScreenLine>, error: &str)
    ensures
        line_views(final(screen)@) == line_views(old(screen)@) + error_lines(Some(error@)),
{
    put_text(screen, "", Tone::Plain);
    let ghost start = line_views(screen@);
    let ghost all = text::lines_of(error@).map_values(|line: Seq<char>| toned(line, Tone::Bad));
    let texts = lines(error);
    let mut i: usize = 0;
    assert(text::views(texts@).len() == texts@.len());
    assert(start + all.take(0) =~= start);
    while i < texts.len()
        invariant
            i <= texts@.len(),
            text::views(texts@) == text::lines_of(error@),
            text::views(texts@).len() == texts@.len(),
            all == text::lines_of(error@).map_values(|line: Seq<char>| toned(line, Tone::Bad)),
            line_views(screen@) == start + all.take(i as int),
        decreases texts@.len() - i,
    {
        put_text(screen, &texts[i], Tone::Bad);
        assert(text::views(texts@)[i as int] == texts@[i as int]@);
        assert(start + all.take(i + 1) =~= (start + all.take(i as int)).push(all[i as int]));
        i += 1;
    }
    assert(all.take(i as int) =~= all);
    assert(line_views(screen@) =~= line_views(old(screen)@) + error_lines(Some(error@)));
}

/// The setup: `managed_mix` tells whether the managed mix is in use, `config_path` where the
/// managed configuration stands.
pub fn setup_screen(
    setup: &AudioSetup,
    managed_mix: bool,
    config_path: &Result<PathBuf, Failure>,
) -> (screen: DialogScreen)
    ensures
        screen.title@ == setup_title(setup.step),
        line_views(screen.lines@) == step_lines(*setup, *config_path) + removal_lines(managed_mix)
            + error_lines(path::optional_text(setup.error)),
{
    let mut lines: Vec<ScreenLine> = Vec::new();
    let title = match setup.step {
        AudioSetupStep::Diagnostics => " AUDIO DIAGNOSTICS ",
        AudioSetupStep::Destination => " SELECT AUDIO DESTINATION ",
        AudioSetupStep::VirtualSource => " SELECT VIRTUAL MICROPHONE ",
        AudioSetupStep::PhysicalSource => " SELECT PHYSICAL MICROPHONE ",
        AudioSetupStep::ConfirmCreation => " CONFIRM VIRTUAL MICROPHONE ",
    };
    put_step(&mut lines, setup, config_path);
    if managed_mix {
        put_text(&mut lines, "x  Remove the managed virtual microphone", Tone::Bad);
    }
    assert(line_views(lines@) =~= step_lines(*setup, *config_path) + removal_lines(managed_mix));
    match &setup.error {
        Some(error) => put_error(&mut lines, error),
        None => {
            assert(line_views(lines@) + error_lines(None) =~= line_views(lines@));
        },
    }
    DialogScreen { title: title.to_owned(), lines }
}

/// How a text of the editor looks.
pub open spec fn field_tone(active: bool) -> Tone {
    if active {
        Tone::Active
    } else {
        Tone::Plain
    }
}

/// The last line of the editor: the error that is shown, or the keys.
pub open spec fn editor_hint(status: Option<StatusMessage>) -> Seq<(Seq<char>, Tone)> {
    match status {
        Some(status) => if status.is_error {
            toned(status.text@, Tone::Bad)
        } else {
            plain("Tab/Up/Down  Field    Ctrl+u  Clear    Enter  Save    Esc  Cancel"@)
        },
        None => plain("Tab/Up/Down  Field    Ctrl+u  Clear    Enter  Save    Esc  Cancel"@),
    }
}

/// The editor of a sound's metadata.
pub fn editor_screen(editor: &MetadataEditor, status: &Option<StatusMessage>) -> (screen:
    DialogScreen)
    ensures
        screen.title@ == " EDIT AUDIO "@,
        line_views(screen.lines@) == seq![
            paired(
                "Name:    "@,
                Tone::Plain,
                editor.name@ + "_"@,
                field_tone(editor.field == MetadataField::Name),
            ),
            plain(""@),
            paired(
                "Aliases: "@,
                Tone::Plain,
                editor.aliases@ + "_"@,
                field_tone(editor.field == MetadataField::Aliases),
            ),
            plain("         Separate aliases with commas."@),
            plain(""@),
            editor_hint(*status),
        ],
{
    let (name_tone, aliases_tone) = match editor.field {
        MetadataField::Name => (Tone::Active, Tone::Plain),
        MetadataField::Aliases => (Tone::Plain, Tone::Active),
    };
    let error = match status {
        Some(status) => if status.is_error {
            Some(status.text.as_str())
        } else {
            None
        },
        None => None,
    };
    let mut lines: Vec<ScreenLine> = Vec::new();
    assert(line_views(lines@) =~= Seq::empty());
    put(
        &mut lines,
        two_pieces("Name:    ", Tone::Plain, &join2(&editor.name, "_"), name_tone),
    );
    put_text(&mut lines, "", Tone::Plain);
    put(
        &mut lines,
        two_pieces("Aliases: ", Tone::Plain, &join2(&editor.aliases, "_"), aliases_tone),
    );
    put_text(&mut lines, "         Separate aliases with commas.", Tone::Plain);
    put_text(&mut lines, "", Tone::Plain);
    match error {
        Some(error) => put_text(&mut lines, error, Tone::Bad),
        None => put_text(
            &mut lines,
            "Tab/Up/Down  Field    Ctrl+u  Clear    Enter  Save    Esc  Cancel",
            Tone::Plain,
        ),
    }
    DialogScreen { title: " EDIT AUDIO ".to_owned(), lines }
}

/// The confirmation of a deletion.
pub fn confirmation_screen(confirmation: &DeleteConfirmation) -> (screen: DialogScreen)
    ensures
        screen.title@ == " CONFIRM DELETE "@,
        line_views(screen.lines@) == seq![
            plain("Delete '"@ + confirmation.name@ + "' permanently?"@),
            toned(path::path_text(confirmation.path), Tone::Faint),
            plain("Enter/y  Delete    Esc/n  Cancel"@),
        ],
{
    let mut lines: Vec<ScreenLine> = Vec::new();
    assert(line_views(lines@) =~= Seq::empty());
    put_text(
        &mut lines,
        &join3("Delete '", &confirmation.name, "' permanently?"),
        Tone::Plain,
    );
    put_text(&mut lines, &display(&confirmation.path), Tone::Faint);
    put_text(&mut lines, "Enter/y  Delete    Esc/n  Cancel", Tone::Plain);
    DialogScreen { title: " CONFIRM DELETE ".to_owned(), lines }
}

/// Of the choices of a step exactly the selected one is marked, and each choice stands in its line
/// by its description and its name: the creation and the virtual sinks, the microphones of the sink,
/// the physical microphones.
pub proof fn the_selected_choice_is_marked(
    setup: AudioSetup,
    managed_mix: bool,
    config_path: Result<PathBuf, Failure>,
    screen: DialogScreen,
    sinks: Vec<&AudioNode>,
    at: int,
)
    requires
        call_ensures(setup_screen, (&setup, managed_mix, &config_path), screen),
        call_ensures(AudioSetup::virtual_sinks, (&setup,), sinks),
        at >= 0,
    ensures
        ({
            let lead = if setup.selected_index == at {
                "> "@
            } else {
                "  "@
            };
            let tone = if setup.selected_index == at {
                Tone::Chosen
            } else {
                Tone::Plain
            };
            let nodes = if setup.step == AudioSetupStep::VirtualSource {
                setup.compatible_sources@
            } else {
                setup.diagnostics.inventory.physical_sources@
            };
            &&& setup.step == AudioSetupStep::Destination && at == 0 ==> screen.lines@.len() > 0
                && screen.lines@[0]@ == seq![
                (lead + "Create Soundboard TUI virtual microphone"@, tone),
            ]
            &&& setup.step == AudioSetupStep::Destination && 0 < at <= sinks@.len()
                ==> screen.lines@.len() > at && screen.lines@[at]@ == seq![
                (
                    lead + ("Use existing: "@ + (sinks@[at - 1].description@ + " ("@ + sinks@[at
                        - 1].name@ + ")"@)),
                    tone,
                ),
            ]
            &&& (setup.step == AudioSetupStep::VirtualSource || setup.step
                == AudioSetupStep::PhysicalSource) && at < nodes.len() ==> screen.lines@.len() > at
                && screen.lines@[at]@ == seq![
                (lead + (nodes[at].description@ + " ("@ + nodes[at].name@ + ")"@), tone),
            ]
        }),
{
    let views = line_views(screen.lines@);
    assert(views.len() == screen.lines@.len());
    let step = step_lines(setup, config_path);
    assert(at < step.len() ==> views[at] == step[at]);
    assert(at < views.len() ==> views[at] == screen.lines@[at]@);
    assert(sinks@.unref().len() == sinks@.len());
    if 0 < at <= sinks@.len() {
        assert(sinks@.unref()[at - 1] == *sinks@[at - 1]);
    }
    let nodes = if setup.step == AudioSetupStep::VirtualSource {
        setup.compatible_sources@
    } else {
        setup.diagnostics.inventory.physical_sources@
    };
    if at < nodes.len() {
        let label = nodes[at].description@ + " ("@ + nodes[at].name@ + ")"@;
        assert(Seq::<char>::empty() + label =~= label);
    }
    if at > 0 && at <= sinks@.len() && setup.step == AudioSetupStep::Destination {
        let labels = node_labels(setup.virtual_choices(), "Use existing: "@);
        assert(labels[at - 1] == "Use existing: "@ + node_label(*sinks@[at - 1]));
        assert(step[at] == choice_of(labels[at - 1], setup.selected_index == at));
    }
}

/// The first step tells of PipeWire, its Pulse server and mpv, in this order, whether each works:
/// with the error of what does not.
pub proof fn the_diagnostics_are_shown(
    setup: AudioSetup,
    managed_mix: bool,
    config_path: Result<PathBuf, Failure>,
    screen: DialogScreen,
)
    requires
        call_ensures(setup_screen, (&setup, managed_mix, &config_path), screen),
        setup.step == AudioSetupStep::Diagnostics,
    ensures
        screen.lines@.len() >= 3,
        setup.diagnostics.pipewire_error is None ==> screen.lines@[0]@ == seq![
            ("[ OK ] "@ + "PipeWire"@, Tone::Good),
        ],
        setup.diagnostics.pipewire_error matches Some(error) ==> screen.lines@[0]@ == seq![
            ("[FAIL] "@ + "PipeWire"@ + ": "@, Tone::Bad),
            (error@, Tone::Plain),
        ],
        setup.diagnostics.pulse_error is None ==> screen.lines@[1]@ == seq![
            ("[ OK ] "@ + "pipewire-pulse"@, Tone::Good),
        ],
        setup.diagnostics.pulse_error matches Some(error) ==> screen.lines@[1]@ == seq![
            ("[FAIL] "@ + "pipewire-pulse"@ + ": "@, Tone::Bad),
            (error@, Tone::Plain),
        ],
        setup.diagnostics.mpv_error is None ==> screen.lines@[2]@ == seq![
            ("[ OK ] "@ + "mpv"@, Tone::Good),
        ],
        setup.diagnostics.mpv_error matches Some(error) ==> screen.lines@[2]@ == seq![
            ("[FAIL] "@ + "mpv"@ + ": "@, Tone::Bad),
            (error@, Tone::Plain),
        ],
{
    let views = line_views(screen.lines@);
    assert(views.len() == screen.lines@.len());
    assert(views[0] == screen.lines@[0]@);
    assert(views[1] == screen.lines@[1]@);
    assert(views[2] == screen.lines@[2]@);
    assert(views[0] == step_lines(setup, config_path)[0]);
    assert(views[1] == step_lines(setup, config_path)[1]);
    assert(views[2] == step_lines(setup, config_path)[2]);
}

/// The confirmation tells what will be done: which file is written, which microphone is mixed in,
/// that the service is restarted, and which microphone is then to be used.
pub proof fn the_creation_is_explained(
    setup: AudioSetup,
    managed_mix: bool,
    config: PathBuf,
    screen: DialogScreen,
)
    requires
        call_ensures(setup_screen, (&setup, managed_mix, &Ok(config)), screen),
        setup.step == AudioSetupStep::ConfirmCreation,
        setup.selected_source is Some,
    ensures
        screen.lines@.len() >= 6,
        screen.lines@[1]@ == seq![("  Create "@ + path::path_text(config), Tone::Plain)],
        screen.lines@[2]@ == seq![
            (
                "  Mix "@ + setup.selected_source->Some_0@ + " with soundboard audio"@,
                Tone::Plain,
            ),
        ],
        screen.lines@[3]@ == seq![("  Restart the user pipewire-pulse service"@, Tone::Plain)],
        screen.lines@[5]@ == seq![
            (
                "Select "@ + "soundboard_tui_mix.monitor"@
                    + " as your microphone in Discord or another voice app."@,
                Tone::Plain,
            ),
        ],
{
    let views = line_views(screen.lines@);
    let step = step_lines(setup, Ok(config));
    assert(views.len() == screen.lines@.len());
    assert(views[1] == screen.lines@[1]@ && views[1] == step[1]);
    assert(views[2] == screen.lines@[2]@ && views[2] == step[2]);
    assert(views[3] == screen.lines@[3]@ && views[3] == step[3]);
    assert(views[5] == screen.lines@[5]@ && views[5] == step[5]);
}

/// The removal of the managed mix is offered exactly where it is in use, and an error of the setup
/// is shown, line by line, at the end.
pub proof fn errors_stand_at_the_end(
    setup: AudioSetup,
    config_path: Result<PathBuf, Failure>,
    in_use: DialogScreen,
    unused: DialogScreen,
)
    requires
        call_ensures(setup_screen, (&setup, true, &config_path), in_use),
        call_ensures(setup_screen, (&setup, false, &config_path), unused),
    ensures
        in_use.lines@.len() == unused.lines@.len() + 1,
        setup.error is None ==> in_use.lines@.len() > 0 && in_use.lines@.last()@ == seq![
            ("x  Remove the managed virtual microphone"@, Tone::Bad),
        ],
        setup.error matches Some(error) ==> ({
            let lines = text::lines_of(error@);
            &&& lines.len() > 0 ==> unused.lines@.len() > lines.len() && unused.lines@.last()@
                == seq![(lines.last(), Tone::Bad)]
            &&& forall|i: int|
                0 <= i < lines.len() ==> unused.lines@[unused.lines@.len() - lines.len() + i]@
                    == seq![(#[trigger] lines[i], Tone::Bad)]
        }),
{
    let with_removal = line_views(in_use.lines@);
    let without = line_views(unused.lines@);
    assert(with_removal.len() == in_use.lines@.len());
    assert(without.len() == unused.lines@.len());
    match setup.error {
        None => {
            let last = in_use.lines@.len() - 1;
            assert(with_removal[last] == in_use.lines@[last]@);
        },
        Some(error) => {
            let lines = text::lines_of(error@);
            let shown = error_lines(Some(error@));
            assert(shown.len() == lines.len() + 1);
            assert forall|i: int|
                0 <= i < lines.len() implies unused.lines@[unused.lines@.len() - lines.len() + i]@
                == seq![(#[trigger] lines[i], Tone::Bad)] by {
                let place = unused.lines@.len() - lines.len() + i;
                assert(without[place] == unused.lines@[place]@);
                assert(without[place] == shown[i + 1]);
            }
            if lines.len() > 0 {
                assert(lines.last() == lines[lines.len() - 1]);
            }
        },
    }
}

/// Each step has its own title.
pub proof fn each_step_has_its_title(
    setup: AudioSetup,
    managed_mix: bool,
    config_path: Result<PathBuf, Failure>,
    screen: DialogScreen,
)
    requires
        call_ensures(setup_screen, (&setup, managed_mix, &config_path), screen),
    ensures
        setup.step == AudioSetupStep::Diagnostics ==> screen.title@ == " AUDIO DIAGNOSTICS "@,
        setup.step == AudioSetupStep::Destination ==> screen.title@
            == " SELECT AUDIO DESTINATION "@,
        setup.step == AudioSetupStep::VirtualSource ==> screen.title@
            == " SELECT VIRTUAL MICROPHONE "@,
        setup.step == AudioSetupStep::PhysicalSource ==> screen.title@
            == " SELECT PHYSICAL MICROPHONE "@,
        setup.step == AudioSetupStep::ConfirmCreation ==> screen.title@
            == " CONFIRM VIRTUAL MICROPHONE "@,
{
}

/// The editor shows both texts, the active one marked, and an error in the place of the keys.
pub proof fn the_editor_shows_its_fields(
    editor: MetadataEditor,
    status: Option<StatusMessage>,
    screen: DialogScreen,
)
    requires
        call_ensures(editor_screen, (&editor, &status), screen),
    ensures
        screen.lines@.len() == 6,
        screen.lines@[0]@ == seq![
            ("Name:    "@, Tone::Plain),
            (
                editor.name@ + "_"@,
                if editor.field == MetadataField::Name {
                    Tone::Active
                } else {
                    Tone::Plain
                },
            ),
        ],
        screen.lines@[2]@ == seq![
            ("Aliases: "@, Tone::Plain),
            (
                editor.aliases@ + "_"@,
                if editor.field == MetadataField::Aliases {
                    Tone::Active
                } else {
                    Tone::Plain
                },
            ),
        ],
        (status matches Some(message) && message.is_error) ==> screen.lines@[5]@ == seq![
            (status->Some_0.text@, Tone::Bad),
        ],
        status is None || !status->Some_0.is_error ==> screen.lines@[5]@.len() == 1
            && screen.lines@[5]@[0].1 == Tone::Plain,
{
    let views = line_views(screen.lines@);
    assert(views.len() == screen.lines@.len());
    assert(views[0] == screen.lines@[0]@);
    assert(views[2] == screen.lines@[2]@);
    assert(views[5] == screen.lines@[5]@);
}

/// The confirmation names the sound and its file.
pub proof fn the_confirmation_names_the_sound(
    confirmation: DeleteConfirmation,
    screen: DialogScreen,
)
    requires
        call_ensures(confirmation_screen, (&confirmation,), screen),
    ensures
        screen.lines@.len() == 3,
        screen.lines@[0]@ == seq![
            ("Delete '"@ + confirmation.name@ + "' permanently?"@, Tone::Plain),
        ],
        screen.lines@[1]@ == seq![(path::path_text(confirmation.path), Tone::Faint)],
{
    let views = line_views(screen.lines@);
    assert(views.len() == screen.lines@.len());
    assert(views[0] == screen.lines@[0]@);
    assert(views[1] == screen.lines@[1]@);
}

/// The first step counts the physical microphones and the virtual sinks that were found.
pub proof fn the_found_nodes_are_counted(
    setup: AudioSetup,
    managed_mix: bool,
    config_path: Result<PathBuf, Failure>,
    screen: DialogScreen,
    sinks: Vec<&AudioNode>,
    digits: (String, String),
)
    requires
        call_ensures(setup_screen, (&setup, managed_mix, &config_path), screen),
        setup.step == AudioSetupStep::Diagnostics,
        call_ensures(AudioSetup::virtual_sinks, (&setup,), sinks),
        call_ensures(
            number,
            (setup.diagnostics.inventory.physical_sources.len() as u128,),
            digits.0,
        ),
        call_ensures(number, (sinks.len() as u128,), digits.1),
    ensures
        screen.lines@.len() > 4,
        screen.lines@[4]@ == seq![
            (
                "Detected: "@ + digits.0@ + " physical microphone(s), "@ + digits.1@
                    + " virtual sink(s)"@,
                Tone::Plain,
            ),
        ],
{
    let views = line_views(screen.lines@);
    assert(views.len() == screen.lines@.len());
    assert(views[4] == screen.lines@[4]@ && views[4] == step_lines(setup, config_path)[4]);
    assert(sinks@.unref().len() == sinks@.len());
    assert("Detected: "@ + digits.0@ + " physical microphone(s), "@ + (digits.1@
        + " virtual sink(s)"@) =~= "Detected: "@ + digits.0@ + " physical microphone(s), "@
        + digits.1@ + " virtual sink(s)"@);
}

/// Where there is nothing to choose from, the step says so.
pub proof fn nothing_to_choose_is_told(
    setup: AudioSetup,
    managed_mix: bool,
    config_path: Result<PathBuf, Failure>,
    screen: DialogScreen,
    sinks: Vec<&AudioNode>,
)
    requires
        call_ensures(setup_screen, (&setup, managed_mix, &config_path), screen),
        call_ensures(AudioSetup::virtual_sinks, (&setup,), sinks),
    ensures
        setup.step == AudioSetupStep::Destination && sinks@.len() == 0 ==> screen.lines@.len() > 1
            && screen.lines@[1]@ == seq![("No existing virtual sinks detected."@, Tone::Faint)],
        setup.step == AudioSetupStep::VirtualSource && setup.compatible_sources@.len() == 0
            ==> screen.lines@.len() > 0 && screen.lines@[0]@ == seq![
            ("No virtual microphone sources detected."@, Tone::Bad),
        ],
{
    let views = line_views(screen.lines@);
    let step = step_lines(setup, config_path);
    assert(views.len() == screen.lines@.len());
    assert(sinks@.unref().len() == sinks@.len());
    if setup.step == AudioSetupStep::Destination && sinks@.len() == 0 {
        assert(views[1] == screen.lines@[1]@ && views[1] == step[1]);
    }
    if setup.step == AudioSetupStep::VirtualSource && setup.compatible_sources@.len() == 0 {
        assert(views[0] == screen.lines@[0]@ && views[0] == step[0]);
    }
}

} // verus!
