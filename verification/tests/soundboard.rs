use std::path::PathBuf;

use soundboard_tui::app::{adjusted_volume, needs_modules, occurs_in_sound, Action, App, Mode, StatusMessage};
use soundboard_tui::audio::{
    AudioInventory, AudioNode, CommandOutput, CommandResult, Diagnostics, MANAGED_SINK_NAME,
    MANAGED_SOURCE_NAME,
};
use soundboard_tui::board::{
    centered_window_start, configuration_screen, list_rows, pads_screen, picker_screen, use_screen,
};
use soundboard_tui::controls::{pad_columns, screen_columns};
use soundboard_tui::editor::{parse_aliases, MetadataEditor, MetadataField};
use soundboard_tui::failure::{Failure, FailureKind};
use soundboard_tui::key::{Key, KeyCode};
use soundboard_tui::library::{AudioSettings, ImportReport, Settings, Sound};
use soundboard_tui::picker::{
    file_entry_matches, file_name_matches, is_shown_for, start_directory, DirectoryItem, FileEntry, FilePicker,
};
use soundboard_tui::player::PlayOutcome;
use soundboard_tui::screen::{
    confirmation_screen, editor_screen, setup_screen, ScreenLine, Tone,
};
use soundboard_tui::setup::{AudioSetup, AudioSetupStep};

const SECOND: u64 = 1_000_000_000;

fn failure(message: &str) -> Failure {
    Failure {
        kind: FailureKind::Other,
        message: message.to_string(),
    }
}

fn key(code: KeyCode) -> Key {
    Key {
        code,
        shift: false,
        control: false,
        other: false,
    }
}

fn typed(character: char) -> Key {
    key(KeyCode::Character(character))
}

fn control(character: char) -> Key {
    Key {
        control: true,
        ..typed(character)
    }
}

fn sound(file: &str, name: &str, aliases: &[&str], volume: u8) -> Sound {
    Sound {
        name: name.to_string(),
        path: PathBuf::from("/data/sounds").join(file),
        aliases: aliases.iter().map(|alias| alias.to_string()).collect(),
        volume,
    }
}

fn node(name: &str, is_virtual: bool) -> AudioNode {
    AudioNode {
        name: name.to_string(),
        description: format!("The {name}"),
        is_virtual,
    }
}

fn diagnostics() -> Diagnostics {
    Diagnostics {
        inventory: AudioInventory {
            physical_sources: vec![node("usb", false)],
            sinks: vec![node("card", false), node("mix", true)],
            virtual_sources: vec![node("mic", true), node("mix.monitor", true)],
        },
        ..Diagnostics::default()
    }
}

fn modules() -> CommandResult {
    Ok(CommandOutput {
        stdout: b"3 module-remap-source master=mix.monitor source_name=mic\n".to_vec(),
        stderr: vec![],
    })
}

fn ready_settings() -> Settings {
    Settings {
        local_playback: false,
        audio: AudioSettings {
            onboarding_complete: true,
            mix_sink: Some("mix".to_string()),
            virtual_source: Some("mic".to_string()),
            physical_source: None,
            managed_mix: false,
        },
    }
}

fn sounds() -> Vec<Sound> {
    vec![
        sound("bonk.mp3", "Bonk", &["martelo"], 100),
        sound("air-horn.wav", "Horn", &[], 98),
        sound("rimshot.ogg", "Drums", &["Ba dum tss"], 3),
    ]
}

fn started(mode: Mode, settings: Settings) -> App {
    App::new(
        mode,
        settings,
        diagnostics(),
        &Err(Failure::new(FailureKind::NotFound, "gone")),
        &modules(),
        Ok(None),
        sounds(),
    )
}

fn board() -> App {
    started(Mode::Configuration, ready_settings())
}

fn quick() -> App {
    started(Mode::Use, ready_settings())
}

fn error_text(app: &App) -> String {
    match &app.status_message {
        Some(message) => {
            assert!(message.is_error && message.expires_at.is_none());
            message.text.clone()
        }
        None => String::new(),
    }
}

fn status_text(app: &App) -> String {
    match &app.status_message {
        Some(message) => {
            assert!(!message.is_error);
            message.text.clone()
        }
        None => String::new(),
    }
}

fn line_text(line: &ScreenLine) -> String {
    line.pieces.iter().map(|piece| piece.text.as_str()).collect()
}

#[test]
fn adjusts_volume_within_valid_range() {
    assert_eq!(adjusted_volume(50, 5), 55);
    assert_eq!(adjusted_volume(100, 5), 100);
    assert_eq!(adjusted_volume(0, -5), 0);
}

#[test]
fn parses_comma_separated_aliases() {
    assert_eq!(
        parse_aliases(" impact, meme , , hammer "),
        ["impact", "meme", "hammer"]
    );
    assert!(parse_aliases(" , ").is_empty());
}

#[test]
fn aliases_come_back_from_the_editor() {
    let edited = sound("a.mp3", "A", &["one", "two three"], 100);
    let editor = MetadataEditor::new(0, &edited);
    assert_eq!(editor.aliases, "one, two three");
    assert_eq!(parse_aliases(&editor.aliases), edited.aliases);
    assert_eq!(parse_aliases("\u{a0}wide\u{2003},"), ["wide"]);
}

#[test]
fn calculates_responsive_pad_columns() {
    assert_eq!(pad_columns(18), 1);
    assert_eq!(pad_columns(42), 2);
    assert_eq!(pad_columns(82), 4);
}

#[test]
fn the_list_leaves_the_rest_of_the_screen_to_the_pads() {
    assert_eq!(screen_columns(32 + 42), 2);
    assert_eq!(screen_columns(10), 1);
    assert_eq!(pad_columns(u16::MAX), 3276);
}

#[test]
fn filters_file_entries_case_insensitively() {
    let entry = FileEntry {
        path: PathBuf::from("/tmp/Cartoon-Hammer.mp3"),
        is_directory: false,
    };
    let hidden_entry = FileEntry {
        path: PathBuf::from("/tmp/.Hidden-Sound.mp3"),
        is_directory: false,
    };

    assert!(file_entry_matches(&entry, "hammer"));
    assert!(file_entry_matches(&entry, "CARTOON"));
    assert!(!file_entry_matches(&entry, "airhorn"));
    assert!(!file_entry_matches(&hidden_entry, ""));
    assert!(!file_entry_matches(&hidden_entry, "hidden"));
    assert!(file_entry_matches(&hidden_entry, ".hidden"));
}

#[test]
fn keeps_file_picker_selection_around_the_middle() {
    assert_eq!(centered_window_start(0, 20, 7), 0);
    assert_eq!(centered_window_start(8, 20, 7), 5);
    assert_eq!(centered_window_start(19, 20, 7), 13);
    assert_eq!(centered_window_start(3, 5, 7), 0);
}

#[test]
fn names_are_matched_beyond_ascii() {
    assert!(file_name_matches("ÁGUA.mp3", "água"));
    assert!(file_name_matches("a.mp3", ""));
    assert!(!file_name_matches(".a.mp3", ""));
}

#[test]
fn the_soundboard_starts_ready() {
    let app = board();
    assert!(app.audio_setup.is_none());
    assert!(app.status_message.is_none());
    assert_eq!(app.selected_index, 0);
    assert_eq!(app.sounds.len(), 3);
    assert!(!app.should_quit);
}

#[test]
fn the_setup_is_required_where_audio_is_not_ready() {
    let app = started(Mode::Configuration, Settings::default());
    let setup = app.audio_setup.unwrap();
    assert!(setup.required);
    assert_eq!(setup.step, AudioSetupStep::Diagnostics);
    assert_eq!(setup.selected_index, 1);

    let mut missing = ready_settings();
    missing.audio.mix_sink = Some("card".to_string());
    assert!(started(Mode::Use, missing).audio_setup.is_some());

    let mut managed = ready_settings();
    managed.audio.managed_mix = true;
    managed.audio.physical_source = Some("usb".to_string());
    assert!(started(Mode::Use, managed).audio_setup.is_some());
}

#[test]
fn a_managed_mix_is_looked_for_at_the_start() {
    let mut found = diagnostics();
    found.inventory.sinks.push(node(MANAGED_SINK_NAME, true));
    found
        .inventory
        .virtual_sources
        .push(node(MANAGED_SOURCE_NAME, true));
    let settings = Settings {
        local_playback: true,
        audio: AudioSettings {
            onboarding_complete: true,
            mix_sink: Some(MANAGED_SINK_NAME.to_string()),
            virtual_source: Some(MANAGED_SOURCE_NAME.to_string()),
            physical_source: Some("usb".to_string()),
            managed_mix: true,
        },
    };
    let loaded: CommandResult = Ok(CommandOutput {
        stdout: b"9 module-loopback source=usb sink=soundboard_tui_mix\n".to_vec(),
        stderr: vec![],
    });
    let marked = Ok("# Managed by soundboard_tui\n".to_string());
    let ready = App::new(
        Mode::Use,
        settings.clone(),
        found.clone(),
        &marked,
        &loaded,
        Ok(None),
        vec![],
    );
    assert!(ready.audio_setup.is_none());
    let unmarked = Ok("something else\n".to_string());
    let app = App::new(
        Mode::Use,
        settings,
        found,
        &unmarked,
        &loaded,
        Err(failure("no socket")),
        vec![],
    );
    assert!(app.audio_setup.is_some());
    assert_eq!(error_text(&app), "Could not query mpv: no socket");
}

#[test]
fn arrows_move_over_the_pads() {
    let mut app = board();
    app.handle_key(key(KeyCode::Right), 2);
    assert_eq!(app.selected_index, 1);
    app.handle_key(key(KeyCode::Down), 2);
    assert_eq!(app.selected_index, 2);
    app.handle_key(key(KeyCode::Up), 2);
    assert_eq!(app.selected_index, 0);
    app.handle_key(key(KeyCode::Left), 2);
    assert_eq!(app.selected_index, 0);
}

#[test]
fn a_pad_is_played_for_the_destination() {
    let mut app = board();
    app.handle_key(key(KeyCode::Right), 1);
    let order = match app.handle_key(typed(' '), 1) {
        Action::Play(order) => order,
        _ => panic!("the sound is played"),
    };
    assert_eq!(order.path, PathBuf::from("/data/sounds/air-horn.wav"));
    assert_eq!(order.volume, 98);
    assert_eq!(order.mix_sink, "mix");
    assert!(order.from_pad && !order.local_playback);
    app.played(order, Ok(PlayOutcome { local_error: None }), 7);
    assert_eq!(status_text(&app), "Playing 'Horn'.");
    assert_eq!(app.playing_path, Some(PathBuf::from("/data/sounds/air-horn.wav")));
    assert!(!app.should_quit);
}

#[test]
fn quick_play_closes_after_playback_starts() {
    let mut app = quick();
    let order = match app.handle_key(key(KeyCode::Enter), 1) {
        Action::Play(order) => order,
        _ => panic!("the sound is played"),
    };
    app.played(order, Ok(PlayOutcome { local_error: None }), 0);
    assert!(app.should_quit);

    let mut app = quick();
    let order = match app.handle_key(key(KeyCode::Enter), 1) {
        Action::Play(order) => order,
        _ => panic!("the sound is played"),
    };
    app.played(
        order,
        Ok(PlayOutcome {
            local_error: Some("no speakers".to_string()),
        }),
        0,
    );
    assert!(!app.should_quit);
    assert_eq!(
        error_text(&app),
        "Audio was sent to the virtual microphone, but local playback failed: no speakers"
    );
}

#[test]
fn a_failed_sound_is_reported() {
    let mut app = board();
    let order = match app.handle_key(key(KeyCode::Enter), 1) {
        Action::Play(order) => order,
        _ => panic!("the sound is played"),
    };
    app.played(order, Err(failure("no mpv")), 0);
    assert_eq!(error_text(&app), "Could not play 'Bonk': no mpv");
    assert_eq!(app.playing_path, None);
}

#[test]
fn nothing_is_played_without_a_destination() {
    let mut app = board();
    app.settings.audio.mix_sink = None;
    assert!(matches!(
        app.handle_key(key(KeyCode::Enter), 1),
        Action::Nothing
    ));
    assert_eq!(error_text(&app), "Configure an audio destination before playing.");
}

#[test]
fn a_query_finds_names_files_and_aliases() {
    let mut app = quick();
    let found = |app: &App| -> Vec<String> {
        app.filtered_sounds()
            .iter()
            .map(|sound| sound.name.clone())
            .collect()
    };
    assert_eq!(found(&app), ["Bonk", "Horn", "Drums"]);
    app.query = "AIR-".to_string();
    assert_eq!(found(&app), ["Horn"]);
    app.query = "MART".to_string();
    assert_eq!(found(&app), ["Bonk"]);
    app.query = "ba dum".to_string();
    assert_eq!(found(&app), ["Drums"]);
    app.query = "nothing".to_string();
    assert!(found(&app).is_empty());
    assert!(matches!(
        app.handle_key(key(KeyCode::Enter), 1),
        Action::Nothing
    ));
}

#[test]
fn typing_changes_the_query() {
    let mut app = quick();
    app.handle_key(key(KeyCode::Down), 1);
    assert_eq!(app.selected_index, 1);
    app.handle_key(typed('q'), 1);
    assert_eq!((app.query.as_str(), app.selected_index), ("q", 0));
    app.handle_key(
        Key {
            other: true,
            ..typed('x')
        },
        1,
    );
    assert_eq!(app.query, "q");
    app.handle_key(key(KeyCode::Backspace), 1);
    app.handle_key(key(KeyCode::Backspace), 1);
    assert_eq!(app.query, "");
    app.handle_key(control('n'), 1);
    app.handle_key(control('n'), 1);
    app.handle_key(control('n'), 1);
    assert_eq!(app.selected_index, 2);
    app.handle_key(control('p'), 1);
    assert_eq!(app.selected_index, 1);
}

#[test]
fn the_mode_is_switched_and_switched_back() {
    let mut app = board();
    app.handle_key(control('k'), 1);
    assert_eq!(app.mode, Mode::Use);
    app.handle_key(control('k'), 1);
    assert_eq!(app.mode, Mode::Configuration);
    app.handle_key(typed('k'), 1);
    assert_eq!(app.mode, Mode::Configuration);
}

#[test]
fn escape_closes_what_is_on_top() {
    let mut app = board();
    app.handle_key(typed('d'), 1);
    app.handle_key(key(KeyCode::Escape), 1);
    assert!(app.delete_confirmation.is_none() && !app.should_quit);
    app.handle_key(key(KeyCode::Escape), 1);
    assert!(app.should_quit);

    let mut required = started(Mode::Use, Settings::default());
    required.handle_key(key(KeyCode::Escape), 1);
    assert!(required.audio_setup.is_none());
    assert_eq!(
        error_text(&required),
        "Audio is not configured. Press A to run audio setup before playing."
    );
}

#[test]
fn a_volume_that_is_not_stored_is_undone() {
    let mut app = board();
    assert!(matches!(app.handle_key(typed('+'), 1), Action::Nothing));
    app.handle_key(key(KeyCode::Right), 1);
    let (index, previous) = match app.handle_key(typed('='), 1) {
        Action::SaveVolume {
            index,
            previous_volume,
        } => (index, previous_volume),
        _ => panic!("the volume is stored"),
    };
    assert_eq!((index, previous, app.sounds[1].volume), (1, 98, 100));
    assert!(app.volume_saved(index, previous, Err(failure("disk full"))).is_err());
    assert_eq!(app.sounds[1].volume, 98);
    app.handle_key(typed('-'), 1);
    assert!(app.volume_saved(1, 98, Ok(())).is_ok());
    assert_eq!(app.sounds[1].volume, 93);
}

#[test]
fn local_playback_is_switched_and_stopped() {
    let mut app = board();
    assert!(matches!(
        app.handle_key(typed('m'), 1),
        Action::SaveLocalPlayback
    ));
    assert!(app.settings.local_playback);
    assert!(matches!(app.local_playback_saved(Ok(())), Ok(Action::Nothing)));
    app.handle_key(typed('m'), 1);
    assert!(matches!(app.local_playback_saved(Ok(())), Ok(Action::StopLocal)));
    app.local_stopped(Err(failure("stuck")));
    assert_eq!(error_text(&app), "Could not stop local playback: stuck");
    app.handle_key(typed('m'), 1);
    assert!(app.local_playback_saved(Err(failure("disk full"))).is_err());
    assert!(!app.settings.local_playback);
}

#[test]
fn stopping_is_reported() {
    let mut app = board();
    app.playing_path = Some(PathBuf::from("/data/sounds/bonk.mp3"));
    assert!(matches!(app.handle_key(typed('s'), 1), Action::StopPlayback));
    app.playback_stopped(Err(failure("stuck")), 0);
    assert_eq!(error_text(&app), "Could not stop playback: stuck");
    assert!(app.playing_path.is_some());
    app.playback_stopped(Ok(()), 0);
    assert_eq!(status_text(&app), "Playback stopped.");
    assert_eq!(app.playing_path, None);
}

#[test]
fn a_failure_to_ask_mpv_is_shown_once() {
    let mut app = board();
    app.refresh_playback_state(Err(failure("first")));
    app.refresh_playback_state(Err(failure("second")));
    assert_eq!(error_text(&app), "Could not query mpv: first");
    let playing = PathBuf::from("/data/sounds/bonk.mp3");
    app.refresh_playback_state(Ok(Some(playing.clone())));
    assert_eq!(app.playing_path, Some(playing));
}

#[test]
fn messages_pass_after_five_seconds() {
    let mut app = board();
    app.set_temporary_status("Hello.".to_string(), 3 * SECOND);
    assert_eq!(app.status_timeout(4 * SECOND), Some(4 * SECOND as u128));
    assert_eq!(app.poll_timeout(4 * SECOND), 200_000_000);
    assert_eq!(app.poll_timeout(8 * SECOND - 5), 5);
    app.clear_expired_status(8 * SECOND - 1);
    assert_eq!(status_text(&app), "Hello.");
    app.clear_expired_status(8 * SECOND);
    assert!(app.status_message.is_none());
    app.set_error("Stays.".to_string());
    app.clear_expired_status(u64::MAX);
    assert_eq!(error_text(&app), "Stays.");
    assert_eq!(app.poll_timeout(0), 200_000_000);
}

#[test]
fn sounds_are_reloaded() {
    let mut app = board();
    app.selected_index = 2;
    assert!(matches!(app.handle_key(typed('r'), 1), Action::ReloadSounds));
    assert!(app.sounds_reloaded(Err(failure("gone"))).is_err());
    assert_eq!((app.sounds.len(), app.selected_index), (3, 2));
    assert!(app
        .sounds_reloaded(Ok(vec![sound("a.mp3", "A", &[], 1)]))
        .is_ok());
    assert_eq!((app.sounds.len(), app.selected_index), (1, 0));
}

#[test]
fn metadata_is_edited() {
    let mut app = board();
    app.handle_key(typed('e'), 1);
    for _ in 0..4 {
        app.handle_key(key(KeyCode::Backspace), 1);
    }
    assert!(matches!(
        app.handle_key(key(KeyCode::Enter), 1),
        Action::Nothing
    ));
    assert_eq!(error_text(&app), "Name cannot be empty.");
    for character in " Boom ".chars() {
        app.handle_key(typed(character), 1);
    }
    app.handle_key(key(KeyCode::Tab), 1);
    app.handle_key(control('u'), 1);
    for character in "a, ,b".chars() {
        app.handle_key(typed(character), 1);
    }
    let edit = match app.handle_key(key(KeyCode::Enter), 1) {
        Action::SaveMetadata { edit } => edit,
        _ => panic!("the edit is stored"),
    };
    assert_eq!(app.sounds[0].name, "Boom");
    assert_eq!(app.sounds[0].aliases, ["a", "b"]);
    app.metadata_saved(edit, Err(failure("disk full")), 0);
    assert_eq!(app.sounds[0].name, "Bonk");
    assert_eq!(app.sounds[0].aliases, ["martelo"]);
    assert!(app.metadata_editor.is_some());
    assert_eq!(error_text(&app), "Could not save audio metadata: disk full");

    let edit = match app.handle_key(key(KeyCode::Enter), 1) {
        Action::SaveMetadata { edit } => edit,
        _ => panic!("the edit is stored"),
    };
    app.metadata_saved(edit, Ok(()), 0);
    assert!(app.metadata_editor.is_none());
    assert_eq!(status_text(&app), "Updated audio 'Boom'.");
}

#[test]
fn an_edit_of_a_sound_that_is_gone_is_refused() {
    let mut app = board();
    app.handle_key(typed('e'), 1);
    app.sounds.clear();
    assert!(matches!(
        app.handle_key(key(KeyCode::Enter), 1),
        Action::Nothing
    ));
    assert_eq!(error_text(&app), "The selected audio is no longer available.");
    assert!(app.metadata_editor.is_none());
}

#[test]
fn a_deletion_is_confirmed_first() {
    let mut app = board();
    app.selected_index = 2;
    app.handle_key(typed('d'), 1);
    app.handle_key(typed('n'), 1);
    assert!(app.delete_confirmation.is_none());
    app.handle_key(typed('d'), 1);
    let confirmation = match app.handle_key(typed('Y'), 1) {
        Action::DeleteSound { confirmation } => confirmation,
        _ => panic!("the deletion is ordered"),
    };
    assert_eq!(confirmation.path, PathBuf::from("/data/sounds/rimshot.ogg"));
    let name = match app.sound_deleted(confirmation, Ok(())) {
        Action::ReloadDeleted { name } => name,
        _ => panic!("the sounds are loaded"),
    };
    let mut left = sounds();
    left.pop();
    app.deleted_reloaded(name, Ok(left), 0);
    assert_eq!(app.selected_index, 1);
    assert_eq!(status_text(&app), "Deleted audio 'Drums'.");
}

#[test]
fn failed_deletions_are_reported() {
    let mut app = board();
    app.handle_key(typed('d'), 1);
    let confirmation = match app.handle_key(key(KeyCode::Enter), 1) {
        Action::DeleteSound { confirmation } => confirmation,
        _ => panic!("the deletion is ordered"),
    };
    app.sound_deleted(confirmation, Err(failure("locked")));
    assert_eq!(error_text(&app), "Could not delete 'Bonk': locked");
    app.deleted_reloaded("Bonk".to_string(), Err(failure("gone")), 0);
    assert_eq!(
        error_text(&app),
        "Deleted 'Bonk', but could not reload the library: gone"
    );
}

fn item(path: &str, is_directory: bool) -> DirectoryItem {
    DirectoryItem {
        path: PathBuf::from(path),
        is_directory,
        is_file: !is_directory,
    }
}

fn picker() -> FilePicker {
    FilePicker::new(
        PathBuf::from("/home/user"),
        vec![
            item("/home/user/b.mp3", false),
            item("/home/user/notes.txt", false),
            item("/home/user/.secret", true),
            item("/home/user/music", true),
            item("/home/user/a.OGG", false),
            item("/home/user/docs", true),
        ],
    )
}

fn shown(picker: &FilePicker) -> Vec<String> {
    picker
        .visible_entries()
        .iter()
        .map(|entry| entry.path.display().to_string())
        .collect()
}

#[test]
fn the_picker_lists_directories_first() {
    assert_eq!(
        shown(&picker()),
        [
            "/home/user/docs",
            "/home/user/music",
            "/home/user/a.OGG",
            "/home/user/b.mp3"
        ]
    );
}

#[test]
fn files_are_marked_and_imported() {
    let mut app = board();
    assert!(matches!(app.handle_key(typed('a'), 1), Action::OpenPicker));
    app.picker_opened(Ok(picker()));
    app.handle_key(key(KeyCode::Tab), 1);
    assert_eq!(error_text(&app), "Select at least one audio file");
    for _ in 0..9 {
        app.handle_key(key(KeyCode::Down), 1);
    }
    app.handle_key(key(KeyCode::Enter), 1);
    app.handle_key(key(KeyCode::Up), 1);
    app.handle_key(key(KeyCode::Enter), 1);
    let paths = match app.handle_key(key(KeyCode::Tab), 1) {
        Action::ImportFiles { paths } => paths,
        _ => panic!("the files are imported"),
    };
    assert_eq!(
        paths,
        [
            PathBuf::from("/home/user/a.OGG"),
            PathBuf::from("/home/user/b.mp3")
        ]
    );
    let report = match app.files_imported(
        Ok(ImportReport {
            imported: 1,
            errors: vec!["b.mp3: broken".to_string()],
        }),
        0,
    ) {
        Action::ReloadImported { report } => report,
        _ => panic!("the sounds are loaded"),
    };
    assert!(app.file_picker.is_none());
    app.import_reloaded(report, Ok(vec![]), 0);
    assert_eq!(
        error_text(&app),
        "Imported 1 file(s); 1 failed:\nb.mp3: broken"
    );
}

#[test]
fn imports_are_reported() {
    let mut app = board();
    app.picker_opened(Ok(picker()));
    app.files_imported(Err(failure("read-only")), 0);
    assert_eq!(
        error_text(&app),
        "Could not access the managed library: read-only"
    );
    assert!(app.file_picker.is_some());
    app.import_reloaded(
        ImportReport {
            imported: 12,
            errors: vec![],
        },
        Ok(vec![]),
        0,
    );
    assert_eq!(status_text(&app), "Imported 12 audio file(s).");
    app.import_reloaded(
        ImportReport {
            imported: 2,
            errors: vec![],
        },
        Err(failure("gone")),
        0,
    );
    assert_eq!(
        error_text(&app),
        "Imported 2 file(s), but could not reload the library: gone"
    );
    app.picker_opened(Err(failure("no home")));
    assert_eq!(error_text(&app), "Could not open file picker: no home");
}

#[test]
fn a_mark_is_taken_away_again() {
    let mut open = picker();
    open.selected_index = 3;
    open.toggle_selected_file();
    assert_eq!(open.marked_files(), [PathBuf::from("/home/user/b.mp3")]);
    open.toggle_selected_file();
    assert!(open.marked_files().is_empty());
    open.selected_index = 0;
    open.toggle_selected_file();
    assert!(open.marked_files().is_empty());
}

#[test]
fn the_picker_goes_to_directories() {
    let mut app = board();
    app.picker_opened(Ok(picker()));
    app.handle_key(typed('M'), 1);
    app.handle_key(typed('u'), 1);
    assert_eq!(shown(app.file_picker.as_ref().unwrap()), ["/home/user/music"]);
    let directory = match app.handle_key(key(KeyCode::Enter), 1) {
        Action::OpenDirectory { directory } => directory,
        _ => panic!("the directory is opened"),
    };
    assert_eq!(directory, PathBuf::from("/home/user/music"));
    let failed = match app.directory_opened(directory.clone(), Err(failure("locked"))) {
        Action::ReopenDirectory { failure } => failure,
        _ => panic!("the picker stays"),
    };
    app.directory_reopened(failed, Ok(vec![item("/home/user/music", true)]));
    assert_eq!(error_text(&app), "Could not open directory: locked");
    assert_eq!(app.file_picker.as_ref().unwrap().query, "Mu");
    app.directory_opened(directory, Ok(vec![item("/home/user/music/c.wav", false)]));
    let open = app.file_picker.as_ref().unwrap();
    assert_eq!(open.directory, PathBuf::from("/home/user/music"));
    assert_eq!(open.query, "");
    assert_eq!(shown(open), ["/home/user/music/c.wav"]);
    match app.handle_key(key(KeyCode::Backspace), 1) {
        Action::OpenDirectory { directory } => assert_eq!(directory, PathBuf::from("/home/user")),
        _ => panic!("the parent is opened"),
    }
    app.directory_reopened(failure("first"), Err(failure("second")));
    assert_eq!(error_text(&app), "Could not open directory: second");
}

#[test]
fn the_picker_stays_at_the_root() {
    let mut app = board();
    for (directory, above) in [("/music/", Some("/")), ("music", Some("")), ("/", None), ("", None)]
    {
        app.picker_opened(Ok(FilePicker::new(PathBuf::from(directory), vec![])));
        let opened = match app.handle_key(key(KeyCode::Backspace), 1) {
            Action::OpenDirectory { directory } => Some(directory),
            _ => None,
        };
        assert_eq!(opened, above.map(PathBuf::from));
    }
}

fn in_setup() -> App {
    let mut app = board();
    assert!(matches!(app.handle_key(typed('A'), 1), Action::OpenSetup));
    app.setup_opened(diagnostics());
    app
}

#[test]
fn an_existing_sink_is_chosen() {
    let mut app = in_setup();
    app.handle_key(key(KeyCode::Enter), 1);
    let sink = match app.handle_key(key(KeyCode::Enter), 1) {
        Action::FindSources { sink } => sink,
        _ => panic!("the sources are found"),
    };
    assert_eq!(sink.name, "mix");
    app.sources_found(sink, &modules());
    let setup = app.audio_setup.as_ref().unwrap();
    assert_eq!(setup.step, AudioSetupStep::VirtualSource);
    assert_eq!(setup.selected_index, 1);
    app.handle_key(key(KeyCode::Up), 1);
    let previous = match app.handle_key(key(KeyCode::Enter), 1) {
        Action::SaveAudio { previous } => previous,
        _ => panic!("the settings are stored"),
    };
    assert_eq!(app.settings.audio.virtual_source.as_deref(), Some("mic"));
    app.audio_saved(previous, Ok(()), 0);
    assert!(app.audio_setup.is_none());
    assert_eq!(status_text(&app), "Audio destination configured: mix.");
}

#[test]
fn sinks_without_sources_are_refused() {
    let mut app = in_setup();
    app.handle_key(key(KeyCode::Enter), 1);
    app.sources_found(node("lonely", true), &modules());
    let text = |app: &App| app.audio_setup.as_ref().unwrap().error.clone().unwrap();
    assert_eq!(
        text(&app),
        "No virtual microphone source is connected to The lonely."
    );
    app.sources_found(node("mix", true), &Err("no pactl".to_string()));
    assert_eq!(
        text(&app),
        "Could not validate the virtual microphone: no pactl"
    );
    app.settings.audio.managed_mix = true;
    app.handle_key(key(KeyCode::Enter), 1);
    assert_eq!(
        text(&app),
        "Remove the managed mix with x before selecting another destination."
    );
}

#[test]
fn a_managed_mix_is_created() {
    let mut app = in_setup();
    app.handle_key(key(KeyCode::Enter), 1);
    app.handle_key(key(KeyCode::Up), 1);
    app.handle_key(key(KeyCode::Enter), 1);
    assert_eq!(
        app.audio_setup.as_ref().unwrap().step,
        AudioSetupStep::PhysicalSource
    );
    app.handle_key(key(KeyCode::Enter), 1);
    let source = match app.handle_key(key(KeyCode::Enter), 1) {
        Action::InstallMix { source } => source,
        _ => panic!("the mix is installed"),
    };
    assert_eq!(source, "usb");
    let previous = match app.mix_installed(source, Ok(())) {
        Action::SaveAudio { previous } => previous,
        _ => panic!("the settings are stored"),
    };
    assert!(app.settings.audio.managed_mix);
    assert_eq!(app.settings.audio.physical_source.as_deref(), Some("usb"));
    let failed = match app.audio_saved(previous, Err(failure("disk full")), 0) {
        Action::UndoInstall { failure } => failure,
        _ => panic!("the mix is removed"),
    };
    assert_eq!(app.settings.audio.mix_sink.as_deref(), Some("mix"));
    assert!(!app.settings.audio.managed_mix);
    app.audio_undone(failed, Err(failure("stuck")));
    assert_eq!(
        app.audio_setup.as_ref().unwrap().error.as_deref(),
        Some("Could not save audio settings: disk full; could not remove the new mix: stuck")
    );
    app.audio_undone(failure("disk full"), Ok(()));
    assert_eq!(
        app.audio_setup.as_ref().unwrap().error.as_deref(),
        Some("Could not save audio settings: disk full; audio setup restored")
    );
}

#[test]
fn a_failed_installation_is_shown_with_new_diagnostics() {
    let mut app = in_setup();
    let failed = match app.mix_installed("usb".to_string(), Err(failure("denied"))) {
        Action::RefreshFailedInstall { failure } => failure,
        _ => panic!("the diagnostics are run"),
    };
    app.failed_install_refreshed(failed, Diagnostics::default());
    let setup = app.audio_setup.as_ref().unwrap();
    assert_eq!(
        setup.error.as_deref(),
        Some("Could not create the managed mix: denied")
    );
    assert_eq!(setup.diagnostics.inventory.sinks.len(), 0);
    assert_eq!(setup.selected_index, 0);
}

#[test]
fn a_managed_mix_replaced_in_vain_is_installed_again() {
    let mut app = in_setup();
    app.settings.audio.managed_mix = true;
    app.settings.audio.physical_source = Some("old".to_string());
    let previous = match app.mix_installed("usb".to_string(), Ok(())) {
        Action::SaveAudio { previous } => previous,
        _ => panic!("the settings are stored"),
    };
    match app.audio_saved(previous, Err(failure("disk full")), 0) {
        Action::Reinstall { source, .. } => assert_eq!(source, "old"),
        _ => panic!("the previous mix is installed"),
    }
    assert_eq!(app.settings.audio.physical_source.as_deref(), Some("old"));
}

#[test]
fn a_managed_mix_is_removed() {
    let mut app = in_setup();
    assert!(matches!(app.handle_key(typed('x'), 1), Action::Nothing));
    app.settings.audio.managed_mix = true;
    app.settings.audio.physical_source = Some("usb".to_string());
    assert!(matches!(app.handle_key(typed('X'), 1), Action::RemoveMix));
    app.mix_removed(Err(failure("denied")));
    assert_eq!(
        app.audio_setup.as_ref().unwrap().error.as_deref(),
        Some("Could not remove the managed mix: denied")
    );
    let previous = match app.mix_removed(Ok(())) {
        Action::SaveRemoval { previous } => previous,
        _ => panic!("the settings are stored"),
    };
    assert!(!app.settings.audio.onboarding_complete);
    let (source, failed) = match app.removal_saved(previous, Err(failure("disk full"))) {
        Action::RestoreMix { source, failure } => (source, failure),
        _ => panic!("the mix is installed again"),
    };
    assert_eq!(source, "usb");
    assert!(app.settings.audio.managed_mix);
    app.mix_restored(failed, Ok(()));
    assert_eq!(
        app.audio_setup.as_ref().unwrap().error.as_deref(),
        Some("Could not save settings after removal: disk full; mix restored")
    );
    app.mix_restored(failure("disk full"), Err(failure("stuck")));
    assert_eq!(
        app.audio_setup.as_ref().unwrap().error.as_deref(),
        Some("Could not save settings after removal: disk full; could not restore mix: stuck")
    );
    let previous = match app.mix_removed(Ok(())) {
        Action::SaveRemoval { previous } => previous,
        _ => panic!("the settings are stored"),
    };
    assert!(matches!(
        app.removal_saved(previous, Ok(())),
        Action::RefreshRemoved
    ));
    app.removal_refreshed(diagnostics());
    let setup = app.audio_setup.as_ref().unwrap();
    assert!(setup.required);
    assert_eq!(setup.step, AudioSetupStep::Diagnostics);
}

#[test]
fn the_setup_waits_for_what_is_missing() {
    let mut app = in_setup();
    assert!(matches!(app.handle_key(typed('r'), 1), Action::RefreshSetup));
    app.setup_refreshed(Diagnostics {
        pipewire_error: Some("no pw-dump".to_string()),
        mpv_error: Some("no mpv".to_string()),
        ..Diagnostics::default()
    });
    app.handle_key(key(KeyCode::Enter), 1);
    let setup = app.audio_setup.as_mut().unwrap();
    assert_eq!(setup.error.as_deref(), Some("no pw-dump\nno mpv"));
    setup.step = AudioSetupStep::Destination;
    setup.selected_index = 0;
    app.handle_key(key(KeyCode::Enter), 1);
    assert_eq!(
        app.audio_setup.as_ref().unwrap().error.as_deref(),
        Some("PipeWire mix creation is unavailable.")
    );
    app.setup_refreshed(Diagnostics::default());
    app.handle_key(key(KeyCode::Enter), 1);
    assert_eq!(
        app.audio_setup.as_ref().unwrap().error.as_deref(),
        Some("No physical microphone was detected.")
    );
    app.audio_setup.as_mut().unwrap().step = AudioSetupStep::VirtualSource;
    app.handle_key(key(KeyCode::Enter), 1);
    assert_eq!(
        app.audio_setup.as_ref().unwrap().error.as_deref(),
        Some("No virtual microphone source is available for this destination.")
    );
}

#[test]
fn choices_end_at_the_last() {
    let mut setup = AudioSetup::new(diagnostics(), false);
    setup.step = AudioSetupStep::Destination;
    assert_eq!(setup.last_choice(), 1);
    setup.selected_index = 0;
    setup.select_next();
    setup.select_next();
    assert_eq!(setup.selected_index, 1);
    setup.select_previous();
    setup.select_previous();
    assert_eq!(setup.selected_index, 0);
}

#[test]
fn the_setup_is_drawn() {
    let mut setup = AudioSetup::new(diagnostics(), true);
    let path = Ok(PathBuf::from("/cfg/a.conf"));
    setup.diagnostics.mpv_error = Some("no mpv".to_string());
    let screen = setup_screen(&setup, false, &path);
    assert_eq!(screen.title, " AUDIO DIAGNOSTICS ");
    let texts: Vec<String> = screen.lines.iter().map(line_text).collect();
    assert_eq!(texts[0], "[ OK ] PipeWire");
    assert_eq!(texts[2], "[FAIL] mpv: no mpv");
    assert_eq!(
        texts[4],
        "Detected: 1 physical microphone(s), 1 virtual sink(s)"
    );
    assert_eq!(screen.lines[0].pieces[0].tone, Tone::Good);
    assert_eq!(screen.lines[2].pieces[0].tone, Tone::Bad);

    setup.step = AudioSetupStep::Destination;
    setup.error = Some("one\ntwo".to_string());
    let screen = setup_screen(&setup, true, &path);
    let texts: Vec<String> = screen.lines.iter().map(line_text).collect();
    assert_eq!(
        texts,
        [
            "  Create Soundboard TUI virtual microphone",
            "> Use existing: The mix (mix)",
            "",
            "Up/Down  Select    Enter  Confirm    Esc  Close/Exit",
            "x  Remove the managed virtual microphone",
            "",
            "one",
            "two",
        ]
    );
    assert_eq!(screen.lines[1].pieces[0].tone, Tone::Chosen);

    setup.step = AudioSetupStep::ConfirmCreation;
    let screen = setup_screen(&setup, false, &path);
    assert_eq!(line_text(&screen.lines[1]), "  Create /cfg/a.conf");
    assert_eq!(
        line_text(&screen.lines[2]),
        "  Mix unknown source with soundboard audio"
    );
    let screen = setup_screen(&setup, false, &Err(failure("no home")));
    assert_eq!(line_text(&screen.lines[1]), "  Create unavailable: no home");
}

#[test]
fn the_dialogs_are_drawn() {
    let mut editor = MetadataEditor::new(0, &sounds()[0]);
    let screen = editor_screen(&editor, &None);
    assert_eq!(line_text(&screen.lines[0]), "Name:    Bonk_");
    assert_eq!(screen.lines[0].pieces[1].tone, Tone::Active);
    editor.toggle_field();
    assert_eq!(editor.field, MetadataField::Aliases);
    let error = Some(StatusMessage {
        text: "Name cannot be empty.".to_string(),
        is_error: true,
        expires_at: None,
    });
    let screen = editor_screen(&editor, &error);
    assert_eq!(screen.lines[0].pieces[1].tone, Tone::Plain);
    assert_eq!(line_text(&screen.lines[5]), "Name cannot be empty.");

    let mut app = board();
    app.handle_key(typed('d'), 1);
    let screen = confirmation_screen(app.delete_confirmation.as_ref().unwrap());
    assert_eq!(line_text(&screen.lines[0]), "Delete 'Bonk' permanently?");
    assert_eq!(line_text(&screen.lines[1]), "/data/sounds/bonk.mp3");
}

#[test]
fn the_board_is_drawn() {
    let mut app = board();
    app.playing_path = Some(PathBuf::from("/data/sounds/air-horn.wav"));
    let screen = configuration_screen(&app);
    assert_eq!(
        screen.header,
        " CONFIGURATION  AUDIO mix  LOCAL MONITOR OFF "
    );
    assert_eq!(screen.library[0], "   Bonk  100%\n    bonk.mp3");
    assert_eq!(screen.library[1], " * Horn  98%\n    air-horn.wav");
    assert_eq!(screen.footer_height, 3);
    app.set_temporary_status("Hello.".to_string(), 0);
    let screen = configuration_screen(&app);
    assert_eq!((screen.footer.text.as_str(), screen.footer_height), ("Hello.", 5));
    assert_eq!(screen.footer.tone, Tone::Good);

    let mut app = quick();
    app.query = "o".to_string();
    let screen = use_screen(&app);
    assert_eq!(screen.search, "> o_");
    assert_eq!(screen.results[1], "Horn  [air-horn.wav]");
    assert_eq!(screen.selected, Some(0));
    assert_eq!(screen.footer_height, 1);
    app.query = "nothing".to_string();
    assert_eq!(use_screen(&app).selected, None);
}

#[test]
fn the_pads_are_paged() {
    let mut app = board();
    app.selected_index = 2;
    app.playing_path = Some(PathBuf::from("/data/sounds/bonk.mp3"));
    let screen = pads_screen(&app, 42, 7);
    assert_eq!((screen.columns, screen.rows), (2, 1));
    assert_eq!(screen.title, " SOUND PADS  2/2 ");
    assert_eq!(screen.pads.len(), 1);
    assert_eq!(line_text(&screen.pads[0].lines[1]), "VOL   3%");
    assert_eq!(screen.pads[0].border, Tone::Marked);

    let screen = pads_screen(&app, 42, 12);
    assert_eq!((screen.columns, screen.rows), (2, 2));
    assert_eq!(screen.title, " SOUND PADS  1/1 ");
    assert_eq!(screen.pads.len(), 3);
    assert_eq!((screen.pads[2].row, screen.pads[2].column), (1, 0));
    assert_eq!(screen.pads[0].border, Tone::Good);
    assert_eq!(line_text(&screen.pads[0].lines[2]), "PLAYING");
    assert_eq!(line_text(&screen.pads[1].lines[1]), "VOL  98%");
    assert_eq!(screen.hint, None);

    app.sounds.clear();
    let screen = pads_screen(&app, 0, 0);
    assert_eq!(
        screen.hint.as_deref(),
        Some("No audio files. Add files to the managed sounds directory.")
    );
    assert_eq!(screen.title, " SOUND PADS  3/1 ");
}

#[test]
fn the_picker_is_drawn() {
    let mut open = picker();
    open.selected_index = 3;
    open.toggle_selected_file();
    let screen = picker_screen(&open, &None, 2);
    assert_eq!(screen.title, " ADD AUDIO  1 selected ");
    assert_eq!(screen.directory, "/home/user");
    assert_eq!(screen.filter, "Filter: _");
    assert_eq!(
        screen.list_title,
        " DIRECTORIES AND AUDIO FILES  4 matches "
    );
    assert_eq!(screen.items, ["[ ] a.OGG", "[x] b.mp3"]);
    assert_eq!(screen.selected, Some(1));
    open.selected_index = 0;
    let screen = picker_screen(&open, &None, 2);
    assert_eq!(screen.items, ["  docs/", "  music/"]);
    open.query = "zzz".to_string();
    assert_eq!(picker_screen(&open, &None, 2).selected, None);
    assert_eq!((list_rows(0), list_rows(3), list_rows(10)), (1, 1, 8));
}

#[test]
fn lowered_texts_are_compared() {
    let aliases = vec!["ba dum tss".to_string()];
    assert!(occurs_in_sound("dum", "drums", "rimshot.ogg", &aliases));
    assert!(occurs_in_sound("shot", "drums", "rimshot.ogg", &aliases));
    assert!(occurs_in_sound("", "", "", &vec![]));
    assert!(!occurs_in_sound("bonk", "drums", "rimshot.ogg", &aliases));
    assert!(is_shown_for("A", "a", "a", "a"));
    assert!(!is_shown_for(".A", "a", ".a", "a"));
}

#[test]
fn the_soundboard_reports_a_pad_that_is_heard_only_by_others() {
    let mut app = board();
    let order = match app.handle_key(key(KeyCode::Enter), 1) {
        Action::Play(order) => order,
        _ => panic!("the sound is played"),
    };
    app.played(
        order,
        Ok(PlayOutcome {
            local_error: Some("no speakers".to_string()),
        }),
        0,
    );
    assert_eq!(
        error_text(&app),
        "Playing 'Bonk' on the virtual microphone, but local playback failed: no speakers"
    );
    assert!(app.playing_path.is_some());
}

#[test]
fn a_mix_without_its_microphone_cannot_be_restored() {
    let mut app = in_setup();
    app.settings.audio.managed_mix = true;
    let previous = match app.mix_removed(Ok(())) {
        Action::SaveRemoval { previous } => previous,
        _ => panic!("the settings are stored"),
    };
    app.removal_saved(previous, Err(failure("disk full")));
    assert_eq!(
        app.audio_setup.as_ref().unwrap().error.as_deref(),
        Some("Could not save settings after removal: disk full; could not restore mix: saved physical microphone is missing")
    );
    let previous = match app.mix_installed("usb".to_string(), Ok(())) {
        Action::SaveAudio { previous } => previous,
        _ => panic!("the settings are stored"),
    };
    app.audio_saved(previous, Err(failure("disk full")), 0);
    assert_eq!(
        app.audio_setup.as_ref().unwrap().error.as_deref(),
        Some("Could not save audio settings: disk full; could not remove the new mix: previous microphone is missing")
    );
}

#[test]
fn an_open_dialog_keeps_the_board() {
    let mut app = in_setup();
    app.file_picker = Some(picker());
    app.selected_index = 1;
    for pressed in [typed('q'), control('k'), typed('+'), typed('d'), key(KeyCode::Right)] {
        assert!(matches!(app.handle_key(pressed, 2), Action::Nothing));
    }
    assert!(!app.should_quit);
    assert_eq!((app.mode, app.selected_index), (Mode::Configuration, 1));
    assert!(app.delete_confirmation.is_none());
    app.handle_key(key(KeyCode::Escape), 2);
    assert!(app.audio_setup.is_none() && app.file_picker.is_some());
    app.handle_key(typed('q'), 2);
    assert_eq!(app.file_picker.as_ref().unwrap().query, "q");
    assert!(!app.should_quit);
}

#[test]
fn keys_keep_the_files() {
    let mut app = board();
    let before: Vec<PathBuf> = app.sounds.iter().map(|sound| sound.path.clone()).collect();
    for pressed in ['-', 'm', 'e', 'x', 's', 'd', 'r'] {
        app.handle_key(typed(pressed), 2);
    }
    app.handle_key(key(KeyCode::Enter), 2);
    let after: Vec<PathBuf> = app.sounds.iter().map(|sound| sound.path.clone()).collect();
    assert_eq!(before, after);
    assert_eq!(app.sounds[0].name, "Bonkxsdr");
}

#[test]
fn a_path_is_marked_once_whatever_its_spelling() {
    let mut open = picker();
    open.selected_paths.push(PathBuf::from("/home/user/x.mp3"));
    open.selected_paths.push(PathBuf::from("/home//user/./b.mp3"));
    open.selected_index = 3;
    open.toggle_selected_file();
    assert_eq!(open.marked_files(), [PathBuf::from("/home/user/x.mp3")]);
    open.toggle_selected_file();
    assert_eq!(
        open.marked_files(),
        [
            PathBuf::from("/home/user/b.mp3"),
            PathBuf::from("/home/user/x.mp3")
        ]
    );
}

#[test]
fn the_picker_opens_at_home() {
    let home = PathBuf::from("/home/user");
    let here = PathBuf::from("/srv");
    assert_eq!(
        start_directory(Some(home.clone()), Err(failure("gone"))).unwrap(),
        home
    );
    assert_eq!(start_directory(None, Ok(here.clone())).unwrap(), here);
    assert_eq!(
        start_directory(None, Err(failure("gone"))).unwrap_err().message,
        "gone"
    );
}

#[test]
fn modules_matter_only_for_a_chosen_pair() {
    assert!(needs_modules(&ready_settings().audio));
    assert!(!needs_modules(&AudioSettings::default()));
}

#[test]
fn white_space_of_every_kind_is_trimmed() {
    for space in [
        '\t', '\u{b}', ' ', '\u{85}', '\u{a0}', '\u{1680}', '\u{2000}', '\u{200a}', '\u{2028}',
        '\u{2029}', '\u{202f}', '\u{205f}', '\u{3000}',
    ] {
        assert_eq!(parse_aliases(&format!("{space}a{space}")), ["a"]);
    }
    let white = (0..=0x10ffff_u32)
        .filter_map(char::from_u32)
        .filter(|character| parse_aliases(&format!("{character}")).is_empty())
        .count();
    // The comma leaves nothing either.
    assert_eq!(white, 25 + 1);
    for kept in ['\u{180e}', '\u{200b}', '\u{feff}'] {
        assert_eq!(parse_aliases(&format!("{kept}a")), [format!("{kept}a")]);
    }
}
