use std::path::PathBuf;

use soundboard_tui::failure::{Failure, FailureKind};
use soundboard_tui::library::{
    data_dir, default_name, delete_sound, import_sounds, is_supported_audio, load_library_file,
    load_settings, load_sounds, names_audio_format, save_settings, save_sounds, sounds_dir, space_out, AudioSettings,
    ImportReport, ImportReply, ImportRequest, ImportStep, LibraryFile, Settings, Sound,
    SoundMetadata, Stored,
};
use soundboard_tui::path::{child, display};

fn metadata(file: &str, name: &str, aliases: &[&str], volume: u8) -> SoundMetadata {
    SoundMetadata {
        file: file.to_string(),
        name: name.to_string(),
        aliases: aliases.iter().map(|alias| alias.to_string()).collect(),
        volume,
    }
}

/// Runs an import over files that exist in memory: the regular files at hand, and those taken.
fn run_import(
    data: &str,
    sources: &[&str],
    regular: &[&str],
) -> (Result<ImportReport, Failure>, Vec<(PathBuf, PathBuf)>) {
    let mut copies: Vec<(PathBuf, PathBuf)> = Vec::new();
    let mut step = import_sounds(
        &PathBuf::from(data),
        sources.iter().map(PathBuf::from).collect(),
    );
    loop {
        let (run, request) = match step {
            ImportStep::Ask { run, request } => (run, request),
            ImportStep::Finished(result) => return (result, copies),
        };
        let reply = match request {
            ImportRequest::CreateDirectory(_) => ImportReply::Done(Ok(())),
            ImportRequest::Inspect(path) => {
                ImportReply::Answer(regular.iter().any(|file| PathBuf::from(file) == path))
            }
            ImportRequest::Exists(path) => {
                ImportReply::Answer(copies.iter().any(|(_, destination)| *destination == path))
            }
            ImportRequest::Copy { source, destination } => {
                copies.push((source, destination));
                ImportReply::Done(Ok(()))
            }
        };
        step = run.advance(reply);
    }
}

#[test]
fn derives_name_from_file_name() {
    assert_eq!(
        default_name(&PathBuf::from("/tmp/cartoon-hammer_sound.mp3")),
        "cartoon hammer sound"
    );
}

#[test]
fn recognizes_supported_audio_extensions() {
    assert!(is_supported_audio(&PathBuf::from("sound.MP3")));
    assert!(is_supported_audio(&PathBuf::from("sound.ogg")));
    assert!(!is_supported_audio(&PathBuf::from("notes.txt")));
}

#[test]
fn every_supported_extension_is_recognized() {
    for extension in ["aac", "flac", "m4a", "mp3", "ogg", "opus", "wav", "Opus", "FLAC"] {
        assert!(
            is_supported_audio(&PathBuf::from(format!("/tmp/a.{extension}"))),
            "{extension}"
        );
    }
    for name in ["/tmp/mp3", "/tmp/.mp3", "/tmp/a.mp3.bak", "/"] {
        assert!(!is_supported_audio(&PathBuf::from(name)), "{name}");
    }
}

#[test]
fn reconciles_files_with_persisted_metadata() {
    let stored = LibraryFile {
        version: 1,
        sounds: vec![
            metadata("bonk.mp3", "Bonk", &["martelo"], 75),
            metadata("missing.mp3", "Missing", &[], 100),
        ],
    };
    let files = || {
        vec![
            PathBuf::from("/data/sounds/new-sound.wav"),
            PathBuf::from("/data/sounds/bonk.mp3"),
            PathBuf::from("/data/sounds/notes.txt"),
        ]
    };
    let mut sounds = load_sounds(files(), &stored);

    assert_eq!(sounds.len(), 2);
    assert_eq!(sounds[0].name, "Bonk");
    assert_eq!(sounds[0].aliases, ["martelo"]);
    assert_eq!(sounds[0].volume, 75);
    assert_eq!(sounds[1].name, "new sound");

    let data = PathBuf::from("/data");
    let saved = save_sounds(&data, &sounds);
    assert_eq!(saved.path, PathBuf::from("/data/library.toml"));
    assert_eq!(saved.contents.version, 1);
    let names: Vec<&str> = saved
        .contents
        .sounds
        .iter()
        .map(|sound| sound.file.as_str())
        .collect();
    assert!(names.contains(&"bonk.mp3"));
    assert!(names.contains(&"new-sound.wav"));
    assert!(!names.contains(&"missing.mp3"));

    sounds[0].volume = 40;
    let reloaded = load_sounds(files(), &save_sounds(&data, &sounds).contents);
    assert_eq!(reloaded[0].volume, 40);
    assert_eq!(reloaded[0].name, "Bonk");
    assert_eq!(reloaded[0].aliases, ["martelo"]);
}

#[test]
fn a_stored_volume_is_bounded() {
    let stored = LibraryFile {
        version: 1,
        sounds: vec![metadata("a.mp3", "A", &[], 250)],
    };
    let sounds = load_sounds(vec![PathBuf::from("/data/sounds/a.mp3")], &stored);
    assert_eq!(sounds[0].volume, 100);
    assert_eq!(sounds[0].file_name(), "a.mp3");
}

#[test]
fn settings_default_to_local_playback_disabled() {
    let settings = Settings::default();

    assert!(!settings.local_playback);
    assert!(!settings.audio.onboarding_complete);
    assert!(settings.audio.mix_sink.is_none());

    let absent = load_settings(Stored::Unreadable(Failure::new(FailureKind::NotFound, "gone")));
    assert!(!absent.unwrap().local_playback);
}

#[test]
fn persists_local_playback_setting() {
    let save = save_settings(
        &PathBuf::from("/data"),
        &Settings {
            local_playback: true,
            audio: AudioSettings::default(),
        },
    );
    assert_eq!(save.path, PathBuf::from("/data/settings.toml"));
    assert_ne!(save.temporary_path, save.path);
    assert!(load_settings(Stored::Read(save.contents)).unwrap().local_playback);
}

#[test]
fn persists_audio_settings() {
    let settings = Settings {
        local_playback: false,
        audio: AudioSettings {
            onboarding_complete: true,
            mix_sink: Some("soundboard_tui_mix".to_string()),
            virtual_source: Some("soundboard_tui_mix.monitor".to_string()),
            physical_source: Some("alsa_input.usb".to_string()),
            managed_mix: true,
        },
    };
    let save = save_settings(&PathBuf::from("/data"), &settings);
    let loaded = load_settings(Stored::Read(save.contents)).unwrap();

    assert!(loaded.audio.onboarding_complete);
    assert_eq!(loaded.audio.mix_sink.as_deref(), Some("soundboard_tui_mix"));
    assert!(loaded.audio.managed_mix);
}

#[test]
fn broken_files_are_reported() {
    assert_eq!(
        load_settings(Stored::Malformed("bad".to_string())).err().unwrap().kind,
        FailureKind::InvalidData
    );
    assert_eq!(
        load_settings(Stored::Unreadable(Failure::new(FailureKind::PermissionDenied, "no")))
            .err()
            .unwrap()
            .message,
        "no"
    );
    assert_eq!(
        load_library_file(Stored::Malformed("bad".to_string()))
            .err()
            .unwrap()
            .kind,
        FailureKind::InvalidData
    );
    let newer = LibraryFile {
        version: 2,
        sounds: vec![],
    };
    assert_eq!(load_library_file(Stored::Read(newer)).ok().unwrap().version, 2);
    let absent =
        load_library_file(Stored::Unreadable(Failure::new(FailureKind::NotFound, "gone")));
    assert_eq!(absent.ok().unwrap().sounds.len(), 0);
}

#[test]
fn imports_audio_and_resolves_file_name_conflicts() {
    let (report, copies) = run_import(
        "/data",
        &["/src/bonk.mp3", "/src/other/bonk.mp3", "/src/notes.txt"],
        &["/src/bonk.mp3", "/src/other/bonk.mp3", "/src/notes.txt"],
    );
    let report = report.ok().unwrap();

    assert_eq!(report.imported, 2);
    assert_eq!(report.errors.len(), 1);
    assert_eq!(
        copies,
        [
            (
                PathBuf::from("/src/bonk.mp3"),
                PathBuf::from("/data/sounds/bonk.mp3")
            ),
            (
                PathBuf::from("/src/other/bonk.mp3"),
                PathBuf::from("/data/sounds/bonk (1).mp3")
            ),
        ]
    );
}

#[test]
fn an_import_accounts_for_every_file() {
    let (report, copies) = run_import(
        "/data",
        &["/src/a.mp3", "/src/gone.mp3", "/src/b.txt", "/src/c.WAV"],
        &["/src/a.mp3", "/src/b.txt", "/src/c.WAV"],
    );
    let report = report.ok().unwrap();
    assert_eq!(report.imported + report.errors.len(), 4);
    assert_eq!(report.imported, copies.len());
    assert!(report.errors[0].contains("/src/gone.mp3"), "{}", report.errors[0]);
    assert!(report.errors[1].contains("/src/b.txt"), "{}", report.errors[1]);
}

#[test]
fn deletes_only_files_from_the_managed_sounds_directory() {
    let data = PathBuf::from("/data");

    delete_sound(&data, &PathBuf::from("/data/sounds/bonk.mp3")).unwrap();

    assert_eq!(
        delete_sound(&data, &PathBuf::from("/data/outside.mp3"))
            .unwrap_err()
            .kind,
        FailureKind::PermissionDenied
    );
    assert!(delete_sound(&data, &PathBuf::from("/data/sounds/deeper/a.mp3")).is_err());
}

#[test]
fn what_was_imported_can_be_deleted() {
    for data in ["/data", "/data/", "data/./deep", ""] {
        let sources = ["/src/bonk.mp3", "/src/other//bonk.mp3/.", "/src/...odd.name.mp3"];
        let (report, copies) = run_import(data, &sources, &sources);
        assert_eq!(report.ok().unwrap().imported, 3);
        assert!(copies[1].1.ends_with("sounds/bonk (1).mp3"));
        for (source, destination) in copies {
            delete_sound(&PathBuf::from(data), &destination).unwrap();
            assert!(delete_sound(&PathBuf::from(data), &source).is_err());
        }
    }
    assert!(delete_sound(&PathBuf::from("/"), &PathBuf::from("/")).is_err());
    assert!(delete_sound(&PathBuf::from("/data"), &PathBuf::new()).is_err());
    delete_sound(&PathBuf::from("/data"), &PathBuf::from("/data//./sounds/a.mp3/")).unwrap();
}

#[test]
fn files_are_stored_through_one_beside_them() {
    let library = save_sounds(&PathBuf::from("/data/"), &[]);
    assert_eq!(display(&library.path), "/data/library.toml");
    assert_eq!(display(&library.temporary_path), "/data/library.toml.tmp");
    let settings = save_settings(&PathBuf::from("/data"), &Settings::default());
    assert_eq!(display(&settings.path), "/data/settings.toml");
    assert_eq!(display(&settings.temporary_path), "/data/settings.toml.tmp");
}

#[test]
fn a_name_is_joined_to_a_directory() {
    for (directory, name, joined) in [
        ("/a", "b", "/a/b"),
        ("/a/", "b", "/a/b"),
        ("/", "b", "/b"),
        ("", "b", "b"),
        ("a", "", "a/"),
        ("a", "/b", "/b"),
        ("a//", "./b/c", "a//./b/c"),
    ] {
        assert_eq!(display(&child(&PathBuf::from(directory), name)), joined);
    }
}

#[test]
fn paths_are_ordered_by_components() {
    let ordered = [
        "/a/x.mp3",
        "/a b/x.mp3",
        "/a b/x.mp3/y.mp3",
        "/a-b.mp3",
        "./z.mp3",
        "../a.mp3",
        "...mp3",
        "a/x.mp3",
        "a b.mp3",
    ];
    let listed = ordered.iter().rev().map(PathBuf::from).collect();
    let library = LibraryFile {
        version: 1,
        sounds: vec![],
    };
    let paths: Vec<String> = load_sounds(listed, &library)
        .iter()
        .map(|sound| display(&sound.path))
        .collect();
    assert_eq!(paths, ordered);
}

#[test]
fn the_data_follows_the_directories_of_the_user() {
    let home = Some(PathBuf::from("/home/user"));
    assert_eq!(
        data_dir(Some(PathBuf::from("/share")), home.clone()).unwrap(),
        PathBuf::from("/share/soundboard-tui")
    );
    assert_eq!(
        data_dir(None, home).unwrap(),
        PathBuf::from("/home/user/.local/share/soundboard-tui")
    );
    assert_eq!(data_dir(None, None).unwrap_err().kind, FailureKind::NotFound);
    assert_eq!(
        sounds_dir(&PathBuf::from("/data")),
        PathBuf::from("/data/sounds")
    );
}

#[test]
fn a_sound_without_metadata_has_defaults() {
    let sound = Sound::from_path(PathBuf::from("/data/sounds/Air_Horn-2.ogg"), None);
    assert_eq!(sound.name, "Air Horn 2");
    assert_eq!(sound.volume, 100);
    assert!(sound.aliases.is_empty());
    let stored = sound.metadata();
    assert_eq!(stored.file, "Air_Horn-2.ogg");
    assert_eq!(stored.name, "Air Horn 2");
}

#[test]
fn plain_texts_are_judged_as_they_are() {
    assert_eq!(space_out("a-b_c d"), "a b c d");
    assert!(names_audio_format("flac"));
    assert!(!names_audio_format("FLAC"));
}

#[test]
fn sounds_come_in_the_order_of_their_paths() {
    let files = ["z.mp3", "a.mp3", "M.mp3", "a b.mp3"]
        .iter()
        .map(|name| PathBuf::from("/data/sounds").join(name))
        .collect();
    let library = LibraryFile {
        version: 1,
        sounds: vec![],
    };
    let names: Vec<String> = load_sounds(files, &library)
        .iter()
        .map(|sound| sound.file_name())
        .collect();
    assert_eq!(names, ["M.mp3", "a b.mp3", "a.mp3", "z.mp3"]);
}

#[test]
fn the_last_entry_for_a_file_counts() {
    let stored = LibraryFile {
        version: 1,
        sounds: vec![
            metadata("a.mp3", "First", &[], 10),
            metadata("a.mp3", "Last", &["x"], 20),
        ],
    };
    let sounds = load_sounds(vec![PathBuf::from("/data/sounds/a.mp3")], &stored);
    assert_eq!((sounds[0].name.as_str(), sounds[0].volume), ("Last", 20));
}

#[test]
fn a_failed_import_is_handed_back() {
    let step = import_sounds(&PathBuf::from("/data"), vec![PathBuf::from("/a.mp3")]);
    match step {
        ImportStep::Ask { run, request } => {
            match request {
                ImportRequest::CreateDirectory(directory) => {
                    assert_eq!(directory, PathBuf::from("/data/sounds"))
                }
                _ => panic!("the directory comes first"),
            }
            let denied = Failure::new(FailureKind::PermissionDenied, "denied");
            match run.advance(ImportReply::Done(Err(denied))) {
                ImportStep::Finished(result) => {
                    assert_eq!(result.err().unwrap().message, "denied")
                }
                ImportStep::Ask { .. } => panic!("the import is over"),
            }
        }
        ImportStep::Finished(_) => panic!("the import begins"),
    }
}

#[test]
fn an_edited_library_comes_back_in_its_order() {
    let file = |name: &str| PathBuf::from("/data/sounds").join(name);
    let library = LibraryFile {
        version: 1,
        sounds: vec![],
    };
    let mut sounds = load_sounds(vec![file("b.mp3"), file("c.wav"), file("a.ogg")], &library);
    for (index, sound) in sounds.iter_mut().enumerate() {
        sound.name = format!("Name {index}");
        sound.aliases = vec![format!("alias {index}")];
        sound.volume = 10 * index as u8;
    }
    let stored = save_sounds(&PathBuf::from("/data"), &sounds).contents;
    let reloaded = load_sounds(vec![file("a.ogg"), file("c.wav"), file("b.mp3")], &stored);
    assert_eq!(reloaded.len(), 3);
    for (before, after) in sounds.iter().zip(&reloaded) {
        assert_eq!(before.path, after.path);
        assert_eq!(before.name, after.name);
        assert_eq!(before.aliases, after.aliases);
        assert_eq!(before.volume, after.volume);
    }
}

#[test]
fn replies_that_were_not_asked_for_end_an_import() {
    match import_sounds(&PathBuf::from("/data"), vec![]) {
        ImportStep::Ask { run, .. } => {
            assert!(run.has_names());
            match run.advance(ImportReply::Answer(true)) {
                ImportStep::Finished(result) => assert_eq!(
                    result.err().unwrap().message,
                    "the reply does not answer the request"
                ),
                ImportStep::Ask { .. } => panic!("the reply is out of turn"),
            }
        }
        ImportStep::Finished(_) => panic!("the import begins"),
    }
}
