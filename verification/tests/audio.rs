use std::path::PathBuf;

use soundboard_tui::audio::{
    asks_for_outputs, diagnose, has_managed_marker, loopback_loaded, managed_config_path, managed_mix_installed, managed_mix_ready, mentions_pipewire,
    parse_pw_dump, protect_unmanaged_file, render_config, source_matches_modules,
    source_matches_sink, sources_for_sink, validate_source_name, AudioInventory, AudioNode,
    CommandOutput, CommandResult, Diagnostics, CONFIG_FILE_NAME, MANAGED_MARKER,
    MANAGED_SINK_NAME, MANAGED_SOURCE_NAME,
};
use soundboard_tui::command::{
    command_result, failure_message, fault_message, removed, restart_result, restart_step, temporary_name, temporary_step,
    watch_command, ChildPoll, CommandFault, CommandStep, RestartStep, TemporaryStep,
};
use soundboard_tui::failure::{Failure, FailureKind};
use soundboard_tui::mix::{
    install_managed_mix, remove_managed_mix, InstallStep, MixReply, MixRequest, RemoveStep,
};

fn printed(text: &str) -> CommandResult {
    Ok(CommandOutput {
        stdout: text.as_bytes().to_vec(),
        stderr: Vec::new(),
    })
}

fn node(name: &str, is_virtual: bool) -> AudioNode {
    AudioNode {
        name: name.to_string(),
        description: format!("{name} node"),
        is_virtual,
    }
}

fn failure(kind: FailureKind, message: &str) -> Failure {
    Failure {
        kind,
        message: message.to_string(),
    }
}

#[test]
fn parses_and_classifies_pw_dump_nodes() {
    let dump = br#"[
            {"info":{"props":{"media.class":"Audio/Source","node.name":"alsa_input.usb","node.description":"USB microphone"}}},
            {"info":{"props":{"media.class":"Audio/Sink","node.name":"alsa_output.pci","node.nick":"Speakers"}}},
            {"info":{"props":{"media.class":"Audio/Source","node.name":"alsa_output.pci.monitor","node.description":"Monitor"}}},
            {"info":{"props":{"media.class":"Audio/Source/Virtual","node.name":"virtual_mic"}}},
            {"info":{"props":{"media.class":"Stream/Output/Audio","node.name":"ignored"}}}
        ]"#;

    let inventory = parse_pw_dump(dump).unwrap();
    assert_eq!(inventory.physical_sources.len(), 1);
    assert_eq!(inventory.physical_sources[0].name, "alsa_input.usb");
    assert_eq!(inventory.sinks.len(), 1);
    assert_eq!(inventory.sinks[0].description, "Speakers");
    assert_eq!(inventory.virtual_sources.len(), 2);
    assert_eq!(inventory.virtual_sources[0].name, "alsa_output.pci.monitor");
    assert_eq!(inventory.virtual_sources[1].description, "virtual_mic");
}

#[test]
fn virtual_nodes_are_told_by_their_properties() {
    let dump = br#"[
        {"info":{"props":{"media.class":"Audio/Sink","node.name":"c","device.id":3,"device.api":"alsa"}}},
        {"info":{"props":{"media.class":"Audio/Sink","node.name":"b","device.id":3,"factory.name":"support.null-audio-sink"}}},
        {"info":{"props":{"media.class":"Audio/Sink","node.name":"a","device.id":3,"node.virtual":"true"}}},
        {"info":{"props":{"media.class":"Audio/Source","node.name":"m","monitor.channel-volumes":false}}},
        {"info":{"props":{"media.class":"Audio/Source","node.name":"n","node.virtual":1}}},
        {"info":{}}, 5
    ]"#;
    let inventory = parse_pw_dump(dump).unwrap();
    let names: Vec<(&str, bool)> = inventory
        .sinks
        .iter()
        .map(|sink| (sink.name.as_str(), sink.is_virtual))
        .collect();
    assert_eq!(names, [("a", true), ("b", true), ("c", false)]);
    assert_eq!(inventory.virtual_sources.len(), 2);
    assert_eq!(inventory.virtual_sources[0].name, "m");
    assert_eq!(inventory.physical_sources.len(), 0);
}

#[test]
fn a_dump_that_is_no_json_is_refused() {
    let message = parse_pw_dump(b"pw-dump: no connection").err().unwrap();
    assert!(message.contains("expected"), "{message}");
    assert_eq!(parse_pw_dump(b"{}").unwrap().sinks.len(), 0);
}

#[test]
fn validates_source_names_strictly() {
    for valid in ["alsa_input.usb-1:2", "microphone_1", "source.name"] {
        assert!(validate_source_name(valid).is_ok(), "{valid}");
    }
    for invalid in ["", "source name", "source/name", "source\nname", "ç"] {
        assert!(validate_source_name(invalid).is_err(), "{invalid}");
    }
}

#[test]
fn renders_managed_modules() {
    let config = render_config("alsa_input.usb");
    assert!(config.starts_with(MANAGED_MARKER));
    assert!(config.contains("module-null-sink sink_name=soundboard_tui_mix"));
    assert!(config.contains("module-loopback source=alsa_input.usb sink=soundboard_tui_mix"));
}

#[test]
fn a_rendered_configuration_carries_the_marker() {
    assert!(has_managed_marker(&render_config("alsa_input.usb")));
    assert!(has_managed_marker("# Managed by soundboard_tui\r\n"));
    assert!(!has_managed_marker("# Managed by soundboard_tui"));
    assert!(!has_managed_marker("# Managed by soundboard_tui 2\n"));
}

#[test]
fn refuses_to_replace_a_file_without_the_marker() {
    let path = PathBuf::from("/home/user").join(CONFIG_FILE_NAME);

    let error = protect_unmanaged_file(&path, &Ok("pulse.cmd = [ ]\n".to_string())).unwrap_err();
    assert_eq!(error.kind, FailureKind::AlreadyExists);
    assert!(!has_managed_marker("prefix # Managed by soundboard_tui\n"));

    assert!(protect_unmanaged_file(&path, &Ok(render_config("source.name"))).is_ok());
    assert!(
        protect_unmanaged_file(&path, &Err(failure(FailureKind::NotFound, "gone"))).is_ok()
    );
    let error = protect_unmanaged_file(&path, &Err(failure(FailureKind::PermissionDenied, "no")))
        .unwrap_err();
    assert_eq!(error.kind, FailureKind::PermissionDenied);
    assert_eq!(error.message, "no");
}

#[test]
fn associates_direct_and_remapped_sources_with_a_sink() {
    let modules = "536870916 module-null-sink sink_name=discord_mix\n\
            536870918 module-remap-source master=discord_mix.monitor source_name=discord_mic";

    assert!(source_matches_modules(
        modules,
        "discord_mix",
        "discord_mix.monitor"
    ));
    assert!(source_matches_modules(
        modules,
        "discord_mix",
        "discord_mic"
    ));
    assert!(!source_matches_modules(
        modules,
        "discord_mix",
        "unrelated_source"
    ));
}

#[test]
fn finds_the_sources_of_a_sink() {
    let diagnostics = Diagnostics {
        inventory: AudioInventory {
            physical_sources: vec![],
            sinks: vec![node("mix", true)],
            virtual_sources: vec![node("mic", true), node("mix.monitor", true), node("z", true)],
        },
        ..Diagnostics::default()
    };
    let modules = printed("5 module-remap-source master=mix.monitor source_name=mic\n");
    let sources = sources_for_sink(&diagnostics, "mix", &modules).unwrap();
    let names: Vec<&str> = sources.iter().map(|source| source.name.as_str()).collect();
    assert_eq!(names, ["mic", "mix.monitor"]);
    assert!(source_matches_sink(&diagnostics, "mix", "mic", &modules).unwrap());
    assert!(!source_matches_sink(&diagnostics, "mix", "z", &modules).unwrap());
    let error =
        source_matches_sink(&diagnostics, "mix", "mic", &Err("no pactl".to_string())).unwrap_err();
    assert_eq!(error.kind, FailureKind::Other);
    assert_eq!(error.message, "no pactl");
}

#[test]
fn the_managed_mix_needs_its_nodes_and_its_loopback() {
    let mut diagnostics = Diagnostics::default();
    let modules = printed("7 module-loopback source=usb sink=soundboard_tui_mix latency=20\n");
    assert!(!managed_mix_ready("usb", &diagnostics, &Err("x".to_string())).unwrap());
    diagnostics.inventory.sinks.push(node(MANAGED_SINK_NAME, true));
    diagnostics
        .inventory
        .virtual_sources
        .push(node(MANAGED_SOURCE_NAME, true));
    assert!(managed_mix_ready("usb", &diagnostics, &modules).unwrap());
    assert!(!managed_mix_ready("other", &diagnostics, &modules).unwrap());
    assert_eq!(
        managed_mix_ready("usb", &diagnostics, &Err("x".to_string()))
            .unwrap_err()
            .message,
        "x"
    );
}

#[test]
fn an_installed_mix_is_told_by_its_marker() {
    assert!(managed_mix_installed(&Ok(render_config("usb"))).unwrap());
    assert!(!managed_mix_installed(&Ok("pulse.cmd = [ ]\n".to_string())).unwrap());
    assert!(!managed_mix_installed(&Err(failure(FailureKind::NotFound, "gone"))).unwrap());
    assert_eq!(
        managed_mix_installed(&Err(failure(FailureKind::InvalidData, "bad")))
            .unwrap_err()
            .kind,
        FailureKind::InvalidData
    );
}

#[test]
fn the_configuration_follows_the_directories_of_the_user() {
    let home = Some(PathBuf::from("/home/user"));
    assert_eq!(
        managed_config_path(Some(PathBuf::from("/cfg")), home.clone()).unwrap(),
        PathBuf::from("/cfg/pipewire/pipewire-pulse.conf.d/90-soundboard-tui.conf")
    );
    assert_eq!(
        managed_config_path(None, home).unwrap(),
        PathBuf::from(
            "/home/user/.config/pipewire/pipewire-pulse.conf.d/90-soundboard-tui.conf"
        )
    );
    assert_eq!(
        managed_config_path(None, None).unwrap_err().kind,
        FailureKind::NotFound
    );
}

#[test]
fn diagnoses_each_command() {
    let good = diagnose(
        printed("[]"),
        printed("Server Name: PulseAudio (on PipeWire 1.0)"),
        printed("mpv 0.38"),
        Ok(CommandOutput {
            stdout: b"Available audio outputs:".to_vec(),
            stderr: b" PIPEWIRE ".to_vec(),
        }),
    );
    assert!(good.playback_ready() && good.creation_ready());
    assert!(good.errors().is_empty());

    let bad = diagnose(
        printed("nonsense"),
        printed("Server Name: pulseaudio"),
        printed("mpv 0.38"),
        printed("alsa"),
    );
    assert!(!bad.playback_ready() && !bad.creation_ready());
    let errors = bad.errors();
    assert_eq!(errors.len(), 3);
    assert!(errors[0].starts_with("could not parse pw-dump output: "));
    assert_eq!(errors[1], "pactl is available, but its server is not PipeWire");
    assert_eq!(errors[2], "mpv does not report PipeWire audio output support");

    let absent = diagnose(
        Err("could not run pw-dump".to_string()),
        Err("could not run pactl".to_string()),
        Err("could not run mpv".to_string()),
        printed("pipewire"),
    );
    assert_eq!(
        absent.errors(),
        ["could not run pw-dump", "could not run pactl", "could not run mpv"]
    );
    assert_eq!(absent.inventory.sinks.len(), 0);
}

#[test]
fn commands_are_waited_for_five_seconds() {
    assert!(matches!(
        watch_command("mpv", ChildPoll::Running { elapsed_millis: 4999 }),
        CommandStep::Pause
    ));
    match watch_command("mpv", ChildPoll::Running { elapsed_millis: 5000 }) {
        CommandStep::Kill(message) => assert_eq!(message, "mpv timed out after 5 seconds"),
        _ => panic!("the command is to be killed"),
    }
    assert!(matches!(
        watch_command("mpv", ChildPoll::Exited),
        CommandStep::Collect
    ));
    match watch_command("mpv", ChildPoll::Unknown("lost".to_string())) {
        CommandStep::GiveUp(message) => assert_eq!(message, "could not wait for mpv: lost"),
        _ => panic!("the command is to be left"),
    }
}

#[test]
fn failed_commands_report_what_they_printed() {
    let output = CommandOutput {
        stdout: b"out".to_vec(),
        stderr: b" broken \n".to_vec(),
    };
    assert!(command_result("pactl", true, "exit status: 0", output.clone()).is_ok());
    assert_eq!(
        command_result("pactl", false, "exit status: 1", output).unwrap_err(),
        "pactl failed: broken"
    );
    let silent = CommandOutput {
        stdout: vec![],
        stderr: b"  ".to_vec(),
    };
    assert_eq!(
        command_result("pactl", false, "exit status: 1", silent).unwrap_err(),
        "pactl failed: exit status exit status: 1"
    );
}

#[test]
fn a_restart_falls_back_to_the_server() {
    assert!(matches!(restart_step(printed("")), RestartStep::Restarted));
    match restart_step(Err("no systemd".to_string())) {
        RestartStep::Fallback(message) => assert_eq!(message, "no systemd"),
        RestartStep::Restarted => panic!("it failed"),
    }
    assert!(restart_result("no systemd", printed("")).is_ok());
    assert_eq!(
        restart_result("no systemd", Err("no pactl".to_string()))
            .unwrap_err()
            .message,
        "could not restart PipeWire Pulse: no systemd; fallback failed: no pactl"
    );
}

#[test]
fn temporary_files_have_names_of_their_own() {
    assert_eq!(temporary_name("a.conf", 12, 340, 1), ".a.conf.12.341.tmp");
    assert!(matches!(temporary_step(0, Ok(())), TemporaryStep::Write));
    assert!(matches!(
        temporary_step(0, Err(failure(FailureKind::AlreadyExists, "taken"))),
        TemporaryStep::Retry(1)
    ));
    match temporary_step(99, Err(failure(FailureKind::AlreadyExists, "taken"))) {
        TemporaryStep::GiveUp(given) => {
            assert_eq!(given.message, "could not allocate a temporary config file")
        }
        _ => panic!("no name is left"),
    }
    match temporary_step(0, Err(failure(FailureKind::PermissionDenied, "no"))) {
        TemporaryStep::GiveUp(given) => assert_eq!(given.message, "no"),
        _ => panic!("it is given up"),
    }
    assert!(removed(Err(failure(FailureKind::NotFound, "gone"))).is_ok());
    assert!(removed(Err(failure(FailureKind::Other, "no"))).is_err());
}

fn asked(step: InstallStep) -> (soundboard_tui::mix::MixInstall, MixRequest) {
    match step {
        InstallStep::Ask { run, request } => (run, request),
        InstallStep::Finished(_) => panic!("the installation goes on"),
    }
}

#[test]
fn installs_the_mix_and_waits_for_it() {
    let path = PathBuf::from("/cfg/pipewire/a.conf");
    let (run, request) = asked(install_managed_mix("usb", Ok(path)));
    assert!(matches!(request, MixRequest::ReadText));
    let (run, request) = asked(run.advance(MixReply::Text(Err(failure(
        FailureKind::NotFound,
        "gone",
    )))));
    assert!(matches!(request, MixRequest::ReadBytes));
    let (run, request) = asked(run.advance(MixReply::Bytes(Err(failure(
        FailureKind::NotFound,
        "gone",
    )))));
    match request {
        MixRequest::CreateDirectory(directory) => {
            assert_eq!(directory, PathBuf::from("/cfg/pipewire"))
        }
        _ => panic!("the directory comes first"),
    }
    let (run, request) = asked(run.advance(MixReply::Done(Ok(()))));
    match request {
        MixRequest::Write(text) => assert_eq!(text, render_config("usb")),
        _ => panic!("the file is written"),
    }
    let (run, request) = asked(run.advance(MixReply::Done(Ok(()))));
    assert!(matches!(request, MixRequest::Restart));
    let (run, request) = asked(run.advance(MixReply::Done(Ok(()))));
    assert!(matches!(request, MixRequest::Check { pause: false }));
    let (run, request) = asked(run.advance(MixReply::Checked {
        ready: Ok(false),
        pipewire_error: None,
    }));
    assert!(matches!(request, MixRequest::Check { pause: true }));
    match run.advance(MixReply::Checked {
        ready: Ok(true),
        pipewire_error: None,
    }) {
        InstallStep::Finished(result) => assert!(result.is_ok()),
        InstallStep::Ask { .. } => panic!("the mix is ready"),
    }
}

#[test]
fn an_unmanaged_file_ends_the_installation() {
    let path = PathBuf::from("/cfg/pipewire/a.conf");
    let (run, _) = asked(install_managed_mix("usb", Ok(path)));
    match run.advance(MixReply::Text(Ok("pulse.cmd = [ ]\n".to_string()))) {
        InstallStep::Finished(result) => {
            assert_eq!(result.unwrap_err().kind, FailureKind::AlreadyExists)
        }
        InstallStep::Ask { .. } => panic!("the file is not ours"),
    }
    match install_managed_mix("bad name", Ok(PathBuf::from("/cfg/a.conf"))) {
        InstallStep::Finished(result) => {
            assert_eq!(result.unwrap_err().kind, FailureKind::InvalidInput)
        }
        InstallStep::Ask { .. } => panic!("the name is refused"),
    }
}

#[test]
fn a_failed_restart_restores_the_previous_file() {
    let path = PathBuf::from("/cfg/pipewire/a.conf");
    let (run, _) = asked(install_managed_mix("usb", Ok(path)));
    let (run, _) = asked(run.advance(MixReply::Text(Ok(render_config("old")))));
    let (run, _) = asked(run.advance(MixReply::Bytes(Ok(vec![1, 2]))));
    let (run, _) = asked(run.advance(MixReply::Done(Ok(()))));
    let (run, _) = asked(run.advance(MixReply::Done(Ok(()))));
    let (run, request) = asked(run.advance(MixReply::Done(Err(failure(
        FailureKind::Other,
        "no restart",
    )))));
    match request {
        MixRequest::Restore(previous) => assert_eq!(previous, Some(vec![1, 2])),
        _ => panic!("the file is put back"),
    }
    let (run, request) = asked(run.advance(MixReply::Done(Ok(()))));
    assert!(matches!(request, MixRequest::Restart));
    match run.advance(MixReply::Done(Ok(()))) {
        InstallStep::Finished(result) => assert!(
            result.unwrap_err().message.contains("no restart"),
            "the failure is kept"
        ),
        InstallStep::Ask { .. } => panic!("nothing is left to do"),
    }
}

#[test]
fn removes_only_its_own_file() {
    let path = PathBuf::from("/cfg/pipewire/a.conf");
    let run = match remove_managed_mix(Ok(path.clone())) {
        RemoveStep::Ask { run, request } => {
            assert!(matches!(request, MixRequest::ReadText));
            run
        }
        RemoveStep::Finished(_) => panic!("the file is read first"),
    };
    match run.advance(MixReply::Text(Ok("pulse.cmd = [ ]\n".to_string()))) {
        RemoveStep::Finished(result) => assert!(result.is_err()),
        RemoveStep::Ask { .. } => panic!("the file is not ours"),
    }
    let run = match remove_managed_mix(Ok(path)) {
        RemoveStep::Ask { run, .. } => run,
        RemoveStep::Finished(_) => panic!("the file is read first"),
    };
    match run.advance(MixReply::Text(Ok(render_config("usb")))) {
        RemoveStep::Ask { request, .. } => assert!(matches!(request, MixRequest::Delete)),
        RemoveStep::Finished(_) => panic!("the file is ours"),
    }
}

#[test]
fn texts_are_judged_as_they_are() {
    assert!(mentions_pipewire("PulseAudio (on PIPEWIRE 1.0)"));
    assert!(!mentions_pipewire("pipe wire"));
    assert!(loopback_loaded("x\n1 module-loopback source=a sink=soundboard_tui_mix", "a"));
    assert!(!loopback_loaded("1 module-loopback source=b sink=soundboard_tui_mix", "a"));
    assert_eq!(failure_message("pactl", "9", "\t\n"), "pactl failed: exit status 9");
    assert_eq!(failure_message("pactl", "9", " no\n"), "pactl failed: no");
}

#[test]
fn output_that_is_no_utf8_is_read_with_replacements() {
    let output = CommandOutput {
        stdout: vec![],
        stderr: vec![b'n', b'o', 0xff],
    };
    assert_eq!(
        command_result("pactl", false, "1", output).unwrap_err(),
        "pactl failed: no\u{fffd}"
    );
}

#[test]
fn the_mix_is_waited_for_ten_times() {
    let (run, _) = asked(install_managed_mix("usb", Ok(PathBuf::from("/cfg/p/a.conf"))));
    let (run, _) = asked(run.advance(MixReply::Text(Ok(render_config("old")))));
    let (run, _) = asked(run.advance(MixReply::Bytes(Ok(vec![7]))));
    let (run, _) = asked(run.advance(MixReply::Done(Ok(()))));
    let (run, _) = asked(run.advance(MixReply::Done(Ok(()))));
    let (mut run, mut request) = asked(run.advance(MixReply::Done(Ok(()))));
    let mut looks = 0;
    while let MixRequest::Check { pause } = request {
        assert_eq!(pause, looks > 0);
        looks += 1;
        let next = asked(run.advance(MixReply::Checked {
            ready: Ok(false),
            pipewire_error: Some("no sink".to_string()),
        }));
        run = next.0;
        request = next.1;
    }
    assert_eq!(looks, 10);
    assert!(matches!(request, MixRequest::Restore(Some(_))));
    match run.advance(MixReply::Done(Err(failure(FailureKind::Other, "read-only")))) {
        InstallStep::Finished(result) => {
            let failed = result.unwrap_err();
            assert_eq!(failed.kind, FailureKind::TimedOut);
            assert_eq!(
                failed.message,
                "PipeWire restarted, but the managed mix was incomplete: no sink; rollback also failed: read-only"
            );
        }
        InstallStep::Ask { .. } => panic!("the rollback failed"),
    }
}

#[test]
fn a_failed_removal_is_rolled_back() {
    let run = match remove_managed_mix(Ok(PathBuf::from("/cfg/p/a.conf"))) {
        RemoveStep::Ask { run, .. } => run,
        RemoveStep::Finished(_) => panic!("the file is read first"),
    };
    let mut step = run.advance(MixReply::Text(Ok(render_config("usb"))));
    let replies = [
        Ok(()),
        Err(failure(FailureKind::Other, "no restart")),
        Ok(()),
        Ok(()),
    ];
    let mut written: Option<String> = None;
    for reply in replies {
        step = match step {
            RemoveStep::Ask { run, request } => {
                if let MixRequest::Write(text) = request {
                    written = Some(text);
                }
                run.advance(MixReply::Done(reply))
            }
            RemoveStep::Finished(_) => panic!("the removal goes on"),
        };
    }
    assert_eq!(written, Some(render_config("usb")));
    match step {
        RemoveStep::Finished(result) => assert_eq!(
            result.unwrap_err().message,
            "no restart; removal rolled back"
        ),
        RemoveStep::Ask { .. } => panic!("the removal is over"),
    }
    match remove_managed_mix(Err(failure(FailureKind::NotFound, "no home"))) {
        RemoveStep::Finished(result) => assert_eq!(result.unwrap_err().message, "no home"),
        RemoveStep::Ask { .. } => panic!("there is no file"),
    }
}

#[test]
fn outputs_are_asked_for_only_after_the_version() {
    assert!(asks_for_outputs(&printed("mpv 0.38")));
    assert!(!asks_for_outputs(&Err("could not run mpv".to_string())));
}

#[test]
fn commands_that_cannot_be_run_or_read_are_reported() {
    assert_eq!(
        fault_message("mpv", CommandFault::NotStarted("gone".to_string())),
        "could not run mpv: gone"
    );
    assert_eq!(
        fault_message("mpv", CommandFault::ReaderLost { errors: false }),
        "stdout reader for mpv panicked"
    );
    assert_eq!(
        fault_message("mpv", CommandFault::ReaderLost { errors: true }),
        "stderr reader for mpv panicked"
    );
    let unreadable = CommandFault::Unreadable {
        errors: true,
        reason: "closed".to_string(),
    };
    assert_eq!(
        fault_message("mpv", unreadable),
        "could not read stderr from mpv: closed"
    );
}

#[test]
fn replies_that_were_not_asked_for_end_the_mix() {
    let (run, _) = asked(install_managed_mix("usb", Ok(PathBuf::from("/cfg/p/a.conf"))));
    match run.advance(MixReply::Done(Ok(()))) {
        InstallStep::Finished(result) => assert_eq!(
            result.unwrap_err().message,
            "the reply does not answer the request"
        ),
        InstallStep::Ask { .. } => panic!("the reply is out of turn"),
    }
    let run = match remove_managed_mix(Ok(PathBuf::from("/cfg/p/a.conf"))) {
        RemoveStep::Ask { run, .. } => run,
        RemoveStep::Finished(_) => panic!("the file is read first"),
    };
    match run.advance(MixReply::Done(Ok(()))) {
        RemoveStep::Finished(result) => assert_eq!(
            result.unwrap_err().message,
            "the reply does not answer the request"
        ),
        RemoveStep::Ask { .. } => panic!("the reply is out of turn"),
    }
}
