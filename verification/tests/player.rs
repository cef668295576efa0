use std::path::PathBuf;

use soundboard_tui::failure::{Failure, FailureKind};
use soundboard_tui::json::{encode_json, parse_json, Json};
use soundboard_tui::playback::{
    play, play_on, PlayOnStep, PlayReply, PlayRequest, PlayStep, PlayerState, Target,
};
use soundboard_tui::player::{
    arguments_for, current_path, judge_line, last_log_line, lock_result, log_directory, mpv_arguments,
    response_error, rotated_log, sanitize_terminal_text, socket_path, startup_error, startup_text, stop,
    stop_local, with_log, LockOutcome, PlayerCommand, ReplyStep, LOCAL_LOG, LOCAL_SOCKET, MIX_LOG,
    MIX_SOCKET,
};

fn failure(kind: FailureKind, message: &str) -> Failure {
    Failure {
        kind,
        message: message.to_string(),
    }
}

fn json(text: &str) -> Json {
    parse_json(text.as_bytes()).ok().unwrap()
}

fn success() -> PlayReply {
    PlayReply::Response(Ok(json("{\"error\":\"success\",\"request_id\":1}")))
}

fn not_running() -> PlayReply {
    PlayReply::Response(Err(failure(FailureKind::NotFound, "no socket")))
}

/// Hands lines to the reader of replies until it has an answer.
fn answer(request_id: u64, lines: &[&str]) -> Result<Json, Failure> {
    for line in lines {
        match judge_line(request_id, Some(*line)) {
            ReplyStep::Skip => {}
            ReplyStep::Reply(reply) => return Ok(reply),
            ReplyStep::Failed(failed) => return Err(failed),
        }
    }
    match judge_line(request_id, None) {
        ReplyStep::Failed(failed) => Err(failed),
        _ => panic!("the stream has ended"),
    }
}

#[test]
fn sends_volume_before_loading_audio() {
    let step = play_on(PathBuf::from("/tmp/bonk.mp3"), 55, Target::Local);
    let (run, first) = match step {
        PlayOnStep::Ask { run, request } => (run, request),
        PlayOnStep::Finished(_) => panic!("the volume comes first"),
    };
    let first = match first {
        PlayRequest::Exchange(command) => command.line(),
        _ => panic!("a command is sent"),
    };
    let (run, second) = match run.advance(success()) {
        PlayOnStep::Ask {
            run,
            request: PlayRequest::Exchange(command),
        } => (run, command.line()),
        _ => panic!("a command is sent"),
    };
    match run.advance(success()) {
        PlayOnStep::Finished(result) => assert!(result.is_ok()),
        PlayOnStep::Ask { .. } => panic!("both commands were accepted"),
    }

    let commands = [
        serde_json::from_str::<serde_json::Value>(&first).unwrap(),
        serde_json::from_str::<serde_json::Value>(&second).unwrap(),
    ];
    assert_eq!(
        commands[0]["command"],
        serde_json::Value::from(vec![
            serde_json::Value::from("set_property"),
            serde_json::Value::from("volume"),
            serde_json::Value::from(55),
        ])
    );
    assert_eq!(
        commands[1]["command"],
        serde_json::Value::from(vec!["loadfile", "/tmp/bonk.mp3", "replace"])
    );
    assert_eq!(commands[0]["request_id"], PlayerCommand::SetVolume(55).request_id());
}

#[test]
fn a_command_is_one_line() {
    assert_eq!(
        PlayerCommand::GetPath.line(),
        "{\"command\":[\"get_property\",\"path\"],\"request_id\":4}\n"
    );
    assert_eq!(
        PlayerCommand::Load("a\"b\n".to_string()).line(),
        format!(
            "{{\"command\":[\"loadfile\",\"a\\\"b\\n\",\"replace\"],\"request_id\":{}}}\n",
            PlayerCommand::Load(String::new()).request_id()
        )
    );
}

#[test]
fn skips_events_before_the_matching_response() {
    let exchange = answer(
        4,
        &[
            "{\"event\":\"idle\"}",
            "{\"data\":\"/tmp/bonk.mp3\",\"error\":\"success\",\"request_id\":4}",
        ],
    );
    assert_eq!(
        current_path(exchange).unwrap(),
        Some(PathBuf::from("/tmp/bonk.mp3"))
    );
}

#[test]
fn reports_no_path_when_playback_is_idle() {
    let exchange = answer(4, &["{\"error\":\"property unavailable\",\"request_id\":4}"]);
    assert_eq!(current_path(exchange).unwrap(), None);
}

#[test]
fn a_reply_to_another_request_is_skipped() {
    let exchange = answer(
        4,
        &[
            "{\"error\":\"success\",\"request_id\":3}",
            "{\"error\":\"success\",\"data\":5,\"request_id\":4}",
        ],
    );
    assert_eq!(
        current_path(exchange).unwrap_err().message,
        "mpv returned an invalid playback path"
    );
    assert_eq!(
        answer(4, &["{\"event\":\"idle\"}"]).err().unwrap().kind,
        FailureKind::UnexpectedEof
    );
    assert_eq!(answer(4, &["nonsense"]).err().unwrap().kind, FailureKind::Other);
    assert!(answer(4, &["{\"error\":\"success\"}"]).is_ok());
}

#[test]
fn what_plays_is_unknown_only_where_mpv_fails() {
    assert_eq!(
        current_path(Err(failure(FailureKind::ConnectionRefused, "refused"))).unwrap(),
        None
    );
    assert_eq!(
        current_path(Err(failure(FailureKind::TimedOut, "slow")))
            .unwrap_err()
            .message,
        "slow"
    );
    assert_eq!(
        current_path(Ok(json("{\"error\":\"invalid parameter\"}")))
            .unwrap_err()
            .message,
        "mpv command failed: invalid parameter"
    );
}

#[test]
fn stopping_a_player_that_does_not_run_succeeds() {
    assert!(stop_local(Err(failure(FailureKind::NotFound, "none"))).is_ok());
    assert!(stop_local(Ok(json("{\"error\":\"success\"}"))).is_ok());
    let refused = stop(
        Ok(json("{\"error\":\"first\"}")),
        Ok(json("{\"error\":\"second\"}")),
    );
    assert_eq!(refused.unwrap_err().message, "mpv command failed: first");
    let refused = stop(
        Err(failure(FailureKind::NotFound, "none")),
        Ok(json("{\"error\":\"second\"}")),
    );
    assert_eq!(refused.unwrap_err().message, "mpv command failed: second");
}

#[test]
fn sanitizes_control_characters_from_logs() {
    assert_eq!(
        sanitize_terminal_text("bad\u{1b}[31m\nline"),
        "bad [31m line"
    );
}

#[test]
fn sanitizing_keeps_tabs_and_is_idempotent() {
    let once = sanitize_terminal_text("a\tb\u{7f}\u{85}é");
    assert_eq!(once, "a\tb  é");
    assert_eq!(sanitize_terminal_text(&once), once);
}

#[test]
fn the_last_log_line_is_shown() {
    let log = PathBuf::from("/state/mpv-mix.log");
    assert_eq!(
        last_log_line(&Some("first\nsecond\u{1b}\n  \n".to_string())).unwrap(),
        "second "
    );
    assert_eq!(last_log_line(&Some(" \n\n".to_string())), None);
    assert_eq!(
        startup_error("mpv did not start", &log, &Some("oops\n".to_string())).message,
        "mpv did not start. Log: /state/mpv-mix.log. Last log message: oops"
    );
    assert_eq!(
        startup_error("mpv did not start", &log, &None).message,
        "mpv did not start. Log: /state/mpv-mix.log."
    );
    let extended = with_log(&failure(FailureKind::TimedOut, "slow"), &log);
    assert_eq!(extended.kind, FailureKind::TimedOut);
    assert_eq!(extended.message, "slow. Log: /state/mpv-mix.log");
}

#[test]
fn sockets_and_logs_have_their_places() {
    let temporary = PathBuf::from("/tmp");
    assert_eq!(
        socket_path(Some(PathBuf::from("/run/user/1")), &temporary, MIX_SOCKET),
        PathBuf::from("/run/user/1").join(MIX_SOCKET)
    );
    assert_eq!(
        socket_path(None, &temporary, LOCAL_SOCKET),
        temporary.join(LOCAL_SOCKET)
    );
    assert_eq!(
        log_directory(None, Some(PathBuf::from("/home/user"))).unwrap(),
        PathBuf::from("/home/user/.local/state/soundboard-tui")
    );
    assert_eq!(
        log_directory(None, None).unwrap_err().message,
        "state directory not found"
    );
    let log = PathBuf::from("/state").join(LOCAL_LOG);
    assert_eq!(rotated_log(&log, Some(1048576)), None);
    assert_eq!(rotated_log(&log, None), None);
    assert_eq!(
        rotated_log(&log, Some(1048577)).unwrap(),
        PathBuf::from("/state/mpv-local.log.old")
    );
}

#[test]
fn mpv_is_started_for_its_device() {
    let arguments = mpv_arguments(
        &PathBuf::from("/run/a.sock"),
        &Some("pipewire/mix".to_string()),
        &PathBuf::from("/state").join(MIX_LOG),
    );
    assert_eq!(
        arguments,
        [
            "--no-config",
            "--idle=yes",
            "--no-terminal",
            "--no-video",
            "--ao=pipewire",
            "--msg-level=all=warn",
            "--log-file=/state/mpv-mix.log",
            "--audio-device=pipewire/mix",
            "--input-ipc-server=/run/a.sock",
        ]
    );
}

#[test]
fn playback_is_locked_against_other_instances() {
    assert!(lock_result(LockOutcome::Locked).is_ok());
    assert_eq!(
        lock_result(LockOutcome::Busy).unwrap_err().kind,
        FailureKind::WouldBlock
    );
    assert_eq!(
        lock_result(LockOutcome::Failed(failure(FailureKind::Other, "x")))
            .unwrap_err()
            .message,
        "x"
    );
}

#[test]
fn documents_are_read_and_written() {
    let text = "{\"a\":[null,true,18446744073709551615,\"x\"],\"b\":{\"c\":7}}";
    let document = json(text);
    assert_eq!(encode_json(&document), text);
    assert!(matches!(document.get("b"), Some(Json::Object(_))));
    assert!(document.get("z").is_none());
    assert!(matches!(json("-1"), Json::Number(None)));
    assert!(matches!(json("1.5"), Json::Number(None)));
    assert_eq!(response_error(&json("{\"error\":\"no\"}")), "no");
    assert!(parse_json(b"{\"a\":}").is_err());
}

/// Runs a player that is not there and starts at once.
#[test]
fn a_player_that_does_not_run_is_started() {
    let mut step = play_on(PathBuf::from("/tmp/bonk.mp3"), 100, Target::Local);
    let mut seen: Vec<String> = Vec::new();
    let mut started = false;
    loop {
        let (run, request) = match step {
            PlayOnStep::Ask { run, request } => (run, request),
            PlayOnStep::Finished(result) => {
                assert!(result.is_ok());
                break;
            }
        };
        let reply = match request {
            PlayRequest::Exchange(command) => {
                seen.push(command.line());
                if started {
                    success()
                } else {
                    not_running()
                }
            }
            PlayRequest::RemoveSocket => PlayReply::Done(Ok(())),
            PlayRequest::PrepareLog => PlayReply::Log(Ok(PathBuf::from("/state/mpv-local.log"))),
            PlayRequest::Start(log) => {
                assert_eq!(log, PathBuf::from("/state/mpv-local.log"));
                started = true;
                PlayReply::Done(Ok(()))
            }
            PlayRequest::Poll => PlayReply::State(PlayerState::Running),
            PlayRequest::Pause => PlayReply::Done(Ok(())),
            _ => panic!("nothing else is asked for"),
        };
        step = run.advance(reply);
    }
    assert!(started);
    assert_eq!(seen.len(), 3);
    assert!(seen[1].contains("set_property") && seen[2].contains("loadfile"));
}

#[test]
fn a_player_that_ends_is_reported() {
    let step = play_on(PathBuf::from("/tmp/bonk.mp3"), 100, Target::Local);
    let mut step = step;
    let failed = loop {
        let (run, request) = match step {
            PlayOnStep::Ask { run, request } => (run, request),
            PlayOnStep::Finished(result) => break result.unwrap_err(),
        };
        let reply = match request {
            PlayRequest::Exchange(_) => not_running(),
            PlayRequest::RemoveSocket => PlayReply::Done(Ok(())),
            PlayRequest::PrepareLog => PlayReply::Log(Ok(PathBuf::from("/state/mpv-local.log"))),
            PlayRequest::Start(_) => PlayReply::Done(Ok(())),
            PlayRequest::Poll => {
                PlayReply::State(PlayerState::Exited("exit status: 2".to_string()))
            }
            PlayRequest::ReadLog(_) => PlayReply::Contents(Some("no device\n".to_string())),
            _ => panic!("nothing else is asked for"),
        };
        step = run.advance(reply);
    };
    assert!(failed.message.contains("exit status: 2"), "{}", failed.message);
    assert!(
        failed.message.ends_with("Last log message: no device"),
        "{}",
        failed.message
    );
}

/// Plays on players that run: the one for the microphone on its device.
fn run_play(
    local_playback: bool,
    local_reply: &dyn Fn() -> PlayReply,
) -> (Option<String>, Vec<String>) {
    let mut seen: Vec<String> = Vec::new();
    let mut step = play(PathBuf::from("/tmp/bonk.mp3"), 80, local_playback, "mix");
    loop {
        let (run, request) = match step {
            PlayStep::Ask { run, request } => (run, request),
            PlayStep::Finished(result) => return (result.ok().unwrap().local_error, seen),
        };
        let is_local = run.target().socket_name() == LOCAL_SOCKET;
        let reply = match request {
            PlayRequest::Exchange(command) => {
                seen.push(format!("{} {}", run.target().socket_name(), command.line()));
                if is_local {
                    local_reply()
                } else {
                    match command {
                        PlayerCommand::GetDevice => PlayReply::Response(Ok(json(
                            "{\"error\":\"success\",\"data\":\"pipewire/mix\",\"request_id\":5}",
                        ))),
                        _ => success(),
                    }
                }
            }
            _ => panic!("the players run"),
        };
        step = run.advance(reply);
    }
}

#[test]
fn a_sound_goes_to_the_microphone_and_then_locally() {
    let (local_error, seen) = run_play(true, &success);
    assert_eq!(local_error, None);
    assert!(seen[0].starts_with(MIX_SOCKET) && seen[0].contains("audio-device"));
    assert!(seen.last().unwrap().starts_with(LOCAL_SOCKET));
    assert!(seen.last().unwrap().contains("loadfile"));
}

#[test]
fn the_local_output_is_silenced_where_it_is_off() {
    let (local_error, seen) = run_play(false, &success);
    assert_eq!(local_error, None);
    assert!(seen.last().unwrap().starts_with(LOCAL_SOCKET));
    assert!(seen.last().unwrap().contains("stop"));
    assert!(!seen
        .iter()
        .any(|line| line.starts_with(LOCAL_SOCKET) && line.contains("loadfile")));
}

#[test]
fn a_local_failure_does_not_fail_the_sound() {
    let (local_error, _) = run_play(true, &|| {
        PlayReply::Response(Ok(json("{\"error\":\"broken\"}")))
    });
    assert_eq!(local_error.unwrap(), "mpv command failed: broken");
}

#[test]
fn texts_of_paths_are_put_into_the_arguments() {
    let arguments = arguments_for("s", &None, "l");
    assert_eq!(arguments.len(), 8);
    assert_eq!(arguments[6], "--log-file=l");
    assert_eq!(arguments[7], "--input-ipc-server=s");
    assert_eq!(
        startup_text("m", "l", &Some("x".to_string())),
        "m. Log: l. Last log message: x"
    );
}

#[test]
fn a_player_on_another_device_is_made_to_quit() {
    let target = Target::Mix {
        device: "pipewire/new".to_string(),
    };
    let mut step = play_on(PathBuf::from("/tmp/bonk.mp3"), 100, target);
    let mut commands: Vec<String> = Vec::new();
    let mut looks = 0;
    let failed = loop {
        let (run, request) = match step {
            PlayOnStep::Ask { run, request } => (run, request),
            PlayOnStep::Finished(result) => break result.unwrap_err(),
        };
        let reply = match request {
            PlayRequest::Exchange(command) => {
                commands.push(command.line());
                match command {
                    PlayerCommand::GetDevice => PlayReply::Response(Ok(json(
                        "{\"error\":\"success\",\"data\":\"pipewire/old\",\"request_id\":5}",
                    ))),
                    _ => success(),
                }
            }
            PlayRequest::Gone => {
                looks += 1;
                PlayReply::Answer(false)
            }
            PlayRequest::Pause => PlayReply::Done(Ok(())),
            _ => panic!("the player is still there"),
        };
        step = run.advance(reply);
    };
    assert_eq!(commands.len(), 2);
    assert!(commands[1].contains("quit"));
    assert_eq!(looks, 40);
    assert_eq!(failed.kind, FailureKind::TimedOut);
    assert_eq!(
        failed.message,
        "mpv did not stop after the audio destination changed"
    );
}

#[test]
fn a_player_that_never_listens_is_given_up() {
    let mut step = play_on(PathBuf::from("/tmp/bonk.mp3"), 100, Target::Local);
    let mut looks = 0;
    let mut cleaned = false;
    let failed = loop {
        let (run, request) = match step {
            PlayOnStep::Ask { run, request } => (run, request),
            PlayOnStep::Finished(result) => break result.unwrap_err(),
        };
        let reply = match request {
            PlayRequest::Exchange(_) => not_running(),
            PlayRequest::PrepareLog => PlayReply::Log(Ok(PathBuf::from("/state/l.log"))),
            PlayRequest::Poll => {
                looks += 1;
                PlayReply::State(PlayerState::Running)
            }
            PlayRequest::CleanUp => {
                cleaned = true;
                PlayReply::Done(Ok(()))
            }
            PlayRequest::ReadLog(_) => PlayReply::Contents(None),
            _ => PlayReply::Done(Ok(())),
        };
        step = run.advance(reply);
    };
    assert_eq!(looks, 40);
    assert!(cleaned);
    assert_eq!(
        failed.message,
        "mpv did not create its IPC socket. Log: /state/l.log."
    );
}

#[test]
fn replies_that_were_not_asked_for_end_a_run() {
    let run = match play_on(PathBuf::from("/tmp/bonk.mp3"), 100, Target::Local) {
        PlayOnStep::Ask { run, .. } => run,
        PlayOnStep::Finished(_) => panic!("the volume comes first"),
    };
    match run.advance(PlayReply::Answer(true)) {
        PlayOnStep::Finished(result) => assert_eq!(
            result.unwrap_err().message,
            "the reply does not answer the request"
        ),
        PlayOnStep::Ask { .. } => panic!("the reply is out of turn"),
    }
    let run = match play(PathBuf::from("/tmp/bonk.mp3"), 100, false, "mix") {
        PlayStep::Ask { run, .. } => run,
        PlayStep::Finished(_) => panic!("the device comes first"),
    };
    match run.advance(PlayReply::Contents(None)) {
        PlayStep::Finished(result) => assert!(result.is_err()),
        PlayStep::Ask { .. } => panic!("the reply is out of turn"),
    }
}
