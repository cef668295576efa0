//! The protocol that is spoken with mpv: commands, replies, and what follows from them.

use std::path::PathBuf;

use vstd::prelude::*;
use vstd::string::StringExecFns;

use crate::failure;
use crate::failure::{Failure, FailureKind};
use crate::json;
use crate::json::{encode_json, parse_json, Json, JsonView};
use crate::path;
use crate::path::{child, display, path_from, with_extension};
use crate::text;
use crate::text::{join2, join3, join4, lines, trim};

verus! {

/// The socket of the player that feeds the virtual microphone.
pub const MIX_SOCKET: &'static str = "soundboard-tui-mpv.sock";

/// The socket of the player for the local output.
pub const LOCAL_SOCKET: &'static str = "soundboard-tui-local-mpv.sock";

/// The log of the player that feeds the virtual microphone.
pub const MIX_LOG: &'static str = "mpv-mix.log";

/// The log of the player for the local output.
pub const LOCAL_LOG: &'static str = "mpv-local.log";

/// A log that is longer than this many bytes is put aside.
pub const MAX_LOG_BYTES: u64 = 1048576;

/// What became of playing a sound that the virtual microphone got.
pub struct PlayOutcome {
    pub local_error: Option<String>,
}

/// A command to mpv.
pub enum PlayerCommand {
    SetVolume(u8),
    Load(String),
    Stop,
    GetPath,
    GetDevice,
    Quit,
}

/// The words of a command.
pub open spec fn command_words(command: PlayerCommand) -> Seq<JsonView> {
    match command {
        PlayerCommand::SetVolume(volume) => seq![
            JsonView::Text("set_property"@),
            JsonView::Text("volume"@),
            JsonView::Number(Some(if volume <= 100 {
                volume as u64
            } else {
                100
            })),
        ],
        PlayerCommand::Load(file) => seq![
            JsonView::Text("loadfile"@),
            JsonView::Text(file@),
            JsonView::Text("replace"@),
        ],
        PlayerCommand::Stop => seq![JsonView::Text("stop"@)],
        PlayerCommand::GetPath => seq![JsonView::Text("get_property"@), JsonView::Text("path"@)],
        PlayerCommand::GetDevice => seq![
            JsonView::Text("get_property"@),
            JsonView::Text("audio-device"@),
        ],
        PlayerCommand::Quit => seq![JsonView::Text("quit"@)],
    }
}

/// The number by which the reply to a command is known.
pub open spec fn command_number(command: PlayerCommand) -> u64 {
    match command {
        PlayerCommand::SetVolume(_) => 1,
        PlayerCommand::Load(_) => 2,
        PlayerCommand::Stop => 3,
        PlayerCommand::GetPath => 4,
        PlayerCommand::GetDevice => 5,
        PlayerCommand::Quit => 6,
    }
}

/// The request that a command makes.
pub open spec fn command_request(command: PlayerCommand) -> JsonView {
    JsonView::Object(
        seq![
            ("command"@, JsonView::Array(command_words(command))),
            ("request_id"@, JsonView::Number(Some(command_number(command)))),
        ],
    )
}

fn word(text: &str) -> (json: Json)
    ensures
        json@ == JsonView::Text(text@),
{
    Json::Text(text.to_owned())
}

fn amount(number: u64) -> (json: Json)
    ensures
        json@ == JsonView::Number(Some(number)),
{
    Json::Number(Some(number))
}

impl PlayerCommand {
    /// The number by which the reply to the command is known.
    pub fn request_id(&self) -> (number: u64)
        ensures
            number == command_number(*self),
    {
        match self {
            PlayerCommand::SetVolume(_) => 1,
            PlayerCommand::Load(_) => 2,
            PlayerCommand::Stop => 3,
            PlayerCommand::GetPath => 4,
            PlayerCommand::GetDevice => 5,
            PlayerCommand::Quit => 6,
        }
    }

    /// The request that the command makes.
    pub fn request(&self) -> (json: Json)
        ensures
            json@ == command_request(*self),
    {
        let mut words: Vec<Json> = Vec::new();
        match self {
            PlayerCommand::SetVolume(volume) => {
                words.push(word("set_property"));
                words.push(word("volume"));
                let level: u64 = if *volume <= 100 {
                    *volume as u64
                } else {
                    100
                };
                words.push(amount(level));
            },
            PlayerCommand::Load(file) => {
                words.push(word("loadfile"));
                words.push(word(file));
                words.push(word("replace"));
            },
            PlayerCommand::Stop => {
                words.push(word("stop"));
            },
            PlayerCommand::GetPath => {
                words.push(word("get_property"));
                words.push(word("path"));
            },
            PlayerCommand::GetDevice => {
                words.push(word("get_property"));
                words.push(word("audio-device"));
            },
            PlayerCommand::Quit => {
                words.push(word("quit"));
            },
        }
        let ghost views = Seq::new(words@.len(), |i: int| words@[i]@);
        assert(views =~= command_words(*self));
        let array = Json::Array(words);
        assert(array@->Array_0 =~= views);
        let mut fields: Vec<(String, Json)> = Vec::new();
        fields.push(("command".to_owned(), array));
        fields.push(("request_id".to_owned(), amount(self.request_id())));
        let ghost pairs = Seq::new(fields@.len(), |i: int| (fields@[i].0@, fields@[i].1@));
        assert(pairs =~= command_request(*self)->Object_0);
        let json = Json::Object(fields);
        assert(json@->Object_0 =~= pairs);
        assert(json@->Object_0 =~= command_request(*self)->Object_0);
        json
    }

    /// The line that is sent to mpv.
    pub fn line(&self) -> (line: String)
        ensures
            line@ == json::json_text(command_request(*self)) + "\n"@,
    {
        let request = self.request();
        proof {
            lemma_command_is_writable(*self);
        }
        join2(&encode_json(&request), "\n")
    }
}

proof fn lemma_command_is_writable(command: PlayerCommand)
    ensures
        json::writable(command_request(command)),
{
    reveal_strlit("command");
    reveal_strlit("request_id");
    let fields = command_request(command)->Object_0;
    let first = vstd::utf8::encode_utf8("command"@);
    let second = vstd::utf8::encode_utf8("request_id"@);
    assert(vstd::utf8::is_ascii_chars("command"@));
    assert(vstd::utf8::is_ascii_chars("request_id"@));
    vstd::utf8::is_ascii_chars_encode_utf8("command"@);
    vstd::utf8::is_ascii_chars_encode_utf8("request_id"@);
    assert(first[0] == 99u8 && second[0] == 114u8);
    assert(crate::order::not_after(first, second));
    assert("command"@[0] != "request_id"@[0]);
    assert(json::keys_increase(fields));
    assert(json::writable(fields[1].1));
    assert forall|i: int| 0 <= i < command_words(command).len() implies json::writable(
        #[trigger] command_words(command)[i],
    ) by {}
    assert(json::writable(fields[0].1));
}

/// What follows a line, or the end, of what mpv sends.
pub enum ReplyStep {
    /// It is an event or the reply to something else: read on.
    Skip,
    /// It is the reply.
    Reply(Json),
    /// There will be no reply.
    Failed(Failure),
}

/// The message is an event: it has no request number and names an event.
pub open spec fn is_event(message: JsonView) -> bool {
    message.field("request_id"@) is None && message.field("event"@) is Some
}

/// The message answers the request with this number, or no request in particular.
pub open spec fn answers(message: JsonView, request_id: u64) -> bool {
    match message.field("request_id"@) {
        None => message.field("event"@) is None,
        Some(id) => id == JsonView::Number(Some(request_id)),
    }
}

/// Decides whether a message that mpv sent is the reply to a request.
pub fn judge_message(request_id: u64, message: Json) -> (step: ReplyStep)
    ensures
        if answers(message@, request_id) {
            step == ReplyStep::Reply(message)
        } else {
            step is Skip
        },
{
    let reply = match message.get("request_id") {
        None => message.get("event").is_none(),
        Some(Json::Number(Some(id))) => *id == request_id,
        _ => false,
    };
    if reply {
        ReplyStep::Reply(message)
    } else {
        ReplyStep::Skip
    }
}

/// Decides what follows a line that mpv sent; `None` is the end of the stream.
pub fn judge_line(request_id: u64, line: Option<&str>) -> (step: ReplyStep)
    ensures
        match line {
            None => step is Failed && failure::failure_is(
                step->Failed_0,
                FailureKind::UnexpectedEof,
                "mpv closed its IPC socket without a response"@,
            ),
            Some(line) => match json::parsed_json(vstd::utf8::encode_utf8(line@)) {
                Ok(message) => if answers(message, request_id) {
                    step is Reply && step->Reply_0@ == message
                } else {
                    step is Skip
                },
                Err(message) => step is Failed && failure::failure_is(
                    step->Failed_0,
                    FailureKind::Other,
                    message,
                ),
            },
        },
{
    match line {
        None => ReplyStep::Failed(
            Failure::new(
                FailureKind::UnexpectedEof,
                "mpv closed its IPC socket without a response",
            ),
        ),
        Some(line) => match parse_json(line.as_bytes()) {
            Ok(message) => judge_message(request_id, message),
            Err(message) => ReplyStep::Failed(Failure::other(&message)),
        },
    }
}

/// An event never passes for a reply, and of the messages with a request number only the one with
/// the number that was asked for does.
pub proof fn only_the_answer_is_taken(message: JsonView, request_id: u64)
    ensures
        is_event(message) ==> !answers(message, request_id),
        message.field("request_id"@) is Some ==> (answers(message, request_id)
            <==> message.field("request_id"@) == Some(JsonView::Number(Some(request_id)))),
{
}

/// What the response says of the command: `success`, or what went wrong.
pub open spec fn verdict(response: JsonView) -> Seq<char> {
    match response.text_field("error"@) {
        Some(error) => error,
        None => "invalid mpv response"@,
    }
}

/// What the response says of the command.
pub fn response_error(response: &Json) -> (error: &str)
    ensures
        error@ == verdict(response@),
{
    match response.get_text("error") {
        Some(error) => error,
        None => "invalid mpv response",
    }
}

/// The failure means that no player listens.
pub open spec fn means_not_running(failure: Failure) -> bool {
    failure.kind == FailureKind::NotFound || failure.kind == FailureKind::ConnectionRefused
}

/// Whether the failure means that no player listens.
pub fn player_is_not_running(failure: &Failure) -> (not_running: bool)
    ensures
        not_running == means_not_running(*failure),
{
    failure.kind == FailureKind::NotFound || failure.kind == FailureKind::ConnectionRefused
}

/// What came of a command.
pub enum Outcome {
    Success,
    NotRunning,
    Failed(Failure),
}

/// What came of a command, by its exchange with mpv.
pub open spec fn outcome_is(exchange: Result<Json, Failure>, outcome: Outcome) -> bool {
    match exchange {
        Ok(response) => if verdict(response@) == "success"@ {
            outcome is Success
        } else {
            outcome is Failed && failure::failure_is(
                outcome->Failed_0,
                FailureKind::Other,
                "mpv command failed: "@ + verdict(response@),
            )
        },
        Err(failure) => if means_not_running(failure) {
            outcome is NotRunning
        } else {
            outcome == Outcome::Failed(failure)
        },
    }
}

/// What came of a command, by its exchange with mpv.
pub fn command_outcome(exchange: Result<Json, Failure>) -> (outcome: Outcome)
    ensures
        outcome_is(exchange, outcome),
{
    match exchange {
        Ok(response) => {
            let error = response_error(&response);
            if error.eq("success") {
                Outcome::Success
            } else {
                Outcome::Failed(Failure::other(&join2("mpv command failed: ", error)))
            }
        },
        Err(failure) => if player_is_not_running(&failure) {
            Outcome::NotRunning
        } else {
            Outcome::Failed(failure)
        },
    }
}

/// A stop command failed: mpv refused it, or could not be asked although it runs.
pub open spec fn stop_fails(exchange: Result<Json, Failure>) -> bool {
    match exchange {
        Ok(response) => verdict(response@) != "success"@,
        Err(failure) => !means_not_running(failure),
    }
}

/// The result of a stop command: a player that does not run is stopped.
pub open spec fn stopped(exchange: Result<Json, Failure>, result: Result<(), Failure>) -> bool {
    if !stop_fails(exchange) {
        result is Ok
    } else {
        match exchange {
            Ok(response) => result is Err && failure::failure_is(
                result->Err_0,
                FailureKind::Other,
                "mpv command failed: "@ + verdict(response@),
            ),
            Err(failure) => result == Err::<(), Failure>(failure),
        }
    }
}

/// The result of stopping the local player, by its exchange with it.
pub fn stop_local(exchange: Result<Json, Failure>) -> (result: Result<(), Failure>)
    ensures
        stopped(exchange, result),
{
    match command_outcome(exchange) {
        Outcome::Failed(failure) => Err(failure),
        _ => Ok(()),
    }
}

/// The result of stopping both players, by the exchanges with them: the first failure counts.
pub fn stop(mix: Result<Json, Failure>, local: Result<Json, Failure>) -> (result: Result<
    (),
    Failure,
>)
    ensures
        if stop_fails(mix) {
            stopped(mix, result)
        } else {
            stopped(local, result)
        },
{
    let mix_result = stop_local(mix);
    let local_result = stop_local(local);
    match mix_result {
        Ok(()) => local_result,
        Err(failure) => Err(failure),
    }
}

/// What plays, by the exchange that asked for it: nothing where no player runs or it is idle.
pub fn current_path(exchange: Result<Json, Failure>) -> (playing: Result<Option<PathBuf>, Failure>)
    ensures
        match exchange {
            Err(failure) => if means_not_running(failure) {
                playing == Ok::<Option<PathBuf>, Failure>(None)
            } else {
                playing == Err::<Option<PathBuf>, Failure>(failure)
            },
            Ok(response) => if verdict(response@) == "property unavailable"@ {
                playing == Ok::<Option<PathBuf>, Failure>(None)
            } else if verdict(response@) != "success"@ {
                playing is Err && failure::failure_is(
                    playing->Err_0,
                    FailureKind::Other,
                    "mpv command failed: "@ + verdict(response@),
                )
            } else {
                match response@.text_field("data"@) {
                    Some(data) => playing is Ok && playing->Ok_0 is Some && path::path_bytes(
                        playing->Ok_0->Some_0,
                    ) == vstd::utf8::encode_utf8(data),
                    None => playing is Err && failure::failure_is(
                        playing->Err_0,
                        FailureKind::Other,
                        "mpv returned an invalid playback path"@,
                    ),
                }
            },
        },
{
    let response = match exchange {
        Ok(response) => response,
        Err(failure) => if player_is_not_running(&failure) {
            return Ok(None);
        } else {
            return Err(failure);
        },
    };
    let error = response_error(&response);
    if error.eq("property unavailable") {
        return Ok(None);
    }
    if !error.eq("success") {
        return Err(Failure::other(&join2("mpv command failed: ", error)));
    }
    match response.get_text("data") {
        Some(data) => Ok(Some(path_from(data))),
        None => Err(Failure::other("mpv returned an invalid playback path")),
    }
}

/// What came of the attempt to lock playback.
pub enum LockOutcome {
    Locked,
    Busy,
    Failed(Failure),
}

/// The result of the attempt to lock playback.
pub fn lock_result(outcome: LockOutcome) -> (result: Result<(), Failure>)
    ensures
        match outcome {
            LockOutcome::Locked => result is Ok,
            LockOutcome::Busy => result is Err && failure::failure_is(
                result->Err_0,
                FailureKind::WouldBlock,
                "another soundboard instance is changing playback"@,
            ),
            LockOutcome::Failed(failure) => result == Err::<(), Failure>(failure),
        },
{
    match outcome {
        LockOutcome::Locked => Ok(()),
        LockOutcome::Busy => Err(
            Failure::new(
                FailureKind::WouldBlock,
                "another soundboard instance is changing playback",
            ),
        ),
        LockOutcome::Failed(failure) => Err(failure),
    }
}

/// The path of a socket or lock: in the runtime directory, else in the temporary directory.
pub fn socket_path(runtime_dir: Option<PathBuf>, temporary_dir: &PathBuf, name: &str) -> (file:
    PathBuf)
    ensures
        path::path_bytes(file) == path::child_in(
            match runtime_dir {
                Some(runtime_dir) => path::path_bytes(runtime_dir),
                None => path::path_bytes(*temporary_dir),
            },
            name@,
        ),
{
    match runtime_dir {
        Some(runtime_dir) => child(&runtime_dir, name),
        None => child(temporary_dir, name),
    }
}

/// The directory of the logs, by the values of `XDG_STATE_HOME` and `HOME`.
pub fn log_directory(state_home: Option<PathBuf>, home: Option<PathBuf>) -> (directory: Result<
    PathBuf,
    Failure,
>)
    ensures
        match (state_home, home) {
            (Some(state_home), _) => directory is Ok && path::path_bytes(directory->Ok_0)
                == path::child_in(path::path_bytes(state_home), "soundboard-tui"@),
            (None, Some(home)) => directory is Ok && path::path_bytes(directory->Ok_0)
                == path::child_in(
                path::child_in(path::path_bytes(home), ".local/state"@),
                "soundboard-tui"@,
            ),
            (None, None) => directory is Err && failure::failure_is(
                directory->Err_0,
                FailureKind::NotFound,
                "state directory not found"@,
            ),
        },
{
    match (state_home, home) {
        (Some(state_home), _) => Ok(child(&state_home, "soundboard-tui")),
        (None, Some(home)) => Ok(child(&child(&home, ".local/state"), "soundboard-tui")),
        (None, None) => Err(Failure::new(FailureKind::NotFound, "state directory not found")),
    }
}

/// Where a log is put aside, if it is there and too long: beside it, with another extension.
pub fn rotated_log(log_path: &PathBuf, length: Option<u64>) -> (aside: Option<PathBuf>)
    ensures
        match length {
            Some(length) if length > MAX_LOG_BYTES => {
                let log = path::path_bytes(*log_path);
                &&& path::optional_bytes(aside) == Some(path::path_with_extension(log, "log.old"@))
                &&& path::name_in(log) is Some ==> path::components_in(path::path_bytes(aside->Some_0))
                    == path::components_with_extension(log, "log.old"@)
            },
            _ => aside is None,
        },
{
    match length {
        Some(length) if length > MAX_LOG_BYTES => {
            proof {
                reveal_strlit("log.old");
            }
            Some(with_extension(log_path, "log.old"))
        },
        _ => None,
    }
}

/// The arguments with which mpv is started.
pub open spec fn start_arguments(
    socket: Seq<char>,
    audio_device: Option<Seq<char>>,
    log: Seq<char>,
) -> Seq<Seq<char>> {
    seq![
        "--no-config"@,
        "--idle=yes"@,
        "--no-terminal"@,
        "--no-video"@,
        "--ao=pipewire"@,
        "--msg-level=all=warn"@,
        "--log-file="@ + log,
    ] + (match audio_device {
        Some(device) => seq!["--audio-device="@ + device],
        None => Seq::empty(),
    }) + seq!["--input-ipc-server="@ + socket]
}

/// The arguments with which mpv is started.
pub fn mpv_arguments(
    socket_path: &PathBuf,
    audio_device: &Option<String>,
    log_path: &PathBuf,
) -> (arguments: Vec<String>)
    ensures
        text::views(arguments@) == start_arguments(
            path::path_text(*socket_path),
            path::optional_text(*audio_device),
            path::path_text(*log_path),
        ),
{
    arguments_for(&display(socket_path), audio_device, &display(log_path))
}

/// The arguments with which mpv is started, by the texts of the paths.
pub fn arguments_for(socket: &str, audio_device: &Option<String>, log: &str) -> (arguments: Vec<
    String,
>)
    ensures
        text::views(arguments@) == start_arguments(
            socket@,
            path::optional_text(*audio_device),
            log@,
        ),
{
    let mut arguments: Vec<String> = Vec::new();
    arguments.push("--no-config".to_owned());
    arguments.push("--idle=yes".to_owned());
    arguments.push("--no-terminal".to_owned());
    arguments.push("--no-video".to_owned());
    arguments.push("--ao=pipewire".to_owned());
    arguments.push("--msg-level=all=warn".to_owned());
    arguments.push(join2("--log-file=", log));
    if let Some(device) = audio_device {
        arguments.push(join2("--audio-device=", device));
    }
    arguments.push(join2("--input-ipc-server=", socket));
    assert(text::views(arguments@) =~= start_arguments(
        socket@,
        path::optional_text(*audio_device),
        log@,
    ));
    arguments
}

/// The text with a space for each control code other than the tab.
pub open spec fn sanitized(text: Seq<char>) -> Seq<char> {
    text.map_values(|c: char| sanitized_char(c))
}

/// A space for a control code other than the tab; any other character stays.
pub open spec fn sanitized_char(c: char) -> char {
    if text::control_code(c) && c != '\t' {
        ' '
    } else {
        c
    }
}

/// Makes a text safe to show in a terminal.
pub fn sanitize_terminal_text(value: &str) -> (safe: String)
    ensures
        safe@ == sanitized(value@),
{
    let mut safe = String::new();
    for c in it: value.chars()
        invariant
            it.seq() == value@,
            safe@ == sanitized(value@.take(it.index())),
    {
        let ghost seen = value@.take(it.index());
        safe.push(
            if c.is_control() && c != '\t' {
                ' '
            } else {
                c
            },
        );
        assert(value@.take(it.index() + 1) == seen.push(c));
        assert(sanitized(seen.push(c)) == sanitized(seen).push(sanitized_char(c)));
    }
    assert(value@.take(value@.len() as int) == value@);
    safe
}

/// A sanitized text holds no control code but the tab, and sanitizing it again changes nothing.
pub proof fn sanitized_text_is_safe(text: Seq<char>)
    ensures
        forall|i: int|
            0 <= i < text.len() ==> !(text::control_code(#[trigger] sanitized(text)[i])
                && sanitized(text)[i] != '\t'),
        sanitized(sanitized(text)) == sanitized(text),
{
    assert(sanitized(sanitized(text)) =~= sanitized(text));
}

/// The last line that is not blank.
pub open spec fn last_filled(lines: Seq<Seq<char>>) -> Option<Seq<char>>
    decreases lines.len(),
{
    if lines.len() == 0 {
        None
    } else if text::trimmed(lines.last()).len() > 0 {
        Some(lines.last())
    } else {
        last_filled(lines.drop_last())
    }
}

/// The last line of a log that is not blank, safe to show.
pub open spec fn last_message(contents: Option<String>) -> Option<Seq<char>> {
    match contents {
        Some(contents) => match last_filled(text::lines_of(contents@)) {
            Some(line) => Some(sanitized(line)),
            None => None,
        },
        None => None,
    }
}

/// The last line of a log that is not blank, safe to show; `None` is a log that cannot be read.
pub fn last_log_line(contents: &Option<String>) -> (line: Option<String>)
    ensures
        path::optional_text(line) == last_message(*contents),
{
    let whole = match contents {
        Some(whole) => whole,
        None => return None,
    };
    let lines = lines(whole);
    let ghost all = text::lines_of(whole@);
    assert(text::views(lines@).len() == lines@.len());
    let mut i: usize = lines.len();
    assert(all.take(i as int) == all);
    while i > 0
        invariant
            i <= lines@.len(),
            *contents == Some(*whole),
            all == text::lines_of(whole@),
            all == text::views(lines@),
            all.len() == lines@.len(),
            last_filled(all) == last_filled(all.take(i as int)),
        decreases i,
    {
        assert(all.take(i as int).drop_last() == all.take(i - 1));
        assert(all.take(i as int).last() == lines@[i - 1]@);
        if !trim(&lines[i - 1]).as_str().is_empty() {
            return Some(sanitize_terminal_text(&lines[i - 1]));
        }
        i -= 1;
    }
    None
}

/// The message of a failure to start mpv.
pub open spec fn startup_message(
    message: Seq<char>,
    log: Seq<char>,
    contents: Option<String>,
) -> Seq<char> {
    message + ". Log: "@ + log + "."@ + (match last_message(contents) {
        Some(line) => " Last log message: "@ + line,
        None => Seq::empty(),
    })
}

/// The message of a failure to start mpv, with the last message of its log.
pub fn startup_text(message: &str, log: &str, contents: &Option<String>) -> (text: String)
    ensures
        text@ == startup_message(message@, log@, *contents),
{
    let mut text = join4(message, ". Log: ", log, ".");
    if let Some(line) = last_log_line(contents) {
        text.append(&join2(" Last log message: ", &line));
    }
    assert(text@ =~= startup_message(message@, log@, *contents));
    text
}

/// The failure to start mpv, with the last message of its log.
pub fn startup_error(message: &str, log_path: &PathBuf, contents: &Option<String>) -> (failure:
    Failure)
    ensures
        failure::failure_is(
            failure,
            FailureKind::Other,
            startup_message(message@, path::path_text(*log_path), *contents),
        ),
{
    Failure::other(&startup_text(message, &display(log_path), contents))
}

/// The failure with the place of the log behind its message.
pub fn with_log(failure: &Failure, log_path: &PathBuf) -> (extended: Failure)
    ensures
        failure::failure_is(
            extended,
            failure.kind,
            failure.message@ + ". Log: "@ + path::path_text(*log_path),
        ),
{
    Failure::new(failure.kind, &join3(&failure.message, ". Log: ", &display(log_path)))
}

/// The request holds these words and this number.
pub open spec fn request_holds(request: JsonView, words: Seq<JsonView>, number: u64) -> bool {
    &&& request.field("command"@) == Some(JsonView::Array(words))
    &&& request.field("request_id"@) == Some(JsonView::Number(Some(number)))
}

proof fn lemma_request_fields(command: PlayerCommand)
    ensures
        request_holds(command_request(command), command_words(command), command_number(command)),
{
    reveal_strlit("command");
    reveal_strlit("request_id");
    let fields = command_request(command)->Object_0;
    assert("command"@.len() != "request_id"@.len());
    assert(json::field_in(fields, "command"@) == Some(fields[0].1));
    let rest = fields.drop_first();
    assert(rest[0] == fields[1]);
    assert(json::field_in(rest, "request_id"@) == Some(rest[0].1));
    assert(json::field_in(fields, "request_id"@) == json::field_in(rest, "request_id"@));
}

/// A volume from 0 to 100 is sent as it is, and what is sent never falls as the volume rises, nor
/// passes 100.
pub proof fn the_volume_is_sent_as_it_is(
    volume: u8,
    louder: u8,
    requests: (Json, Json),
    words: (Seq<JsonView>, Seq<JsonView>),
)
    requires
        volume <= louder,
        call_ensures(PlayerCommand::request, (&PlayerCommand::SetVolume(volume),), requests.0),
        call_ensures(PlayerCommand::request, (&PlayerCommand::SetVolume(louder),), requests.1),
        requests.0@.field("command"@) == Some(JsonView::Array(words.0)),
        requests.1@.field("command"@) == Some(JsonView::Array(words.1)),
    ensures
        words.0.len() == 3,
        words.0[0] == JsonView::Text("set_property"@),
        words.0[1] == JsonView::Text("volume"@),
        volume <= 100 ==> words.0[2] == JsonView::Number(Some(volume as u64)),
        words.0[2] matches JsonView::Number(Some(level)) && level <= 100,
        words.1[2] matches JsonView::Number(Some(level)) && level
            >= words.0[2]->Number_0->Some_0,
        requests.0@.field("request_id"@) == Some(JsonView::Number(Some(1))),
{
    lemma_request_fields(PlayerCommand::SetVolume(volume));
    lemma_request_fields(PlayerCommand::SetVolume(louder));
}

/// What each of the other commands says to mpv: the file that is to take the place of what plays,
/// and the words for stopping, asking and quitting.
pub proof fn a_command_says_what_is_wanted(
    file: String,
    load: Json,
    stop_request: Json,
    path_request: Json,
    device_request: Json,
    quit: Json,
)
    requires
        call_ensures(PlayerCommand::request, (&PlayerCommand::Load(file),), load),
        call_ensures(PlayerCommand::request, (&PlayerCommand::Stop,), stop_request),
        call_ensures(PlayerCommand::request, (&PlayerCommand::GetPath,), path_request),
        call_ensures(PlayerCommand::request, (&PlayerCommand::GetDevice,), device_request),
        call_ensures(PlayerCommand::request, (&PlayerCommand::Quit,), quit),
    ensures
        request_holds(
            load@,
            seq![
                JsonView::Text("loadfile"@),
                JsonView::Text(file@),
                JsonView::Text("replace"@),
            ],
            2,
        ),
        request_holds(stop_request@, seq![JsonView::Text("stop"@)], 3),
        request_holds(
            path_request@,
            seq![JsonView::Text("get_property"@), JsonView::Text("path"@)],
            4,
        ),
        request_holds(
            device_request@,
            seq![JsonView::Text("get_property"@), JsonView::Text("audio-device"@)],
            5,
        ),
        request_holds(quit@, seq![JsonView::Text("quit"@)], 6),
{
    lemma_request_fields(PlayerCommand::Load(file));
    lemma_request_fields(PlayerCommand::Stop);
    lemma_request_fields(PlayerCommand::GetPath);
    lemma_request_fields(PlayerCommand::GetDevice);
    lemma_request_fields(PlayerCommand::Quit);
}

/// A command is sent as one line: its request in JSON, and a line feed. The number that its reply is
/// known by is the one in the request, and commands of different sorts have different numbers.
pub proof fn a_command_is_one_line(
    command: PlayerCommand,
    request: Json,
    line: String,
    number: u64,
    other: PlayerCommand,
    other_number: u64,
)
    requires
        call_ensures(PlayerCommand::request, (&command,), request),
        call_ensures(PlayerCommand::line, (&command,), line),
        call_ensures(PlayerCommand::request_id, (&command,), number),
        call_ensures(PlayerCommand::request_id, (&other,), other_number),
    ensures
        line@ == json::json_text(request@).push('\n'),
        request@.field("request_id"@) == Some(JsonView::Number(Some(number))),
        number == other_number ==> {
            &&& command is SetVolume == other is SetVolume
            &&& command is Load == other is Load
            &&& command is Stop == other is Stop
            &&& command is GetPath == other is GetPath
            &&& command is GetDevice == other is GetDevice
            &&& command is Quit == other is Quit
        },
{
    lemma_request_fields(command);
    reveal_strlit("\n");
    assert(line@ =~= json::json_text(request@).push('\n'));
}

/// A message with the number of a command is the reply to that command and to no other; a message
/// without a number is taken for the reply unless it is an event, which is passed over.
pub proof fn a_reply_is_known_by_its_number(
    command: PlayerCommand,
    number: u64,
    message: Json,
    step: ReplyStep,
)
    requires
        call_ensures(PlayerCommand::request_id, (&command,), number),
        call_ensures(judge_message, (number, message), step),
    ensures
        message@.field("request_id"@) == Some(JsonView::Number(Some(number))) ==> step
            == ReplyStep::Reply(message),
        message@.field("request_id"@) is Some && message@.field("request_id"@) != Some(
            JsonView::Number(Some(number)),
        ) ==> step is Skip,
        message@.field("request_id"@) is None && message@.field("event"@) is Some ==> step is Skip,
        message@.field("request_id"@) is None && message@.field("event"@) is None ==> step
            == ReplyStep::Reply(message),
{
}

/// A line is judged as the message that it holds; one that holds none, and the end of the stream,
/// mean that there will be no reply.
pub proof fn a_line_is_judged_as_its_message(
    number: u64,
    line: &str,
    content: JsonView,
    message: Json,
    of_message: ReplyStep,
    of_line: ReplyStep,
    at_end: ReplyStep,
)
    requires
        call_ensures(judge_line, (number, Some(line)), of_line),
        call_ensures(judge_line, (number, None), at_end),
        message@ == content,
        call_ensures(judge_message, (number, message), of_message),
    ensures
        json::parsed_json(vstd::utf8::encode_utf8(line@)) == Ok::<JsonView, Seq<char>>(content)
            ==> {
            &&& of_line is Reply <==> of_message is Reply
            &&& of_line is Skip <==> of_message is Skip
            &&& of_line is Reply ==> of_line->Reply_0@ == content
        },
        json::parsed_json(vstd::utf8::encode_utf8(line@)) matches Err(error) ==> {
            &&& of_line is Failed
            &&& of_line->Failed_0.message@ == error
        },
        at_end is Failed && at_end->Failed_0.kind == FailureKind::UnexpectedEof,
        at_end->Failed_0.message@ == "mpv closed its IPC socket without a response"@,
{
}

/// A command has succeeded exactly where mpv answers `success`; where nobody listens, no player
/// runs; any other answer is a failure with mpv's words, and any other failure stays what it is.
pub proof fn success_is_what_mpv_calls_so(
    response: Json,
    answered: Outcome,
    failure: Failure,
    unanswered: Outcome,
    error: &str,
    not_running: bool,
)
    requires
        call_ensures(command_outcome, (Ok(response),), answered),
        call_ensures(command_outcome, (Err(failure),), unanswered),
        call_ensures(response_error, (&response,), error),
        call_ensures(player_is_not_running, (&failure,), not_running),
    ensures
        answered is Success <==> response@.field("error"@) == Some(JsonView::Text("success"@)),
        !(answered is Success) ==> answered is Failed && answered->Failed_0.message@
            == "mpv command failed: "@ + error@,
        response@.field("error"@) matches Some(JsonView::Text(text)) ==> error@ == text,
        !(response@.field("error"@) matches Some(JsonView::Text(_))) ==> error@
            == "invalid mpv response"@,
        not_running <==> failure.kind == FailureKind::NotFound || failure.kind
            == FailureKind::ConnectionRefused,
        unanswered is NotRunning <==> not_running,
        !not_running ==> unanswered == Outcome::Failed(failure),
{
    reveal_strlit("success");
    reveal_strlit("invalid mpv response");
    assert("success"@.len() != "invalid mpv response"@.len());
}

/// Stopping succeeds where mpv accepts it or no player runs, for each of the players; stopping both
/// fails with the first failure, and succeeds exactly where stopping each does.
pub proof fn both_players_are_stopped(
    mix: Result<Json, Failure>,
    local: Result<Json, Failure>,
    mix_result: Result<(), Failure>,
    local_result: Result<(), Failure>,
    result: Result<(), Failure>,
)
    requires
        call_ensures(stop_local, (mix,), mix_result),
        call_ensures(stop_local, (local,), local_result),
        call_ensures(stop, (mix, local), result),
    ensures
        result is Ok <==> mix_result is Ok && local_result is Ok,
        mix_result matches Err(failure) ==> result is Err && result->Err_0.kind == failure.kind
            && result->Err_0.message@ == failure.message@,
        mix_result is Ok ==> (local_result matches Err(failure) ==> result is Err
            && result->Err_0.kind == failure.kind && result->Err_0.message@ == failure.message@),
        mix matches Ok(response) ==> (mix_result is Ok <==> response@.field("error"@) == Some(
            JsonView::Text("success"@),
        )),
        mix matches Err(failure) ==> (mix_result is Ok <==> failure.kind == FailureKind::NotFound
            || failure.kind == FailureKind::ConnectionRefused),
        mix matches Err(failure) ==> (mix_result is Err ==> mix_result->Err_0 == failure),
{
    reveal_strlit("success");
    reveal_strlit("invalid mpv response");
    assert("success"@.len() != "invalid mpv response"@.len());
}

/// What plays is what mpv says that it plays: nothing where no player runs or mpv has no path to
/// tell; a failure where mpv refuses, says nothing of use, or cannot be reached although it runs.
pub proof fn what_plays_is_what_mpv_says(
    response: Json,
    answered: Result<Option<PathBuf>, Failure>,
    failure: Failure,
    unanswered: Result<Option<PathBuf>, Failure>,
)
    requires
        call_ensures(current_path, (Ok(response),), answered),
        call_ensures(current_path, (Err(failure),), unanswered),
    ensures
        response@.text_field("error"@) == Some("success"@) ==> {
            &&& response@.text_field("data"@) matches Some(data) ==> answered is Ok
                && answered->Ok_0 is Some && path::path_bytes(answered->Ok_0->Some_0)
                == vstd::utf8::encode_utf8(data)
            &&& response@.text_field("data"@) is None ==> answered is Err
        },
        response@.text_field("error"@) == Some("property unavailable"@) ==> answered
            == Ok::<Option<PathBuf>, Failure>(None),
        response@.text_field("error"@) != Some("success"@) && response@.text_field("error"@)
            != Some("property unavailable"@) ==> answered is Err,
        failure.kind == FailureKind::NotFound || failure.kind == FailureKind::ConnectionRefused
            ==> unanswered == Ok::<Option<PathBuf>, Failure>(None),
        failure.kind != FailureKind::NotFound && failure.kind != FailureKind::ConnectionRefused
            ==> unanswered == Err::<Option<PathBuf>, Failure>(failure),
{
    reveal_strlit("success");
    reveal_strlit("property unavailable");
    reveal_strlit("invalid mpv response");
    assert("success"@.len() != "invalid mpv response"@.len());
    assert("success"@.len() != "property unavailable"@.len());
    assert("property unavailable"@[0] != "invalid mpv response"@[0]);
}

/// Playback is changed by one instance at a time: who has the lock may go on, who finds it taken is
/// told so, and a failure to lock is handed back.
pub proof fn only_the_holder_of_the_lock_goes_on(
    outcome: LockOutcome,
    result: Result<(), Failure>,
)
    requires
        call_ensures(lock_result, (outcome,), result),
    ensures
        result is Ok <==> outcome is Locked,
        outcome is Busy ==> result->Err_0.kind == FailureKind::WouldBlock,
        outcome matches LockOutcome::Failed(failure) ==> result->Err_0 == failure,
{
}

/// A socket stands under its name in the runtime directory, and in the temporary directory only
/// where there is no runtime directory.
pub proof fn a_socket_has_its_place(
    runtime_dir: PathBuf,
    temporary_dir: PathBuf,
    name: &str,
    with_runtime: PathBuf,
    without: PathBuf,
)
    requires
        call_ensures(socket_path, (Some(runtime_dir), &temporary_dir, name), with_runtime),
        call_ensures(socket_path, (None, &temporary_dir, name), without),
        path::is_piece(vstd::utf8::encode_utf8(name@)),
    ensures
        path::components_in(path::path_bytes(with_runtime)) == path::components_in(
            path::path_bytes(runtime_dir),
        ).push(vstd::utf8::encode_utf8(name@)),
        path::components_in(path::path_bytes(without)) == path::components_in(
            path::path_bytes(temporary_dir),
        ).push(vstd::utf8::encode_utf8(name@)),
{
    path::joined_piece_is_last(path::path_bytes(runtime_dir), vstd::utf8::encode_utf8(name@));
    path::joined_piece_is_last(path::path_bytes(temporary_dir), vstd::utf8::encode_utf8(name@));
}

/// The logs stand in `soundboard-tui` of the state directory: the configured one, else
/// `.local/state` of the home directory; without either there is no place for them.
pub proof fn the_logs_have_their_place(
    state_home: PathBuf,
    home: Option<PathBuf>,
    configured: Result<PathBuf, Failure>,
    default_place: Result<PathBuf, Failure>,
)
    requires
        call_ensures(log_directory, (Some(state_home), home), configured),
        call_ensures(log_directory, (None, home), default_place),
    ensures
        configured is Ok,
        path::components_in(path::path_bytes(configured->Ok_0)) == path::components_in(
            path::path_bytes(state_home),
        ).push(vstd::utf8::encode_utf8("soundboard-tui"@)),
        home matches Some(home) ==> default_place is Ok && path::components_in(
            path::path_bytes(default_place->Ok_0),
        ) == path::components_in(
            path::path_joined(
                path::path_bytes(home),
                vstd::utf8::encode_utf8(".local/state"@),
            ),
        ).push(vstd::utf8::encode_utf8("soundboard-tui"@)),
        home is None ==> default_place is Err && default_place->Err_0.kind
            == FailureKind::NotFound,
{
    reveal_strlit("soundboard-tui");
    path::lemma_text_is_piece("soundboard-tui"@);
    let name = vstd::utf8::encode_utf8("soundboard-tui"@);
    path::joined_piece_is_last(path::path_bytes(state_home), name);
    if let Some(home) = home {
        path::joined_piece_is_last(
            path::path_joined(path::path_bytes(home), vstd::utf8::encode_utf8(".local/state"@)),
            name,
        );
    }
}

/// A log is put aside once it is longer than a mebibyte, and stays where it is as long as it is not
/// or is not there; what is put aside goes beside it.
pub proof fn a_long_log_is_put_aside(log: PathBuf, length: u64, aside: Option<PathBuf>, absent:
    Option<PathBuf>)
    requires
        call_ensures(rotated_log, (&log, Some(length)), aside),
        call_ensures(rotated_log, (&log, None), absent),
    ensures
        aside is Some <==> length > 1024 * 1024,
        absent is None,
        aside is Some && path::name_in(path::path_bytes(log)) is Some ==> path::parent_components(
            path::path_bytes(aside->Some_0),
        ) == path::parent_components(path::path_bytes(log)),
{
    let bytes = path::path_bytes(log);
    if aside is Some && path::name_in(bytes) is Some {
        let components = path::components_in(bytes);
        let changed = path::components_with_extension(bytes, "log.old"@);
        assert(changed.drop_last() =~= components.drop_last());
        reveal_strlit("log.old");
        vstd::utf8::is_ascii_chars_encode_utf8("log.old"@);
        assert(changed.last().len() >= 8);
        assert(changed.last() != seq![47u8]) by {
            assert(seq![47u8].len() == 1);
        }
    }
}

/// Mpv is started to wait for sounds without a window or a terminal, to play them through PipeWire,
/// to listen at the socket and to write the log; it is bound to a device exactly where one is given.
pub proof fn mpv_is_started_as_a_player(
    socket: &str,
    device: Option<String>,
    log: &str,
    arguments: Vec<String>,
)
    requires
        call_ensures(arguments_for, (socket, &device, log), arguments),
    ensures
        text::views(arguments@).contains("--input-ipc-server="@ + socket@),
        text::views(arguments@).contains("--log-file="@ + log@),
        text::views(arguments@).contains("--ao=pipewire"@),
        text::views(arguments@).contains("--idle=yes"@),
        text::views(arguments@).contains("--no-video"@),
        text::views(arguments@).contains("--no-terminal"@),
        text::views(arguments@).contains("--no-config"@),
        text::views(arguments@).contains("--msg-level=all=warn"@),
        device matches Some(device) ==> text::views(arguments@).contains(
            "--audio-device="@ + device@,
        ) && arguments@.len() == 9,
        device is None ==> arguments@.len() == 8,
{
    let views = text::views(arguments@);
    assert(views.len() == arguments@.len());
    assert(views[0] == "--no-config"@);
    assert(views[1] == "--idle=yes"@);
    assert(views[2] == "--no-terminal"@);
    assert(views[3] == "--no-video"@);
    assert(views[4] == "--ao=pipewire"@);
    assert(views[5] == "--msg-level=all=warn"@);
    assert(views[6] == "--log-file="@ + log@);
    if let Some(device) = device {
        assert(views[7] == "--audio-device="@ + device@);
        assert(views[8] == "--input-ipc-server="@ + socket@);
    } else {
        assert(views[7] == "--input-ipc-server="@ + socket@);
    }
}

/// The arguments by the paths are those by the texts of the paths.
pub proof fn arguments_go_by_the_texts_of_paths(
    socket: PathBuf,
    device: Option<String>,
    log: PathBuf,
    texts: (&str, &str),
    by_paths: Vec<String>,
    by_texts: Vec<String>,
)
    requires
        call_ensures(mpv_arguments, (&socket, &device, &log), by_paths),
        texts.0@ == path::path_text(socket),
        texts.1@ == path::path_text(log),
        call_ensures(arguments_for, (texts.0, &device, texts.1), by_texts),
    ensures
        text::views(by_paths@) == text::views(by_texts@),
{
}

/// What is shown in the terminal holds the text's characters, with a space for each control code;
/// the tab stays.
pub proof fn only_control_codes_are_taken_out(value: &str, safe: String)
    requires
        call_ensures(sanitize_terminal_text, (value,), safe),
    ensures
        safe@.len() == value@.len(),
        forall|i: int|
            0 <= i < value@.len() ==> #[trigger] safe@[i] == if value@[i] != '\t' && ((
            value@[i] as u32) < 32 || 127 <= value@[i] as u32 <= 159) {
                ' '
            } else {
                value@[i]
            },
{
}

proof fn lemma_last_filled(lines: Seq<Seq<char>>)
    ensures
        last_filled(lines) is None <==> forall|i: int|
            0 <= i < lines.len() ==> text::trimmed(#[trigger] lines[i]).len() == 0,
        last_filled(lines) is Some ==> exists|i: int|
            0 <= i < lines.len() && #[trigger] lines[i] == last_filled(lines)->Some_0
                && text::trimmed(lines[i]).len() > 0 && forall|j: int|
                i < j < lines.len() ==> text::trimmed(#[trigger] lines[j]).len() == 0,
    decreases lines.len(),
{
    if lines.len() > 0 {
        let rest = lines.drop_last();
        lemma_last_filled(rest);
        let last = lines.len() - 1;
        if text::trimmed(lines.last()).len() == 0 {
            assert forall|i: int| 0 <= i < rest.len() implies #[trigger] rest[i] == lines[i] by {}
            if last_filled(rest) is Some {
                let i = choose|i: int|
                    0 <= i < rest.len() && #[trigger] rest[i] == last_filled(rest)->Some_0
                        && text::trimmed(rest[i]).len() > 0 && forall|j: int|
                        i < j < rest.len() ==> text::trimmed(#[trigger] rest[j]).len() == 0;
                assert(lines[i] == rest[i]);
                assert forall|j: int| i < j < lines.len() implies text::trimmed(
                    #[trigger] lines[j],
                ).len() == 0 by {
                    if j < rest.len() {
                        assert(rest[j] == lines[j]);
                    }
                }
            } else {
                assert forall|i: int| 0 <= i < lines.len() implies text::trimmed(
                    #[trigger] lines[i],
                ).len() == 0 by {
                    if i < rest.len() {
                        assert(rest[i] == lines[i]);
                    }
                }
            }
        } else {
            assert(lines[last] == lines.last());
        }
    }
}

/// The last message of a log is its last line that is not blank, made safe; there is none where the
/// log cannot be read or holds only blank lines.
pub proof fn the_last_message_is_the_last_line(contents: Option<String>, line: Option<String>)
    requires
        call_ensures(last_log_line, (&contents,), line),
    ensures
        contents is None ==> line is None,
        contents matches Some(contents) ==> (line is None <==> forall|i: int|
            0 <= i < text::lines_of(contents@).len() ==> text::trimmed(
                #[trigger] text::lines_of(contents@)[i],
            ).len() == 0),
        contents matches Some(contents) ==> (line matches Some(line) ==> exists|i: int|
            0 <= i < text::lines_of(contents@).len() && line@ == sanitized(
                #[trigger] text::lines_of(contents@)[i],
            ) && text::trimmed(text::lines_of(contents@)[i]).len() > 0 && forall|j: int|
                i < j < text::lines_of(contents@).len() ==> text::trimmed(
                    #[trigger] text::lines_of(contents@)[j],
                ).len() == 0),
{
    if let Some(contents) = contents {
        lemma_last_filled(text::lines_of(contents@));
    }
}

/// A failure to start tells what happened, where the log is, and its last message where there is
/// one; a failure of a started player keeps its kind and its words and tells where the log is.
pub proof fn a_failed_start_tells_of_the_log(
    message: &str,
    log: PathBuf,
    contents: Option<String>,
    line: Option<String>,
    started: Failure,
    failure: Failure,
    extended: Failure,
)
    requires
        call_ensures(last_log_line, (&contents,), line),
        call_ensures(startup_error, (message, &log, &contents), started),
        call_ensures(with_log, (&failure, &log), extended),
    ensures
        line is None ==> started.message@ == message@ + ". Log: "@ + path::path_text(log) + "."@,
        line matches Some(line) ==> started.message@ == message@ + ". Log: "@ + path::path_text(
            log,
        ) + "."@ + " Last log message: "@ + line@,
        extended.kind == failure.kind,
        extended.message@ == failure.message@ + ". Log: "@ + path::path_text(log),
{
    let start = message@ + ". Log: "@ + path::path_text(log) + "."@;
    match line {
        Some(line) => {
            assert(started.message@ =~= start + " Last log message: "@ + line@);
        },
        None => {
            assert(started.message@ =~= start);
        },
    }
}

} // verus!
