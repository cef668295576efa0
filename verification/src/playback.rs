//! Playing a sound: each run asks for outside work step by step and is handed what came of it.

use std::path::PathBuf;

use vstd::prelude::*;

use crate::failure;
use crate::failure::{Failure, FailureKind};
use crate::json::Json;
use crate::path;
use crate::path::display;
use crate::player;
use crate::player::{
    command_outcome, player_is_not_running, response_error, startup_error, stop_local, with_log,
    Outcome, PlayOutcome, PlayerCommand, LOCAL_LOG, LOCAL_SOCKET, MIX_LOG, MIX_SOCKET,
};
use crate::text::join2;

verus! {

/// How often a starting or a quitting player is looked at.
pub const START_ATTEMPTS: u32 = 40;

/// Which player a sound goes to.
pub enum Target {
    /// The one that feeds the virtual microphone, on this audio device.
    Mix { device: String },
    /// The one for the local output.
    Local,
}

impl Target {
    /// The name of the player's socket.
    pub fn socket_name(&self) -> (name: &'static str)
        ensures
            name@ == match *self {
                Target::Mix { .. } => MIX_SOCKET@,
                Target::Local => LOCAL_SOCKET@,
            },
    {
        match self {
            Target::Mix { .. } => MIX_SOCKET,
            Target::Local => LOCAL_SOCKET,
        }
    }

    /// The name of the player's log.
    pub fn log_name(&self) -> (name: &'static str)
        ensures
            name@ == match *self {
                Target::Mix { .. } => MIX_LOG@,
                Target::Local => LOCAL_LOG@,
            },
    {
        match self {
            Target::Mix { .. } => MIX_LOG,
            Target::Local => LOCAL_LOG,
        }
    }

    /// The audio device that the player is bound to.
    pub fn device(&self) -> (device: Option<String>)
        ensures
            device == match *self {
                Target::Mix { device } => Some(device),
                Target::Local => None,
            },
    {
        match self {
            Target::Mix { device } => Some(device.clone()),
            Target::Local => None,
        }
    }
}

/// Outside work that a run asks for, all of it for the player that the run is about.
pub enum PlayRequest {
    /// Send the command and wait for the reply to it.
    Exchange(PlayerCommand),
    /// Tell whether the socket is gone or nobody listens at it.
    Gone,
    /// Wait a moment.
    Pause,
    /// Remove the socket, which need not be there.
    RemoveSocket,
    /// Prepare the directory of the logs and tell the log's path.
    PrepareLog,
    /// Start the player with this log.
    Start(PathBuf),
    /// Tell whether the player that was started still runs.
    Poll,
    /// Kill the player that was started and remove the socket.
    CleanUp,
    /// Read the log.
    ReadLog(PathBuf),
}

/// What a look at the started player showed.
pub enum PlayerState {
    Running,
    /// It ended with this status.
    Exited(String),
    Unknown(Failure),
}

/// What came of the outside work.
pub enum PlayReply {
    Response(Result<Json, Failure>),
    Answer(bool),
    Done(Result<(), Failure>),
    Log(Result<PathBuf, Failure>),
    State(PlayerState),
    Contents(Option<String>),
}

/// What a run waits for, and what it has to remember.
pub enum PlayStage {
    /// The device of the running player.
    Device,
    /// The reply to the command to quit.
    Quit,
    /// Whether the quitting player is gone.
    Leaving { attempt: u32 },
    /// The end of the pause before the next look at the quitting player.
    LeavingPause { attempt: u32 },
    /// The removal of the socket that the player left.
    Cleared,
    /// The reply to the volume, from a player that may run.
    Volume,
    /// The reply to the sound, from a player that may run.
    Load,
    /// The removal of the socket that no player listens at.
    Stale,
    /// The path of the log.
    Log,
    /// The start of the player.
    Started { log: PathBuf },
    /// The state of the started player.
    Child { log: PathBuf, attempt: u32 },
    /// The reply to the volume, from the started player.
    ChildVolume { log: PathBuf, attempt: u32 },
    /// The reply to the sound, from the started player.
    ChildLoad { log: PathBuf, attempt: u32 },
    /// The end of the pause before the next look at the started player.
    ChildPause { log: PathBuf, attempt: u32 },
    /// The removal of the socket of a player that ended, or the cleaning up after one that did
    /// not answer in time; then the log is read for this message.
    Report { log: PathBuf, message: String },
    /// The contents of the log, for this message.
    Diagnosis { log: PathBuf, message: String },
    /// The cleaning up after this failure.
    Abandon { log: PathBuf, failure: Failure },
}

/// A run that plays one sound on one player.
pub struct PlayOn {
    pub path: PathBuf,
    pub volume: u8,
    pub target: Target,
    pub stage: PlayStage,
}

/// What a run does next.
pub enum PlayOnStep {
    Ask { run: PlayOn, request: PlayRequest },
    Finished(Result<(), Failure>),
}

/// The attempts of a stage are within their bound.
pub open spec fn stage_bounded(stage: PlayStage) -> bool {
    match stage {
        PlayStage::Leaving { attempt } => attempt < START_ATTEMPTS,
        PlayStage::LeavingPause { attempt } => attempt < START_ATTEMPTS,
        PlayStage::Child { attempt, .. } => attempt < START_ATTEMPTS,
        PlayStage::ChildVolume { attempt, .. } => attempt < START_ATTEMPTS,
        PlayStage::ChildLoad { attempt, .. } => attempt < START_ATTEMPTS,
        PlayStage::ChildPause { attempt, .. } => attempt < START_ATTEMPTS,
        _ => true,
    }
}

/// The run goes on in this stage, asking for this.
pub open spec fn play_asks(
    before: PlayOn,
    step: PlayOnStep,
    stage: PlayStage,
    request: PlayRequest,
) -> bool {
    step == (PlayOnStep::Ask { run: PlayOn { stage, ..before }, request })
}

/// The run goes on in this stage, asking to load the sound.
pub open spec fn asks_to_load(before: PlayOn, step: PlayOnStep, stage: PlayStage) -> bool {
    &&& step is Ask
    &&& step->Ask_request matches PlayRequest::Exchange(PlayerCommand::Load(file)) && file@
        == path::path_text(before.path)
    &&& play_asks(before, step, stage, step->Ask_request)
}

/// The run is over with this failure.
pub open spec fn play_fails(step: PlayOnStep, kind: FailureKind, message: Seq<char>) -> bool {
    step is Finished && step->Finished_0 is Err && failure::failure_is(
        step->Finished_0->Err_0,
        kind,
        message,
    )
}

/// The run is over with the failure of a command.
pub open spec fn play_fails_with(step: PlayOnStep, outcome: Outcome) -> bool {
    outcome matches Outcome::Failed(failure) && play_fails(step, failure.kind, failure.message@)
}

/// The run goes on in this stage, with a message that the log will explain.
pub open spec fn reports(
    before: PlayOn,
    step: PlayOnStep,
    log: PathBuf,
    message: Seq<char>,
    request: PlayRequest,
) -> bool {
    &&& step is Ask
    &&& step->Ask_run.stage matches PlayStage::Report { log: kept, message: text } && kept == log
        && text@ == message
    &&& play_asks(before, step, step->Ask_run.stage, request)
}

/// The run cleans up after a failure with this kind and message.
pub open spec fn abandons(
    before: PlayOn,
    step: PlayOnStep,
    log: PathBuf,
    kind: FailureKind,
    message: Seq<char>,
) -> bool {
    &&& step is Ask
    &&& step->Ask_run.stage matches PlayStage::Abandon { log: kept, failure } && kept == log
        && failure::failure_is(failure, kind, message)
    &&& play_asks(before, step, step->Ask_run.stage, PlayRequest::CleanUp)
}

/// What a run does with the reply about the device of the running player.
pub open spec fn device_transition(
    before: PlayOn,
    response: Result<Json, Failure>,
    step: PlayOnStep,
) -> bool {
    let volume = PlayRequest::Exchange(PlayerCommand::SetVolume(before.volume));
    match response {
        Err(failure) => if player::means_not_running(failure) {
            play_asks(before, step, PlayStage::Volume, volume)
        } else {
            play_fails(step, failure.kind, failure.message@)
        },
        Ok(response) => if player::verdict(response@) != "success"@ {
            play_fails(
                step,
                FailureKind::Other,
                "mpv could not report its audio device: "@ + player::verdict(response@),
            )
        } else if before.target matches Target::Mix { device } && response@.text_field("data"@)
            == Some(device@) {
            play_asks(before, step, PlayStage::Volume, volume)
        } else {
            play_asks(
                before,
                step,
                PlayStage::Quit,
                PlayRequest::Exchange(PlayerCommand::Quit),
            )
        },
    }
}

/// What a run does with the reply to a command, in the stages that wait for one.
pub open spec fn response_transition(
    before: PlayOn,
    outcome: Outcome,
    step: PlayOnStep,
) -> bool {
    match before.stage {
        PlayStage::Volume => match outcome {
            Outcome::Success => asks_to_load(before, step, PlayStage::Load),
            Outcome::NotRunning => play_asks(
                before,
                step,
                PlayStage::Stale,
                PlayRequest::RemoveSocket,
            ),
            Outcome::Failed(failure) => play_fails_with(step, outcome),
        },
        PlayStage::Load => match outcome {
            Outcome::Success => step == PlayOnStep::Finished(Ok(())),
            Outcome::NotRunning => play_asks(
                before,
                step,
                PlayStage::Stale,
                PlayRequest::RemoveSocket,
            ),
            Outcome::Failed(failure) => play_fails_with(step, outcome),
        },
        PlayStage::ChildVolume { log, attempt } => match outcome {
            Outcome::Success => asks_to_load(before, step, PlayStage::ChildLoad { log, attempt }),
            Outcome::NotRunning => play_asks(
                before,
                step,
                PlayStage::ChildPause { log, attempt },
                PlayRequest::Pause,
            ),
            Outcome::Failed(failure) => abandons(
                before,
                step,
                log,
                failure.kind,
                failure.message@,
            ),
        },
        PlayStage::ChildLoad { log, attempt } => match outcome {
            Outcome::Success => step == PlayOnStep::Finished(Ok(())),
            Outcome::NotRunning => play_asks(
                before,
                step,
                PlayStage::ChildPause { log, attempt },
                PlayRequest::Pause,
            ),
            Outcome::Failed(failure) => abandons(
                before,
                step,
                log,
                failure.kind,
                failure.message@,
            ),
        },
        _ => step is Finished && step->Finished_0 is Err && failure::is_out_of_turn(
            step->Finished_0->Err_0,
        ),
    }
}

/// What a run does with the reply to the command to quit: here a player that does not answer any
/// more is a failure too.
pub open spec fn quit_transition(
    before: PlayOn,
    response: Result<Json, Failure>,
    step: PlayOnStep,
) -> bool {
    match response {
        Err(failure) => play_fails(step, failure.kind, failure.message@),
        Ok(response) => if player::verdict(response@) == "success"@ {
            play_asks(before, step, PlayStage::Leaving { attempt: 0 }, PlayRequest::Gone)
        } else {
            play_fails(
                step,
                FailureKind::Other,
                "mpv command failed: "@ + player::verdict(response@),
            )
        },
    }
}

/// What a run does with the end of a piece of work that only succeeds or fails.
pub open spec fn done_transition(
    before: PlayOn,
    done: Result<(), Failure>,
    step: PlayOnStep,
) -> bool {
    match before.stage {
        PlayStage::LeavingPause { attempt } => if attempt + 1 < START_ATTEMPTS {
            play_asks(
                before,
                step,
                PlayStage::Leaving { attempt: (attempt + 1) as u32 },
                PlayRequest::Gone,
            )
        } else {
            play_fails(
                step,
                FailureKind::TimedOut,
                "mpv did not stop after the audio destination changed"@,
            )
        },
        PlayStage::Cleared => match done {
            Ok(()) => play_asks(
                before,
                step,
                PlayStage::Volume,
                PlayRequest::Exchange(PlayerCommand::SetVolume(before.volume)),
            ),
            Err(failure) => play_fails(step, failure.kind, failure.message@),
        },
        PlayStage::Stale => match done {
            Ok(()) => play_asks(before, step, PlayStage::Log, PlayRequest::PrepareLog),
            Err(failure) => play_fails(step, failure.kind, failure.message@),
        },
        PlayStage::Started { log } => match done {
            Ok(()) => play_asks(
                before,
                step,
                PlayStage::Child { log, attempt: 0 },
                PlayRequest::Poll,
            ),
            Err(failure) => play_fails(step, failure.kind, failure.message@),
        },
        PlayStage::ChildPause { log, attempt } => if attempt + 1 < START_ATTEMPTS {
            play_asks(
                before,
                step,
                PlayStage::Child { log, attempt: (attempt + 1) as u32 },
                PlayRequest::Poll,
            )
        } else {
            reports(
                before,
                step,
                log,
                "mpv did not create its IPC socket"@,
                PlayRequest::CleanUp,
            )
        },
        PlayStage::Report { log, message } => play_asks(
            before,
            step,
            PlayStage::Diagnosis { log, message },
            PlayRequest::ReadLog(log),
        ),
        PlayStage::Abandon { log, failure } => play_fails(
            step,
            failure.kind,
            failure.message@ + ". Log: "@ + path::path_text(log),
        ),
        _ => step is Finished && step->Finished_0 is Err && failure::is_out_of_turn(
            step->Finished_0->Err_0,
        ),
    }
}

/// What a run does with a reply; one of another sort than the stage waits for ends it.
pub open spec fn play_transition(before: PlayOn, reply: PlayReply, step: PlayOnStep) -> bool {
    match (before.stage, reply) {
        (PlayStage::Device, PlayReply::Response(response)) => device_transition(
            before,
            response,
            step,
        ),
        (PlayStage::Quit, PlayReply::Response(response)) => quit_transition(before, response, step),
        (_, PlayReply::Response(response)) => exists|outcome: Outcome| #[trigger]
            player::outcome_is(response, outcome) && response_transition(before, outcome, step),
        (PlayStage::Leaving { attempt }, PlayReply::Answer(gone)) => if gone {
            play_asks(before, step, PlayStage::Cleared, PlayRequest::RemoveSocket)
        } else {
            play_asks(before, step, PlayStage::LeavingPause { attempt }, PlayRequest::Pause)
        },
        (PlayStage::Log, PlayReply::Log(Ok(log))) => play_asks(
            before,
            step,
            PlayStage::Started { log },
            PlayRequest::Start(log),
        ),
        (PlayStage::Log, PlayReply::Log(Err(failure))) => play_fails(
            step,
            failure.kind,
            failure.message@,
        ),
        (PlayStage::Child { log, attempt }, PlayReply::State(PlayerState::Running)) => play_asks(
            before,
            step,
            PlayStage::ChildVolume { log, attempt },
            PlayRequest::Exchange(PlayerCommand::SetVolume(before.volume)),
        ),
        (
            PlayStage::Child { log, attempt },
            PlayReply::State(PlayerState::Exited(status)),
        ) => reports(
            before,
            step,
            log,
            "mpv exited during startup with "@ + status@,
            PlayRequest::RemoveSocket,
        ),
        (
            PlayStage::Child { log, attempt },
            PlayReply::State(PlayerState::Unknown(failure)),
        ) => abandons(before, step, log, failure.kind, failure.message@),
        (PlayStage::Diagnosis { log, message }, PlayReply::Contents(contents)) => play_fails(
            step,
            FailureKind::Other,
            player::startup_message(message@, path::path_text(log), contents),
        ),
        (_, PlayReply::Done(done)) => done_transition(before, done, step),
        _ => step is Finished && step->Finished_0 is Err && failure::is_out_of_turn(
            step->Finished_0->Err_0,
        ),
    }
}

/// Begins to play a sound on one player. A player that is bound to a device is asked for it first.
pub fn play_on(path: PathBuf, volume: u8, target: Target) -> (step: PlayOnStep)
    ensures
        step is Ask,
        step->Ask_run.path == path,
        step->Ask_run.volume == volume,
        step->Ask_run.target == target,
        stage_bounded(step->Ask_run.stage),
        match target {
            Target::Mix { .. } => step->Ask_run.stage is Device && step->Ask_request
                == PlayRequest::Exchange(PlayerCommand::GetDevice),
            Target::Local => step->Ask_run.stage is Volume && step->Ask_request
                == PlayRequest::Exchange(PlayerCommand::SetVolume(volume)),
        },
{
    match target {
        Target::Mix { .. } => PlayOnStep::Ask {
            run: PlayOn { path, volume, target, stage: PlayStage::Device },
            request: PlayRequest::Exchange(PlayerCommand::GetDevice),
        },
        Target::Local => PlayOnStep::Ask {
            run: PlayOn { path, volume, target, stage: PlayStage::Volume },
            request: PlayRequest::Exchange(PlayerCommand::SetVolume(volume)),
        },
    }
}

impl PlayOn {
    fn ask(self, stage: PlayStage, request: PlayRequest) -> (step: PlayOnStep)
        ensures
            play_asks(self, step, stage, request),
    {
        let PlayOn { path, volume, target, stage: _ } = self;
        PlayOnStep::Ask { run: PlayOn { path, volume, target, stage }, request }
    }

    fn ask_volume(self, stage: PlayStage) -> (step: PlayOnStep)
        ensures
            play_asks(
                self,
                step,
                stage,
                PlayRequest::Exchange(PlayerCommand::SetVolume(self.volume)),
            ),
    {
        let volume = self.volume;
        self.ask(stage, PlayRequest::Exchange(PlayerCommand::SetVolume(volume)))
    }

    fn ask_load(self, stage: PlayStage) -> (step: PlayOnStep)
        ensures
            asks_to_load(self, step, stage),
    {
        let file = display(&self.path);
        self.ask(stage, PlayRequest::Exchange(PlayerCommand::Load(file)))
    }

    fn fail(failure: Failure) -> (step: PlayOnStep)
        ensures
            play_fails(step, failure.kind, failure.message@),
    {
        PlayOnStep::Finished(Err(failure))
    }

    fn after_device(self, response: Result<Json, Failure>) -> (step: PlayOnStep)
        ensures
            device_transition(self, response, step),
    {
        let response = match response {
            Ok(response) => response,
            Err(failure) => if player_is_not_running(&failure) {
                return self.ask_volume(PlayStage::Volume);
            } else {
                return PlayOn::fail(failure);
            },
        };
        let error = response_error(&response);
        if !error.eq("success") {
            return PlayOn::fail(
                Failure::other(&join2("mpv could not report its audio device: ", error)),
            );
        }
        let as_expected = match (&self.target, response.get_text("data")) {
            (Target::Mix { device }, Some(data)) => data.eq(device.as_str()),
            _ => false,
        };
        if as_expected {
            self.ask_volume(PlayStage::Volume)
        } else {
            self.ask(PlayStage::Quit, PlayRequest::Exchange(PlayerCommand::Quit))
        }
    }

    fn after_quit(self, response: Result<Json, Failure>) -> (step: PlayOnStep)
        ensures
            quit_transition(self, response, step),
    {
        match response {
            Err(failure) => PlayOn::fail(failure),
            Ok(response) => match command_outcome(Ok(response)) {
                Outcome::Failed(failure) => PlayOn::fail(failure),
                _ => self.ask(PlayStage::Leaving { attempt: 0 }, PlayRequest::Gone),
            },
        }
    }

    fn after_command(self, stage: PlayStage, outcome: Outcome) -> (step: PlayOnStep)
        ensures
            response_transition(PlayOn { stage, ..self }, outcome, step),
            stage_bounded(stage) && step is Ask ==> stage_bounded(step->Ask_run.stage),
    {
        match (stage, outcome) {
            (PlayStage::Volume, Outcome::Success) => self.ask_load(PlayStage::Load),
            (PlayStage::Volume, Outcome::NotRunning) | (PlayStage::Load, Outcome::NotRunning) =>
                self.ask(PlayStage::Stale, PlayRequest::RemoveSocket),
            (PlayStage::Volume, Outcome::Failed(failure))
            | (PlayStage::Load, Outcome::Failed(failure)) => PlayOn::fail(failure),
            (PlayStage::Load, Outcome::Success) => PlayOnStep::Finished(Ok(())),
            (PlayStage::ChildVolume { log, attempt }, Outcome::Success) => self.ask_load(
                PlayStage::ChildLoad { log, attempt },
            ),
            (PlayStage::ChildLoad { .. }, Outcome::Success) => PlayOnStep::Finished(Ok(())),
            (PlayStage::ChildVolume { log, attempt }, Outcome::NotRunning)
            | (PlayStage::ChildLoad { log, attempt }, Outcome::NotRunning) => self.ask(
                PlayStage::ChildPause { log, attempt },
                PlayRequest::Pause,
            ),
            (PlayStage::ChildVolume { log, .. }, Outcome::Failed(failure))
            | (PlayStage::ChildLoad { log, .. }, Outcome::Failed(failure)) => self.ask(
                PlayStage::Abandon { log, failure },
                PlayRequest::CleanUp,
            ),
            _ => PlayOn::fail(Failure::out_of_turn()),
        }
    }

    fn after_work(self, stage: PlayStage, done: Result<(), Failure>) -> (step: PlayOnStep)
        ensures
            done_transition(PlayOn { stage, ..self }, done, step),
            step is Ask ==> stage_bounded(step->Ask_run.stage),
    {
        match stage {
            PlayStage::LeavingPause { attempt } => if attempt < START_ATTEMPTS - 1 {
                self.ask(PlayStage::Leaving { attempt: attempt + 1 }, PlayRequest::Gone)
            } else {
                PlayOn::fail(
                    Failure::new(
                        FailureKind::TimedOut,
                        "mpv did not stop after the audio destination changed",
                    ),
                )
            },
            PlayStage::Cleared => match done {
                Ok(()) => self.ask_volume(PlayStage::Volume),
                Err(failure) => PlayOn::fail(failure),
            },
            PlayStage::Stale => match done {
                Ok(()) => self.ask(PlayStage::Log, PlayRequest::PrepareLog),
                Err(failure) => PlayOn::fail(failure),
            },
            PlayStage::Started { log } => match done {
                Ok(()) => self.ask(PlayStage::Child { log, attempt: 0 }, PlayRequest::Poll),
                Err(failure) => PlayOn::fail(failure),
            },
            PlayStage::ChildPause { log, attempt } => if attempt < START_ATTEMPTS - 1 {
                self.ask(PlayStage::Child { log, attempt: attempt + 1 }, PlayRequest::Poll)
            } else {
                self.ask(
                    PlayStage::Report {
                        log,
                        message: "mpv did not create its IPC socket".to_owned(),
                    },
                    PlayRequest::CleanUp,
                )
            },
            PlayStage::Report { log, message } => self.ask(
                PlayStage::Diagnosis { log: log.clone(), message },
                PlayRequest::ReadLog(log),
            ),
            PlayStage::Abandon { log, failure } => PlayOn::fail(with_log(&failure, &log)),
            _ => PlayOn::fail(Failure::out_of_turn()),
        }
    }

    /// Takes what came of the work that was asked for, and says what is to be done next.
    pub fn advance(self, reply: PlayReply) -> (step: PlayOnStep)
        ensures
            play_transition(self, reply, step),
            stage_bounded(self.stage) && step is Ask ==> stage_bounded(step->Ask_run.stage),
    {
        let PlayOn { path, volume, target, stage } = self;
        let run = PlayOn { path, volume, target, stage: PlayStage::Device };
        match (stage, reply) {
            (PlayStage::Device, PlayReply::Response(response)) => run.after_device(response),
            (PlayStage::Quit, PlayReply::Response(response)) => run.after_quit(response),
            (stage, PlayReply::Response(response)) => {
                let outcome = command_outcome(response);
                run.after_command(stage, outcome)
            },
            (PlayStage::Leaving { attempt }, PlayReply::Answer(gone)) => if gone {
                run.ask(PlayStage::Cleared, PlayRequest::RemoveSocket)
            } else {
                run.ask(PlayStage::LeavingPause { attempt }, PlayRequest::Pause)
            },
            (PlayStage::Log, PlayReply::Log(Ok(log))) => run.ask(
                PlayStage::Started { log: log.clone() },
                PlayRequest::Start(log),
            ),
            (PlayStage::Log, PlayReply::Log(Err(failure))) => PlayOn::fail(failure),
            (PlayStage::Child { log, attempt }, PlayReply::State(PlayerState::Running)) =>
                run.ask_volume(PlayStage::ChildVolume { log, attempt }),
            (PlayStage::Child { log, attempt }, PlayReply::State(PlayerState::Exited(status))) =>
                run.ask(
                    PlayStage::Report {
                        log,
                        message: join2("mpv exited during startup with ", &status),
                    },
                    PlayRequest::RemoveSocket,
                ),
            (PlayStage::Child { log, attempt }, PlayReply::State(PlayerState::Unknown(failure))) =>
                run.ask(PlayStage::Abandon { log, failure }, PlayRequest::CleanUp),
            (PlayStage::Diagnosis { log, message }, PlayReply::Contents(contents)) => PlayOn::fail(
                startup_error(&message, &log, &contents),
            ),
            (stage, PlayReply::Done(done)) => run.after_work(stage, done),
            _ => PlayOn::fail(Failure::out_of_turn()),
        }
    }
}

/// The request sends a sound to the player.
pub open spec fn asks_for_sound(request: PlayRequest) -> bool {
    match request {
        PlayRequest::Exchange(command) => command is Load,
        _ => false,
    }
}

/// The player has accepted a command.
pub open spec fn accepted(reply: PlayReply) -> bool {
    match reply {
        PlayReply::Response(Ok(response)) => player::verdict(response@) == "success"@,
        _ => false,
    }
}

/// A player gets the volume before the sound: a run asks for the sound only after the volume that
/// it was given has been accepted, and it succeeds only once the sound has been accepted.
pub proof fn volume_is_set_before_the_sound(before: PlayOn, reply: PlayReply, step: PlayOnStep)
    requires
        play_transition(before, reply, step),
    ensures
        step is Ask && asks_for_sound(step->Ask_request) ==> (before.stage is Volume
            || before.stage is ChildVolume) && accepted(reply),
        step is Ask && (step->Ask_run.stage is Volume || step->Ask_run.stage is ChildVolume) ==>
            step->Ask_request == PlayRequest::Exchange(PlayerCommand::SetVolume(before.volume)),
        step is Ask ==> step->Ask_run.volume == before.volume && step->Ask_run.path == before.path
            && step->Ask_run.target == before.target,
        step == PlayOnStep::Finished(Ok(())) ==> (before.stage is Load || before.stage is ChildLoad)
            && accepted(reply),
{
}

/// A player on another device is never used: with a device to be bound to, a run that finds a
/// player goes on to the volume only if the player reports that device, and otherwise makes it
/// quit.
pub proof fn other_device_is_left(before: PlayOn, response: Json, step: PlayOnStep, device: String)
    requires
        before.stage is Device,
        before.target == (Target::Mix { device }),
        play_transition(before, PlayReply::Response(Ok(response)), step),
    ensures
        step is Ask && step->Ask_run.stage is Volume ==> response@.text_field("data"@) == Some(
            device@,
        ),
        player::verdict(response@) == "success"@ && response@.text_field("data"@) != Some(device@)
            ==> step is Ask && step->Ask_request == PlayRequest::Exchange(PlayerCommand::Quit),
{
}

/// Where playing a sound stands.
pub enum PlayPhase {
    /// The sound goes to the virtual microphone.
    Mix(PlayOn),
    /// The sound goes to the local output.
    Local(PlayOn),
    /// The local output is being silenced.
    StopLocal,
}

/// A run that plays a sound for the virtual microphone and then, if wanted, locally.
pub struct Play {
    pub path: PathBuf,
    pub volume: u8,
    pub local_playback: bool,
    pub phase: PlayPhase,
}

/// What a run does next.
pub enum PlayStep {
    Ask { run: Play, request: PlayRequest },
    Finished(Result<PlayOutcome, Failure>),
}

/// The attempts of the run are within their bound.
pub open spec fn bounded(run: Play) -> bool {
    match run.phase {
        PlayPhase::Mix(on) => stage_bounded(on.stage),
        PlayPhase::Local(on) => stage_bounded(on.stage),
        PlayPhase::StopLocal => true,
    }
}

/// The run goes on in this phase, asking for this.
pub open spec fn continues(
    before: Play,
    step: PlayStep,
    phase: PlayPhase,
    request: PlayRequest,
) -> bool {
    step == (PlayStep::Ask { run: Play { phase, ..before }, request })
}

/// The run is over: the virtual microphone has the sound, and this is what went wrong locally.
pub open spec fn ends(step: PlayStep, local_error: Option<Seq<char>>) -> bool {
    step is Finished && step->Finished_0 is Ok && path::optional_text(
        step->Finished_0->Ok_0.local_error,
    ) == local_error
}

/// The message of a result that is a failure.
pub open spec fn failure_text(result: Result<(), Failure>) -> Option<Seq<char>> {
    match result {
        Ok(()) => None,
        Err(failure) => Some(failure.message@),
    }
}

/// What follows once the virtual microphone has been served or not.
pub open spec fn after_mix(before: Play, result: Result<(), Failure>, step: PlayStep) -> bool {
    match result {
        Err(failure) => step is Finished && step->Finished_0 is Err && failure::failure_is(
            step->Finished_0->Err_0,
            failure.kind,
            failure.message@,
        ),
        Ok(()) => if before.local_playback {
            continues(
                before,
                step,
                PlayPhase::Local(
                    PlayOn {
                        path: before.path,
                        volume: before.volume,
                        target: Target::Local,
                        stage: PlayStage::Volume,
                    },
                ),
                PlayRequest::Exchange(PlayerCommand::SetVolume(before.volume)),
            )
        } else {
            continues(
                before,
                step,
                PlayPhase::StopLocal,
                PlayRequest::Exchange(PlayerCommand::Stop),
            )
        },
    }
}

/// What a run does with a reply; one of another sort than it waits for ends the part of it that is
/// at hand.
pub open spec fn run_transition(before: Play, reply: PlayReply, step: PlayStep) -> bool {
    match before.phase {
        PlayPhase::Mix(on) => exists|inner: PlayOnStep| #[trigger]
            play_transition(on, reply, inner) && match inner {
                PlayOnStep::Ask { run, request } => continues(
                    before,
                    step,
                    PlayPhase::Mix(run),
                    request,
                ),
                PlayOnStep::Finished(result) => after_mix(before, result, step),
            },
        PlayPhase::Local(on) => exists|inner: PlayOnStep| #[trigger]
            play_transition(on, reply, inner) && match inner {
                PlayOnStep::Ask { run, request } => continues(
                    before,
                    step,
                    PlayPhase::Local(run),
                    request,
                ),
                PlayOnStep::Finished(result) => ends(step, failure_text(result)),
            },
        PlayPhase::StopLocal => match reply {
            PlayReply::Response(exchange) => exists|result: Result<(), Failure>| #[trigger]
                player::stopped(exchange, result) && ends(step, failure_text(result)),
            _ => step is Finished && step->Finished_0 is Ok
                && step->Finished_0->Ok_0.local_error is Some
                && step->Finished_0->Ok_0.local_error->Some_0@
                == "the reply does not answer the request"@,
        },
    }
}

/// Begins to play a sound: on the virtual microphone's player first.
pub fn play(path: PathBuf, volume: u8, local_playback: bool, mix_sink: &str) -> (step: PlayStep)
    ensures
        step is Ask,
        bounded(step->Ask_run),
        step->Ask_run.path == path,
        step->Ask_run.volume == volume,
        step->Ask_run.local_playback == local_playback,
        step->Ask_run.phase is Mix,
        step->Ask_run.phase->Mix_0.path == path,
        step->Ask_run.phase->Mix_0.volume == volume,
        step->Ask_run.phase->Mix_0.stage is Device,
        step->Ask_run.phase->Mix_0.target is Mix,
        step->Ask_run.phase->Mix_0.target->device@ == "pipewire/"@ + mix_sink@,
        step->Ask_request == PlayRequest::Exchange(PlayerCommand::GetDevice),
{
    let device = join2("pipewire/", mix_sink);
    match play_on(path.clone(), volume, Target::Mix { device }) {
        PlayOnStep::Ask { run, request } => PlayStep::Ask {
            run: Play { path, volume, local_playback, phase: PlayPhase::Mix(run) },
            request,
        },
        PlayOnStep::Finished(_) => PlayStep::Finished(Err(Failure::out_of_turn())),
    }
}

impl Play {
    /// The player that the run is at.
    pub fn target(&self) -> (target: &Target)
        ensures
            *target == match self.phase {
                PlayPhase::Mix(on) => on.target,
                PlayPhase::Local(on) => on.target,
                PlayPhase::StopLocal => Target::Local,
            },
    {
        match &self.phase {
            PlayPhase::Mix(on) => &on.target,
            PlayPhase::Local(on) => &on.target,
            PlayPhase::StopLocal => &Target::Local,
        }
    }

    /// Takes what came of the work that was asked for, and says what is to be done next.
    pub fn advance(self, reply: PlayReply) -> (step: PlayStep)
        ensures
            run_transition(self, reply, step),
            bounded(self) && step is Ask ==> bounded(step->Ask_run),
    {
        let Play { path, volume, local_playback, phase } = self;
        match phase {
            PlayPhase::Mix(on) => {
                let inner = on.advance(reply);
                match inner {
                    PlayOnStep::Ask { run, request } => PlayStep::Ask {
                        run: Play { path, volume, local_playback, phase: PlayPhase::Mix(run) },
                        request,
                    },
                    PlayOnStep::Finished(Err(failure)) => PlayStep::Finished(Err(failure)),
                    PlayOnStep::Finished(Ok(())) => if local_playback {
                        let on = PlayOn {
                            path: path.clone(),
                            volume,
                            target: Target::Local,
                            stage: PlayStage::Volume,
                        };
                        PlayStep::Ask {
                            run: Play { path, volume, local_playback, phase: PlayPhase::Local(on) },
                            request: PlayRequest::Exchange(PlayerCommand::SetVolume(volume)),
                        }
                    } else {
                        PlayStep::Ask {
                            run: Play { path, volume, local_playback, phase: PlayPhase::StopLocal },
                            request: PlayRequest::Exchange(PlayerCommand::Stop),
                        }
                    },
                }
            },
            PlayPhase::Local(on) => {
                let inner = on.advance(reply);
                match inner {
                    PlayOnStep::Ask { run, request } => PlayStep::Ask {
                        run: Play { path, volume, local_playback, phase: PlayPhase::Local(run) },
                        request,
                    },
                    PlayOnStep::Finished(result) => Play::finish(result),
                }
            },
            PlayPhase::StopLocal => match reply {
                PlayReply::Response(exchange) => {
                    let result = stop_local(exchange);
                    Play::finish(result)
                },
                _ => Play::finish(Err(Failure::out_of_turn())),
            },
        }
    }

    fn finish(local: Result<(), Failure>) -> (step: PlayStep)
        ensures
            ends(step, failure_text(local)),
    {
        let local_error = match local {
            Ok(()) => None,
            Err(failure) => Some(failure.message),
        };
        PlayStep::Finished(Ok(PlayOutcome { local_error }))
    }
}

/// Local playback can fail on its own: once the virtual microphone has the sound, the run ends in
/// an outcome, never in a failure, whatever happens locally.
pub proof fn local_failure_is_no_failure(before: Play, reply: PlayReply, step: PlayStep)
    requires
        run_transition(before, reply, step),
        !(before.phase is Mix),
    ensures
        step is Finished ==> step->Finished_0 is Ok,
        step is Ask ==> !(step->Ask_run.phase is Mix),
{
}

/// Without local playback the local player is only ever told to stop.
pub proof fn local_output_stays_silent(before: Play, reply: PlayReply, step: PlayStep)
    requires
        run_transition(before, reply, step),
        !before.local_playback,
        !(before.phase is Local),
    ensures
        step is Ask ==> !(step->Ask_run.phase is Local) && !step->Ask_run.local_playback,
        step is Ask && step->Ask_run.phase is StopLocal ==> step->Ask_request
            == PlayRequest::Exchange(PlayerCommand::Stop),
{
}

/// An upper bound on how often a run in this stage still asks for work.
pub open spec fn play_bound(stage: PlayStage) -> int {
    let started = 4 * START_ATTEMPTS + 3;
    let sent = started + 5;
    match stage {
        PlayStage::Device => sent + 2 * START_ATTEMPTS + 4,
        PlayStage::Quit => sent + 2 * START_ATTEMPTS + 3,
        PlayStage::Leaving { attempt } => sent + 2 * (START_ATTEMPTS - attempt) + 2,
        PlayStage::LeavingPause { attempt } => sent + 2 * (START_ATTEMPTS - attempt) + 1,
        PlayStage::Cleared => sent + 1,
        PlayStage::Volume => sent,
        PlayStage::Load => started + 4,
        PlayStage::Stale => started + 3,
        PlayStage::Log => started + 2,
        PlayStage::Started { .. } => started + 1,
        PlayStage::Child { attempt, .. } => 4 * (START_ATTEMPTS - attempt) + 3,
        PlayStage::ChildVolume { attempt, .. } => 4 * (START_ATTEMPTS - attempt) + 2,
        PlayStage::ChildLoad { attempt, .. } => 4 * (START_ATTEMPTS - attempt) + 1,
        PlayStage::ChildPause { attempt, .. } => 4 * (START_ATTEMPTS - attempt),
        PlayStage::Report { .. } => 2,
        PlayStage::Diagnosis { .. } => 1,
        PlayStage::Abandon { .. } => 1,
    }
}

/// Playing a sound on a player comes to an end: whatever the replies are, each brings it nearer
/// to it.
pub proof fn playing_ends(before: PlayOn, reply: PlayReply, step: PlayOnStep)
    requires
        stage_bounded(before.stage),
        play_transition(before, reply, step),
    ensures
        step is Ask ==> 0 <= play_bound(step->Ask_run.stage) < play_bound(before.stage),
{
}

/// The run of the step, if it is not over, is handed this reply, and the next step is what it does.
pub open spec fn goes_on(step: PlayStep, reply: PlayReply, next: PlayStep) -> bool {
    step is Ask ==> call_ensures(Play::advance, (step->Ask_run, reply), next)
}

/// A sound is played although no player runs yet: the run does not end because nobody listens, but
/// starts a player, sets the volume and then sends the sound. Once the started player has it, the
/// local output follows.
pub proof fn a_player_is_started_where_none_runs(
    path: PathBuf,
    volume: u8,
    local_playback: bool,
    mix_sink: &str,
    absent: Failure,
    refused: Failure,
    log: PathBuf,
    accepts: (Json, Json),
    steps: Seq<PlayStep>,
)
    requires
        steps.len() == 9,
        call_ensures(play, (path, volume, local_playback, mix_sink), steps[0]),
        absent.kind == FailureKind::NotFound || absent.kind == FailureKind::ConnectionRefused,
        goes_on(steps[0], PlayReply::Response(Err(absent)), steps[1]),
        refused.kind == FailureKind::NotFound || refused.kind == FailureKind::ConnectionRefused,
        goes_on(steps[1], PlayReply::Response(Err(refused)), steps[2]),
        goes_on(steps[2], PlayReply::Done(Ok(())), steps[3]),
        goes_on(steps[3], PlayReply::Log(Ok(log)), steps[4]),
        goes_on(steps[4], PlayReply::Done(Ok(())), steps[5]),
        goes_on(steps[5], PlayReply::State(PlayerState::Running), steps[6]),
        accepts.0@.text_field("error"@) == Some("success"@),
        goes_on(steps[6], PlayReply::Response(Ok(accepts.0)), steps[7]),
        accepts.1@.text_field("error"@) == Some("success"@),
        goes_on(steps[7], PlayReply::Response(Ok(accepts.1)), steps[8]),
    ensures
        forall|i: int| 0 <= i < 9 ==> (#[trigger] steps[i]) is Ask,
        steps[0]->Ask_request == PlayRequest::Exchange(PlayerCommand::GetDevice),
        steps[1]->Ask_request == PlayRequest::Exchange(PlayerCommand::SetVolume(volume)),
        steps[2]->Ask_request == PlayRequest::RemoveSocket,
        steps[3]->Ask_request == PlayRequest::PrepareLog,
        steps[4]->Ask_request == PlayRequest::Start(log),
        steps[5]->Ask_request == PlayRequest::Poll,
        steps[6]->Ask_request == PlayRequest::Exchange(PlayerCommand::SetVolume(volume)),
        steps[7]->Ask_request matches PlayRequest::Exchange(PlayerCommand::Load(file)) && file@
            == path::path_text(path),
        steps[8]->Ask_request == PlayRequest::Exchange(
            if local_playback {
                PlayerCommand::SetVolume(volume)
            } else {
                PlayerCommand::Stop
            },
        ),
{
}

/// A sound is played on the player that already runs on the wanted device: volume, then sound, and
/// nothing is started.
pub proof fn a_running_player_is_used(
    path: PathBuf,
    volume: u8,
    local_playback: bool,
    mix_sink: &str,
    device: Json,
    accepts: (Json, Json),
    steps: Seq<PlayStep>,
)
    requires
        steps.len() == 4,
        call_ensures(play, (path, volume, local_playback, mix_sink), steps[0]),
        device@.text_field("error"@) == Some("success"@),
        device@.text_field("data"@) == Some("pipewire/"@ + mix_sink@),
        goes_on(steps[0], PlayReply::Response(Ok(device)), steps[1]),
        accepts.0@.text_field("error"@) == Some("success"@),
        goes_on(steps[1], PlayReply::Response(Ok(accepts.0)), steps[2]),
        accepts.1@.text_field("error"@) == Some("success"@),
        goes_on(steps[2], PlayReply::Response(Ok(accepts.1)), steps[3]),
    ensures
        forall|i: int| 0 <= i < 4 ==> (#[trigger] steps[i]) is Ask,
        steps[1]->Ask_request == PlayRequest::Exchange(PlayerCommand::SetVolume(volume)),
        steps[2]->Ask_request matches PlayRequest::Exchange(PlayerCommand::Load(file)) && file@
            == path::path_text(path),
        steps[3]->Ask_request == PlayRequest::Exchange(
            if local_playback {
                PlayerCommand::SetVolume(volume)
            } else {
                PlayerCommand::Stop
            },
        ),
{
}

/// A player on another device is made to quit, and once it is gone the sound goes on as if none had
/// run.
pub proof fn a_player_on_another_device_is_replaced(
    path: PathBuf,
    volume: u8,
    local_playback: bool,
    mix_sink: &str,
    device: Json,
    quits: Json,
    steps: Seq<PlayStep>,
)
    requires
        steps.len() == 5,
        call_ensures(play, (path, volume, local_playback, mix_sink), steps[0]),
        device@.text_field("error"@) == Some("success"@),
        device@.text_field("data"@) != Some("pipewire/"@ + mix_sink@),
        goes_on(steps[0], PlayReply::Response(Ok(device)), steps[1]),
        quits@.text_field("error"@) == Some("success"@),
        goes_on(steps[1], PlayReply::Response(Ok(quits)), steps[2]),
        goes_on(steps[2], PlayReply::Answer(true), steps[3]),
        goes_on(steps[3], PlayReply::Done(Ok(())), steps[4]),
    ensures
        forall|i: int| 0 <= i < 5 ==> (#[trigger] steps[i]) is Ask,
        steps[1]->Ask_request == PlayRequest::Exchange(PlayerCommand::Quit),
        steps[2]->Ask_request == PlayRequest::Gone,
        steps[3]->Ask_request == PlayRequest::RemoveSocket,
        steps[4]->Ask_request == PlayRequest::Exchange(PlayerCommand::SetVolume(volume)),
{
}

/// That nobody listens never ends a run: before a player was started it leads to the start of one,
/// and afterwards to another look at the one that was started.
pub proof fn nobody_listening_is_no_failure(run: PlayOn, failure: Failure, step: PlayOnStep)
    requires
        failure.kind == FailureKind::NotFound || failure.kind == FailureKind::ConnectionRefused,
        call_ensures(PlayOn::advance, (run, PlayReply::Response(Err(failure))), step),
    ensures
        run.stage is Device ==> step == (PlayOnStep::Ask {
            run: PlayOn { stage: PlayStage::Volume, ..run },
            request: PlayRequest::Exchange(PlayerCommand::SetVolume(run.volume)),
        }),
        run.stage is Volume || run.stage is Load ==> step == (PlayOnStep::Ask {
            run: PlayOn { stage: PlayStage::Stale, ..run },
            request: PlayRequest::RemoveSocket,
        }),
        run.stage matches PlayStage::ChildVolume { log, attempt } ==> step == (PlayOnStep::Ask {
            run: PlayOn { stage: PlayStage::ChildPause { log, attempt }, ..run },
            request: PlayRequest::Pause,
        }),
        run.stage matches PlayStage::ChildLoad { log, attempt } ==> step == (PlayOnStep::Ask {
            run: PlayOn { stage: PlayStage::ChildPause { log, attempt }, ..run },
            request: PlayRequest::Pause,
        }),
{
}

/// Any other failure to reach a player ends the run with that failure; a player that the run
/// started is cleaned up first, and the message then tells where its log is.
pub proof fn a_broken_connection_is_a_failure(
    run: PlayOn,
    failure: Failure,
    step: PlayOnStep,
    cleaned: Result<(), Failure>,
    last: PlayOnStep,
)
    requires
        failure.kind != FailureKind::NotFound && failure.kind != FailureKind::ConnectionRefused,
        call_ensures(PlayOn::advance, (run, PlayReply::Response(Err(failure))), step),
        step is Ask ==> call_ensures(
            PlayOn::advance,
            (step->Ask_run, PlayReply::Done(cleaned)),
            last,
        ),
    ensures
        run.stage is Device || run.stage is Quit || run.stage is Volume || run.stage is Load ==> {
            &&& step is Finished && step->Finished_0 is Err
            &&& step->Finished_0->Err_0.kind == failure.kind
            &&& step->Finished_0->Err_0.message@ == failure.message@
        },
        run.stage is ChildVolume || run.stage is ChildLoad ==> {
            let log = if run.stage is ChildVolume {
                run.stage->ChildVolume_log
            } else {
                run.stage->ChildLoad_log
            };
            &&& step is Ask && step->Ask_request == PlayRequest::CleanUp
            &&& last is Finished && last->Finished_0 is Err
            &&& last->Finished_0->Err_0.kind == failure.kind
            &&& last->Finished_0->Err_0.message@ == failure.message@ + ". Log: "@
                + path::path_text(log)
        },
{
}

/// What mpv does not accept is a failure with the reason that mpv gives, or the remark that it gives
/// none.
pub proof fn a_refusal_is_a_failure(
    run: PlayOn,
    response: Json,
    reason: Seq<char>,
    step: PlayOnStep,
)
    requires
        response@.text_field("error"@) != Some("success"@),
        reason == match response@.text_field("error"@) {
            Some(text) => text,
            None => "invalid mpv response"@,
        },
        call_ensures(PlayOn::advance, (run, PlayReply::Response(Ok(response))), step),
    ensures
        run.stage is Device ==> step is Finished && step->Finished_0 is Err
            && step->Finished_0->Err_0.message@ == "mpv could not report its audio device: "@
            + reason,
        run.stage is Quit || run.stage is Volume || run.stage is Load ==> step is Finished
            && step->Finished_0 is Err && step->Finished_0->Err_0.message@
            == "mpv command failed: "@ + reason,
        run.stage is ChildVolume || run.stage is ChildLoad ==> step is Ask && step->Ask_request
            == PlayRequest::CleanUp && step->Ask_run.stage is Abandon
            && step->Ask_run.stage->Abandon_failure.message@ == "mpv command failed: "@ + reason,
{
    reveal_strlit("success");
    reveal_strlit("invalid mpv response");
    assert("success"@.len() != "invalid mpv response"@.len());
}

/// What mpv accepts leads on: from the volume to the sound, and from the sound to success.
pub proof fn an_accepted_command_leads_on(run: PlayOn, response: Json, step: PlayOnStep)
    requires
        response@.text_field("error"@) == Some("success"@),
        call_ensures(PlayOn::advance, (run, PlayReply::Response(Ok(response))), step),
    ensures
        run.stage is Volume || run.stage is ChildVolume ==> {
            &&& step is Ask
            &&& step->Ask_request matches PlayRequest::Exchange(PlayerCommand::Load(file)) && file@
                == path::path_text(run.path)
        },
        run.stage is Volume ==> step->Ask_run == (PlayOn { stage: PlayStage::Load, ..run }),
        run.stage matches PlayStage::ChildVolume { log, attempt } ==> step->Ask_run == (PlayOn {
            stage: PlayStage::ChildLoad { log, attempt },
            ..run
        }),
        run.stage is Load || run.stage is ChildLoad ==> step == PlayOnStep::Finished(Ok(())),
        run.stage is Quit ==> step is Ask && step->Ask_request == PlayRequest::Gone,
{
}

/// A quitting player has forty looks to be gone in; then the run gives up.
pub proof fn a_quitting_player_is_waited_for(
    run: PlayOn,
    attempt: u32,
    looked: PlayOnStep,
    paused: Result<(), Failure>,
    next: PlayOnStep,
)
    requires
        run.stage == (PlayStage::Leaving { attempt }),
        call_ensures(PlayOn::advance, (run, PlayReply::Answer(false)), looked),
        looked is Ask ==> call_ensures(
            PlayOn::advance,
            (looked->Ask_run, PlayReply::Done(paused)),
            next,
        ),
    ensures
        looked is Ask,
        looked->Ask_request == PlayRequest::Pause,
        attempt < 39 ==> next == (PlayOnStep::Ask {
            run: PlayOn { stage: PlayStage::Leaving { attempt: (attempt + 1) as u32 }, ..run },
            request: PlayRequest::Gone,
        }),
        attempt >= 39 ==> {
            &&& next is Finished && next->Finished_0 is Err
            &&& next->Finished_0->Err_0.kind == FailureKind::TimedOut
            &&& next->Finished_0->Err_0.message@
                == "mpv did not stop after the audio destination changed"@
        },
{
}

/// A starting player has forty looks to answer in; then it is cleaned up, and the run fails with
/// what its log says.
pub proof fn a_starting_player_is_waited_for(
    run: PlayOn,
    log: PathBuf,
    attempt: u32,
    paused: Result<(), Failure>,
    next: PlayOnStep,
    cleaned: Result<(), Failure>,
    reading: PlayOnStep,
    contents: Option<String>,
    last: PlayOnStep,
)
    requires
        run.stage == (PlayStage::ChildPause { log, attempt }),
        call_ensures(PlayOn::advance, (run, PlayReply::Done(paused)), next),
        next is Ask ==> call_ensures(
            PlayOn::advance,
            (next->Ask_run, PlayReply::Done(cleaned)),
            reading,
        ),
        reading is Ask ==> call_ensures(
            PlayOn::advance,
            (reading->Ask_run, PlayReply::Contents(contents)),
            last,
        ),
    ensures
        attempt < 39 ==> next == (PlayOnStep::Ask {
            run: PlayOn { stage: PlayStage::Child { log, attempt: (attempt + 1) as u32 }, ..run },
            request: PlayRequest::Poll,
        }),
        attempt >= 39 ==> {
            &&& next is Ask && next->Ask_request == PlayRequest::CleanUp
            &&& reading is Ask && reading->Ask_request == PlayRequest::ReadLog(log)
            &&& last is Finished && last->Finished_0 is Err
            &&& ("mpv did not create its IPC socket. Log: "@ + path::path_text(
                log,
            )).is_prefix_of(last->Finished_0->Err_0.message@)
        },
{
    if attempt >= 39 {
        reveal_strlit("mpv did not create its IPC socket. Log: ");
        reveal_strlit("mpv did not create its IPC socket");
        reveal_strlit(". Log: ");
        assert("mpv did not create its IPC socket. Log: "@
            =~= "mpv did not create its IPC socket"@ + ". Log: "@);
    }
}

/// A player that ends while it starts is reported with its status and its log, and one whose state
/// cannot be told is cleaned up.
pub proof fn a_player_that_does_not_start_is_reported(
    run: PlayOn,
    log: PathBuf,
    attempt: u32,
    status: String,
    unknown: Failure,
    steps: (PlayOnStep, PlayOnStep, PlayOnStep, PlayOnStep),
    done: Result<(), Failure>,
    contents: Option<String>,
)
    requires
        run.stage == (PlayStage::Child { log, attempt }),
        call_ensures(
            PlayOn::advance,
            (run, PlayReply::State(PlayerState::Exited(status))),
            steps.0,
        ),
        steps.0 is Ask ==> call_ensures(
            PlayOn::advance,
            (steps.0->Ask_run, PlayReply::Done(done)),
            steps.1,
        ),
        steps.1 is Ask ==> call_ensures(
            PlayOn::advance,
            (steps.1->Ask_run, PlayReply::Contents(contents)),
            steps.2,
        ),
        call_ensures(
            PlayOn::advance,
            (run, PlayReply::State(PlayerState::Unknown(unknown))),
            steps.3,
        ),
    ensures
        steps.0 is Ask && steps.0->Ask_request == PlayRequest::RemoveSocket,
        steps.1 is Ask && steps.1->Ask_request == PlayRequest::ReadLog(log),
        steps.2 is Finished && steps.2->Finished_0 is Err,
        ("mpv exited during startup with "@ + status@ + ". Log: "@ + path::path_text(
            log,
        )).is_prefix_of(steps.2->Finished_0->Err_0.message@),
        steps.3 is Ask && steps.3->Ask_request == PlayRequest::CleanUp,
        steps.3->Ask_run.stage matches PlayStage::Abandon { log: kept, failure } && kept == log
            && failure.kind == unknown.kind && failure.message@ == unknown.message@,
{
}

/// Work that cannot be done ends the run with its failure, and work that is done leads to the next
/// piece of work.
pub proof fn work_leads_on_or_fails(
    run: PlayOn,
    failure: Failure,
    log: PathBuf,
    failed: PlayOnStep,
    done: PlayOnStep,
    unlogged: PlayOnStep,
    logged: PlayOnStep,
)
    requires
        call_ensures(PlayOn::advance, (run, PlayReply::Done(Err(failure))), failed),
        call_ensures(PlayOn::advance, (run, PlayReply::Done(Ok(()))), done),
        call_ensures(PlayOn::advance, (run, PlayReply::Log(Err(failure))), unlogged),
        call_ensures(PlayOn::advance, (run, PlayReply::Log(Ok(log))), logged),
    ensures
        run.stage is Cleared || run.stage is Stale || run.stage is Started ==> {
            &&& failed is Finished && failed->Finished_0 is Err
            &&& failed->Finished_0->Err_0.kind == failure.kind
            &&& failed->Finished_0->Err_0.message@ == failure.message@
        },
        run.stage is Cleared ==> done is Ask && done->Ask_request == PlayRequest::Exchange(
            PlayerCommand::SetVolume(run.volume),
        ) && done->Ask_run.stage is Volume,
        run.stage is Stale ==> done is Ask && done->Ask_request == PlayRequest::PrepareLog,
        run.stage is Started ==> done is Ask && done->Ask_request == PlayRequest::Poll
            && done->Ask_run.stage == (PlayStage::Child {
            log: run.stage->Started_log,
            attempt: 0,
        }),
        run.stage is Log ==> {
            &&& logged is Ask && logged->Ask_request == PlayRequest::Start(log)
            &&& unlogged is Finished && unlogged->Finished_0 is Err
            &&& unlogged->Finished_0->Err_0.kind == failure.kind
            &&& unlogged->Finished_0->Err_0.message@ == failure.message@
        },
{
}

/// The local output follows the microphone: with local playback the same sound goes there at the
/// same volume, without it that output is told to stop; where the microphone failed, nothing
/// follows.
pub proof fn the_local_output_follows(
    run: Play,
    on: PlayOn,
    response: Json,
    served: PlayStep,
    failure: Failure,
    failed: PlayStep,
)
    requires
        run.phase == PlayPhase::Mix(on),
        on.stage is Load || on.stage is ChildLoad,
        response@.text_field("error"@) == Some("success"@),
        call_ensures(Play::advance, (run, PlayReply::Response(Ok(response))), served),
        call_ensures(Play::advance, (run, PlayReply::Response(Err(failure))), failed),
    ensures
        served is Ask,
        run.local_playback ==> {
            &&& served->Ask_request == PlayRequest::Exchange(
                PlayerCommand::SetVolume(run.volume),
            )
            &&& served->Ask_run.phase == PlayPhase::Local(
                PlayOn {
                    path: run.path,
                    volume: run.volume,
                    target: Target::Local,
                    stage: PlayStage::Volume,
                },
            )
        },
        !run.local_playback ==> {
            &&& served->Ask_request == PlayRequest::Exchange(PlayerCommand::Stop)
            &&& served->Ask_run.phase is StopLocal
        },
        on.stage is Load && failure.kind != FailureKind::NotFound && failure.kind
            != FailureKind::ConnectionRefused ==> {
            &&& failed is Finished && failed->Finished_0 is Err
            &&& failed->Finished_0->Err_0.kind == failure.kind
            &&& failed->Finished_0->Err_0.message@ == failure.message@
        },
{
}

/// What happens on the local output is told beside the success: nothing where it plays, or is
/// stopped, or no player runs there to be stopped; the message of what went wrong otherwise.
pub proof fn the_local_outcome_is_told(
    run: Play,
    response: Json,
    accepted: PlayStep,
    failure: Failure,
    failed: PlayStep,
)
    requires
        run.phase is StopLocal || run.phase is Local && run.phase->Local_0.stage is Load,
        response@.text_field("error"@) == Some("success"@),
        call_ensures(Play::advance, (run, PlayReply::Response(Ok(response))), accepted),
        call_ensures(Play::advance, (run, PlayReply::Response(Err(failure))), failed),
    ensures
        accepted is Finished && accepted->Finished_0 is Ok,
        accepted->Finished_0->Ok_0.local_error is None,
        failure.kind != FailureKind::NotFound && failure.kind != FailureKind::ConnectionRefused
            ==> {
            &&& failed is Finished && failed->Finished_0 is Ok
            &&& failed->Finished_0->Ok_0.local_error is Some
            &&& failed->Finished_0->Ok_0.local_error->Some_0@ == failure.message@
        },
        failure.kind == FailureKind::NotFound || failure.kind == FailureKind::ConnectionRefused
            ==> {
            &&& run.phase is StopLocal ==> failed is Finished && failed->Finished_0 is Ok
                && failed->Finished_0->Ok_0.local_error is None
            &&& run.phase is Local ==> failed is Ask && failed->Ask_request
                == PlayRequest::RemoveSocket
        },
{
}

/// The player for the local output is never asked for its device, and is another one than the
/// player for the microphone: they share neither socket nor log, and only the latter is bound to a
/// device.
pub proof fn the_two_players_are_apart(
    path: PathBuf,
    volume: u8,
    device: String,
    step: PlayOnStep,
    sockets: (&'static str, &'static str),
    logs: (&'static str, &'static str),
    devices: (Option<String>, Option<String>),
)
    requires
        call_ensures(play_on, (path, volume, Target::Local), step),
        call_ensures(Target::socket_name, (&Target::Mix { device },), sockets.0),
        call_ensures(Target::socket_name, (&Target::Local,), sockets.1),
        call_ensures(Target::log_name, (&Target::Mix { device },), logs.0),
        call_ensures(Target::log_name, (&Target::Local,), logs.1),
        call_ensures(Target::device, (&Target::Mix { device },), devices.0),
        call_ensures(Target::device, (&Target::Local,), devices.1),
    ensures
        step is Ask && step->Ask_request == PlayRequest::Exchange(
            PlayerCommand::SetVolume(volume),
        ),
        sockets.0@ == "soundboard-tui-mpv.sock"@,
        sockets.1@ == "soundboard-tui-local-mpv.sock"@,
        sockets.0@ != sockets.1@,
        logs.0@ == "mpv-mix.log"@,
        logs.1@ == "mpv-local.log"@,
        logs.0@ != logs.1@,
        devices.0 == Some(device),
        devices.1 is None,
{
    reveal_strlit("soundboard-tui-mpv.sock");
    reveal_strlit("soundboard-tui-local-mpv.sock");
    reveal_strlit("mpv-mix.log");
    reveal_strlit("mpv-local.log");
    assert(sockets.0@.len() < sockets.1@.len());
    assert(logs.0@.len() < logs.1@.len());
}

/// A run is always at the player that its sound goes to.
pub proof fn a_run_is_at_its_player(run: Play, target: &Target)
    requires
        call_ensures(Play::target, (&run,), target),
    ensures
        run.phase matches PlayPhase::Mix(on) ==> *target == on.target,
        run.phase matches PlayPhase::Local(on) ==> *target == on.target,
        run.phase is StopLocal ==> *target is Local,
{
}

/// The two requests ask for the same work.
pub open spec fn same_work(left: PlayRequest, right: PlayRequest) -> bool {
    match (left, right) {
        (
            PlayRequest::Exchange(PlayerCommand::Load(one)),
            PlayRequest::Exchange(PlayerCommand::Load(other)),
        ) => one@ == other@,
        _ => left == right,
    }
}

/// On each of the two outputs a sound is played as it is on one player alone: what the one run asks
/// for the other asks for, and what ends the one in a failure ends the part of the other.
pub proof fn each_output_is_played_as_one(
    run: Play,
    on: PlayOn,
    reply: PlayReply,
    inner: PlayOnStep,
    step: PlayStep,
)
    requires
        run.phase == PlayPhase::Mix(on) || run.phase == PlayPhase::Local(on),
        call_ensures(PlayOn::advance, (on, reply), inner),
        call_ensures(Play::advance, (run, reply), step),
    ensures
        inner is Ask ==> {
            &&& step is Ask
            &&& same_work(step->Ask_request, inner->Ask_request)
            &&& step->Ask_run.phase is Mix == run.phase is Mix
            &&& step->Ask_run.phase is Local == run.phase is Local
            &&& step->Ask_run.path == run.path && step->Ask_run.volume == run.volume
                && step->Ask_run.local_playback == run.local_playback
        },
        (inner matches PlayOnStep::Finished(Err(failure)) && run.phase is Mix) ==> {
            &&& step is Finished && step->Finished_0 is Err
            &&& step->Finished_0->Err_0.kind == inner->Finished_0->Err_0.kind
            &&& step->Finished_0->Err_0.message@ == inner->Finished_0->Err_0.message@
        },
        (inner matches PlayOnStep::Finished(Err(failure)) && run.phase is Local) ==> {
            &&& step is Finished && step->Finished_0 is Ok
            &&& step->Finished_0->Ok_0.local_error is Some
            &&& step->Finished_0->Ok_0.local_error->Some_0@ == inner->Finished_0->Err_0.message@
        },
        (inner matches PlayOnStep::Finished(Ok(_)) && run.phase is Local) ==> {
            &&& step is Finished && step->Finished_0 is Ok
            &&& step->Finished_0->Ok_0.local_error is None
        },
{
}

} // verus!
