//! Installing and removing the managed mix: each run asks for outside work step by step and is
//! handed what came of it.

use std::path::PathBuf;

use vstd::prelude::*;

use crate::audio;
use crate::audio::{has_managed_marker, protect_unmanaged_file, render_config, validate_source_name};
use crate::failure;
use crate::failure::{Failure, FailureKind};
use crate::path;
use crate::path::{display, parent_of};
use crate::text::{join2, join3};

verus! {

/// How often the restarted server is looked at before the mix counts as incomplete.
pub const SINK_WAIT_ATTEMPTS: u32 = 10;

/// Outside work that a run asks for.
pub enum MixRequest {
    /// Read the configuration file as text.
    ReadText,
    /// Read the configuration file's bytes.
    ReadBytes,
    /// Create this directory and what it stands in.
    CreateDirectory(PathBuf),
    /// Replace the configuration file by one with this text.
    Write(String),
    /// Put the configuration file back: with these bytes, or away if there were none.
    Restore(Option<Vec<u8>>),
    /// Remove the configuration file.
    Delete,
    /// Restart the Pulse server.
    Restart,
    /// Run diagnostics and tell whether the mix is ready, after a pause where there is to be one.
    Check { pause: bool },
}

/// What came of the outside work.
pub enum MixReply {
    Text(Result<String, Failure>),
    Bytes(Result<Vec<u8>, Failure>),
    Done(Result<(), Failure>),
    Checked { ready: Result<bool, Failure>, pipewire_error: Option<String> },
}

/// Where an installation stands: what it waits for, and what it has to remember.
pub enum InstallStage {
    Protect,
    Backup,
    Prepare { previous: Option<Vec<u8>> },
    Write { previous: Option<Vec<u8>> },
    Restart { previous: Option<Vec<u8>> },
    Wait { previous: Option<Vec<u8>>, attempt: u32 },
    Restore { failure: Failure },
    RestartAgain { failure: Failure },
}

/// A running installation.
pub struct MixInstall {
    pub path: PathBuf,
    pub source_name: String,
    pub stage: InstallStage,
}

/// What an installation does next.
pub enum InstallStep {
    Ask { run: MixInstall, request: MixRequest },
    Finished(Result<(), Failure>),
}

/// The reply is of the sort that the stage waits for.
pub open spec fn install_awaits(stage: InstallStage, reply: MixReply) -> bool {
    match stage {
        InstallStage::Protect => reply is Text,
        InstallStage::Backup => reply is Bytes,
        InstallStage::Wait { .. } => reply is Checked,
        _ => reply is Done,
    }
}

/// The run goes on for the same file and source, in this stage, asking for this.
pub open spec fn asks(
    before: MixInstall,
    step: InstallStep,
    stage: InstallStage,
    request: MixRequest,
) -> bool {
    &&& step is Ask
    &&& step->Ask_run == MixInstall { stage, ..before }
    &&& step->Ask_request == request
}

/// The run is over with this failure.
pub open spec fn fails(step: InstallStep, kind: FailureKind, message: Seq<char>) -> bool {
    step is Finished && step->Finished_0 is Err && failure::failure_is(
        step->Finished_0->Err_0,
        kind,
        message,
    )
}

/// The run puts the previous file back, because of a failure with this kind and message.
pub open spec fn rolls_back(
    before: MixInstall,
    step: InstallStep,
    previous: Option<Vec<u8>>,
    kind: FailureKind,
    message: Seq<char>,
) -> bool {
    &&& step is Ask
    &&& step->Ask_run.stage is Restore
    &&& asks(before, step, step->Ask_run.stage, MixRequest::Restore(previous))
    &&& failure::failure_is(step->Ask_run.stage->Restore_failure, kind, message)
}

/// The message of what the last look at the server showed.
pub open spec fn incomplete_message(ready: Result<bool, Failure>, pipewire_error: Option<String>)
    -> Seq<char> {
    let start = "PipeWire restarted, but the managed mix was incomplete"@;
    match ready {
        Ok(_) => match pipewire_error {
            Some(message) => start + (": "@ + message@),
            None => start + Seq::empty(),
        },
        Err(failure) => start + (": "@ + failure.message@),
    }
}

/// What an installation does with a reply; one of another sort than the stage waits for ends it.
pub open spec fn install_transition(before: MixInstall, reply: MixReply, step: InstallStep) -> bool {
    match (before.stage, reply) {
        (InstallStage::Protect, MixReply::Text(Ok(contents))) => if audio::marked(contents@) {
            asks(before, step, InstallStage::Backup, MixRequest::ReadBytes)
        } else {
            fails(
                step,
                FailureKind::AlreadyExists,
                "refusing to overwrite unmanaged PipeWire config: "@ + path::path_text(before.path),
            )
        },
        (InstallStage::Protect, MixReply::Text(Err(failure))) => if failure.kind
            == FailureKind::NotFound {
            asks(before, step, InstallStage::Backup, MixRequest::ReadBytes)
        } else {
            fails(step, failure.kind, failure.message@)
        },
        (InstallStage::Backup, MixReply::Bytes(read)) => if read is Err && read->Err_0.kind
            != FailureKind::NotFound {
            fails(step, read->Err_0.kind, read->Err_0.message@)
        } else {
            let previous = match read {
                Ok(bytes) => Some(bytes),
                Err(_) => None,
            };
            match path::parent_components(path::path_bytes(before.path)) {
                Some(_) => {
                    &&& step is Ask
                    &&& step->Ask_request is CreateDirectory
                    &&& asks(
                        before,
                        step,
                        InstallStage::Prepare { previous },
                        step->Ask_request,
                    )
                    &&& path::parent_is(
                        path::path_bytes(before.path),
                        path::path_bytes(step->Ask_request->CreateDirectory_0),
                    )
                },
                None => fails(
                    step,
                    FailureKind::Other,
                    "managed PipeWire config path has no parent"@,
                ),
            }
        },
        (InstallStage::Prepare { previous }, MixReply::Done(Ok(()))) => {
            &&& step is Ask
            &&& step->Ask_request is Write
            &&& asks(before, step, InstallStage::Write { previous }, step->Ask_request)
            &&& step->Ask_request->Write_0@ == audio::config_text(before.source_name@)
        },
        (InstallStage::Prepare { previous }, MixReply::Done(Err(failure))) => fails(
            step,
            failure.kind,
            failure.message@,
        ),
        (InstallStage::Write { previous }, MixReply::Done(Ok(()))) => asks(
            before,
            step,
            InstallStage::Restart { previous },
            MixRequest::Restart,
        ),
        (InstallStage::Write { previous }, MixReply::Done(Err(failure))) => fails(
            step,
            failure.kind,
            failure.message@,
        ),
        (InstallStage::Restart { previous }, MixReply::Done(Ok(()))) => asks(
            before,
            step,
            InstallStage::Wait { previous, attempt: 1 },
            MixRequest::Check { pause: false },
        ),
        (InstallStage::Restart { previous }, MixReply::Done(Err(failure))) => rolls_back(
            before,
            step,
            previous,
            failure.kind,
            failure.message@,
        ),
        (
            InstallStage::Wait { previous, attempt },
            MixReply::Checked { ready, pipewire_error },
        ) => if ready == Ok::<bool, Failure>(true) {
            step == InstallStep::Finished(Ok(()))
        } else if attempt < SINK_WAIT_ATTEMPTS {
            asks(
                before,
                step,
                InstallStage::Wait { previous, attempt: (attempt + 1) as u32 },
                MixRequest::Check { pause: true },
            )
        } else {
            rolls_back(
                before,
                step,
                previous,
                FailureKind::TimedOut,
                incomplete_message(ready, pipewire_error),
            )
        },
        (InstallStage::Restore { failure }, MixReply::Done(Ok(()))) => asks(
            before,
            step,
            InstallStage::RestartAgain { failure },
            MixRequest::Restart,
        ),
        (InstallStage::RestartAgain { failure }, MixReply::Done(Ok(()))) => fails(
            step,
            failure.kind,
            failure.message@ + "; previous setup restored"@,
        ),
        (InstallStage::Restore { failure }, MixReply::Done(Err(second))) => fails(
            step,
            failure.kind,
            failure.message@ + "; rollback also failed: "@ + second.message@,
        ),
        (InstallStage::RestartAgain { failure }, MixReply::Done(Err(second))) => fails(
            step,
            failure.kind,
            failure.message@ + "; rollback also failed: "@ + second.message@,
        ),
        _ => step is Finished && step->Finished_0 is Err && failure::is_out_of_turn(
            step->Finished_0->Err_0,
        ),
    }
}

/// Begins to install the managed mix for a source, into the configuration file at `path`.
pub fn install_managed_mix(source_name: &str, path: Result<PathBuf, Failure>) -> (step: InstallStep)
    ensures
        if !audio::valid_source_name(source_name@) {
            fails(step, FailureKind::InvalidInput, "source name must match [A-Za-z0-9_.:-]+"@)
        } else {
            match path {
                Ok(path) => {
                    &&& step is Ask
                    &&& step->Ask_request == MixRequest::ReadText
                    &&& step->Ask_run.path == path
                    &&& step->Ask_run.source_name@ == source_name@
                    &&& step->Ask_run.stage is Protect
                },
                Err(failure) => step == InstallStep::Finished(Err(failure)),
            }
        },
{
    if let Err(failure) = validate_source_name(source_name) {
        return InstallStep::Finished(Err(failure));
    }
    match path {
        Ok(path) => InstallStep::Ask {
            run: MixInstall {
                path,
                source_name: source_name.to_owned(),
                stage: InstallStage::Protect,
            },
            request: MixRequest::ReadText,
        },
        Err(failure) => InstallStep::Finished(Err(failure)),
    }
}

impl MixInstall {
    fn ask(self, stage: InstallStage, request: MixRequest) -> (step: InstallStep)
        ensures
            asks(self, step, stage, request),
    {
        InstallStep::Ask {
            run: MixInstall { path: self.path, source_name: self.source_name, stage },
            request,
        }
    }

    /// Takes what came of the work that was asked for, and says what is to be done next.
    pub fn advance(self, reply: MixReply) -> (step: InstallStep)
        ensures
            install_transition(self, reply, step),
    {
        let MixInstall { path, source_name, stage } = self;
        match stage {
            InstallStage::Protect => {
                let contents = match reply {
                    MixReply::Text(contents) => contents,
                    _ => return InstallStep::Finished(Err(Failure::out_of_turn())),
                };
                match protect_unmanaged_file(&path, &contents) {
                    Ok(()) => {
                        let run = MixInstall { path, source_name, stage: InstallStage::Protect };
                        run.ask(InstallStage::Backup, MixRequest::ReadBytes)
                    },
                    Err(failure) => InstallStep::Finished(Err(failure)),
                }
            },
            InstallStage::Backup => {
                let previous = match reply {
                    MixReply::Bytes(Ok(bytes)) => Some(bytes),
                    MixReply::Bytes(Err(failure)) => if failure.kind == FailureKind::NotFound {
                        None
                    } else {
                        return InstallStep::Finished(Err(failure));
                    },
                    _ => return InstallStep::Finished(Err(Failure::out_of_turn())),
                };
                match parent_of(&path) {
                    Some(parent) => {
                        let run = MixInstall { path, source_name, stage: InstallStage::Backup };
                        run.ask(
                            InstallStage::Prepare { previous },
                            MixRequest::CreateDirectory(parent),
                        )
                    },
                    None => InstallStep::Finished(
                        Err(Failure::other("managed PipeWire config path has no parent")),
                    ),
                }
            },
            InstallStage::Wait { previous, attempt } => {
                let (ready, pipewire_error) = match reply {
                    MixReply::Checked { ready, pipewire_error } => (ready, pipewire_error),
                    _ => return InstallStep::Finished(Err(Failure::out_of_turn())),
                };
                if let Ok(true) = ready {
                    return InstallStep::Finished(Ok(()));
                }
                let run = MixInstall { path, source_name, stage: InstallStage::Protect };
                if attempt < SINK_WAIT_ATTEMPTS {
                    return run.ask(
                        InstallStage::Wait { previous, attempt: attempt + 1 },
                        MixRequest::Check { pause: true },
                    );
                }
                let detail = match ready {
                    Ok(_) => match pipewire_error {
                        Some(message) => join2(": ", &message),
                        None => String::new(),
                    },
                    Err(failure) => join2(": ", &failure.message),
                };
                let failure = Failure::new(
                    FailureKind::TimedOut,
                    &join2("PipeWire restarted, but the managed mix was incomplete", &detail),
                );
                run.ask(InstallStage::Restore { failure }, MixRequest::Restore(previous))
            },
            stage => {
                let done = match reply {
                    MixReply::Done(done) => done,
                    _ => return InstallStep::Finished(Err(Failure::out_of_turn())),
                };
                let run = MixInstall { path, source_name, stage: InstallStage::Protect };
                run.after_work(stage, done)
            },
        }
    }

    /// Takes the result of a piece of work that only succeeds or fails.
    fn after_work(self, stage: InstallStage, done: Result<(), Failure>) -> (step: InstallStep)
        ensures
            install_transition(MixInstall { stage, ..self }, MixReply::Done(done), step),
    {
        match stage {
            InstallStage::Prepare { previous } => match done {
                Ok(()) => {
                    let config = render_config(&self.source_name);
                    self.ask(InstallStage::Write { previous }, MixRequest::Write(config))
                },
                Err(failure) => InstallStep::Finished(Err(failure)),
            },
            InstallStage::Write { previous } => match done {
                Ok(()) => self.ask(InstallStage::Restart { previous }, MixRequest::Restart),
                Err(failure) => InstallStep::Finished(Err(failure)),
            },
            InstallStage::Restart { previous } => match done {
                Ok(()) => self.ask(
                    InstallStage::Wait { previous, attempt: 1 },
                    MixRequest::Check { pause: false },
                ),
                Err(failure) => self.ask(
                    InstallStage::Restore { failure },
                    MixRequest::Restore(previous),
                ),
            },
            InstallStage::Restore { failure } => match done {
                Ok(()) => self.ask(InstallStage::RestartAgain { failure }, MixRequest::Restart),
                Err(second) => InstallStep::Finished(
                    Err(
                        Failure::new(
                            failure.kind,
                            &join3(
                                &failure.message,
                                "; rollback also failed: ",
                                &second.message,
                            ),
                        ),
                    ),
                ),
            },
            InstallStage::RestartAgain { failure } => InstallStep::Finished(
                Err(
                    Failure::new(
                        failure.kind,
                        &match done {
                            Ok(()) => join2(&failure.message, "; previous setup restored"),
                            Err(second) => join3(
                                &failure.message,
                                "; rollback also failed: ",
                                &second.message,
                            ),
                        },
                    ),
                ),
            ),
            _ => InstallStep::Finished(Err(Failure::out_of_turn())),
        }
    }
}

/// A file that the program did not write is never written over: an installation asks for a write
/// only with the text that it renders for its source, and only in a stage that is reached after a
/// look at the file which found none or found the marker.
pub proof fn unmanaged_file_is_kept(before: MixInstall, reply: MixReply, step: InstallStep)
    requires
        install_transition(before, reply, step),
    ensures
        step is Ask && step->Ask_request is Write ==> before.stage is Prepare
            && step->Ask_request->Write_0@ == audio::config_text(before.source_name@),
        step is Ask && step->Ask_run.stage is Prepare ==> before.stage is Backup,
        step is Ask && step->Ask_run.stage is Backup ==> before.stage is Protect && match reply {
            MixReply::Text(Ok(contents)) => audio::marked(contents@),
            MixReply::Text(Err(failure)) => failure.kind == FailureKind::NotFound,
            _ => false,
        },
        step is Ask ==> !(step->Ask_run.stage is Protect),
{
}

/// What an installation has to put back if it fails: nothing before it has read the file.
pub open spec fn remembered(stage: InstallStage) -> Option<Option<Vec<u8>>> {
    match stage {
        InstallStage::Prepare { previous } => Some(previous),
        InstallStage::Write { previous } => Some(previous),
        InstallStage::Restart { previous } => Some(previous),
        InstallStage::Wait { previous, .. } => Some(previous),
        _ => None,
    }
}

/// An installation that fails once the file is written puts back what it read before: what it
/// read stays with it from stage to stage, and a failed restart or a mix that stays incomplete
/// leads to putting exactly that back.
pub proof fn failed_install_restores(before: MixInstall, reply: MixReply, step: InstallStep)
    requires
        install_transition(before, reply, step),
    ensures
        before.stage is Backup && step is Ask ==> match reply {
            MixReply::Bytes(Ok(bytes)) => remembered(step->Ask_run.stage) == Some(Some(bytes)),
            _ => remembered(step->Ask_run.stage) == Some(None::<Vec<u8>>),
        },
        remembered(before.stage) is Some && step is Ask && !(step->Ask_run.stage is Restore) ==>
            remembered(step->Ask_run.stage) == remembered(before.stage),
        step is Ask && step->Ask_run.stage is Restore ==> remembered(before.stage) is Some
            && step->Ask_request == MixRequest::Restore(remembered(before.stage)->Some_0),
        (before.stage is Restart || before.stage is Wait) && install_awaits(before.stage, reply)
            && step is Finished ==> step->Finished_0 is Ok,
{
}

/// Where a removal stands.
pub enum RemoveStage {
    Read,
    Delete { contents: String },
    Restart { contents: String },
    Rewrite { failure: Failure },
    RestartAgain { failure: Failure },
}

/// A running removal.
pub struct MixRemoval {
    pub path: PathBuf,
    pub stage: RemoveStage,
}

/// What a removal does next.
pub enum RemoveStep {
    Ask { run: MixRemoval, request: MixRequest },
    Finished(Result<(), Failure>),
}

/// The removal goes on for the same file, in this stage, asking for this.
pub open spec fn removal_asks(
    before: MixRemoval,
    step: RemoveStep,
    stage: RemoveStage,
    request: MixRequest,
) -> bool {
    step == (RemoveStep::Ask { run: MixRemoval { path: before.path, stage }, request })
}

/// The removal is over with this failure.
pub open spec fn removal_fails(step: RemoveStep, kind: FailureKind, message: Seq<char>) -> bool {
    step is Finished && step->Finished_0 is Err && failure::failure_is(
        step->Finished_0->Err_0,
        kind,
        message,
    )
}

/// What a removal does with a reply; one of another sort than the stage waits for ends it.
pub open spec fn removal_transition(before: MixRemoval, reply: MixReply, step: RemoveStep) -> bool {
    match (before.stage, reply) {
        (RemoveStage::Read, MixReply::Text(Ok(contents))) => if audio::marked(contents@) {
            removal_asks(before, step, RemoveStage::Delete { contents }, MixRequest::Delete)
        } else {
            removal_fails(
                step,
                FailureKind::PermissionDenied,
                "refusing to remove unmanaged PipeWire config: "@ + path::path_text(before.path),
            )
        },
        (RemoveStage::Read, MixReply::Text(Err(failure))) => if failure.kind
            == FailureKind::NotFound {
            step == RemoveStep::Finished(Ok(()))
        } else {
            step == RemoveStep::Finished(Err(failure))
        },
        (RemoveStage::Delete { contents }, MixReply::Done(Ok(()))) => removal_asks(
            before,
            step,
            RemoveStage::Restart { contents },
            MixRequest::Restart,
        ),
        (RemoveStage::Delete { contents }, MixReply::Done(Err(failure))) => step
            == RemoveStep::Finished(Err(failure)),
        (RemoveStage::Restart { contents }, MixReply::Done(Ok(()))) => step
            == RemoveStep::Finished(Ok(())),
        (RemoveStage::Restart { contents }, MixReply::Done(Err(failure))) => removal_asks(
            before,
            step,
            RemoveStage::Rewrite { failure },
            MixRequest::Write(contents),
        ),
        (RemoveStage::Rewrite { failure }, MixReply::Done(Ok(()))) => removal_asks(
            before,
            step,
            RemoveStage::RestartAgain { failure },
            MixRequest::Restart,
        ),
        (RemoveStage::RestartAgain { failure }, MixReply::Done(Ok(()))) => removal_fails(
            step,
            failure.kind,
            failure.message@ + "; removal rolled back"@,
        ),
        (RemoveStage::Rewrite { failure }, MixReply::Done(Err(second))) => removal_fails(
            step,
            failure.kind,
            failure.message@ + "; removal rollback also failed: "@ + second.message@,
        ),
        (RemoveStage::RestartAgain { failure }, MixReply::Done(Err(second))) => removal_fails(
            step,
            failure.kind,
            failure.message@ + "; removal rollback also failed: "@ + second.message@,
        ),
        _ => step is Finished && step->Finished_0 is Err && failure::is_out_of_turn(
            step->Finished_0->Err_0,
        ),
    }
}

/// Begins to remove the managed mix, whose configuration file is at `path`.
pub fn remove_managed_mix(path: Result<PathBuf, Failure>) -> (step: RemoveStep)
    ensures
        match path {
            Ok(path) => step == (RemoveStep::Ask {
                run: MixRemoval { path, stage: RemoveStage::Read },
                request: MixRequest::ReadText,
            }),
            Err(failure) => step == RemoveStep::Finished(Err(failure)),
        },
{
    match path {
        Ok(path) => RemoveStep::Ask {
            run: MixRemoval { path, stage: RemoveStage::Read },
            request: MixRequest::ReadText,
        },
        Err(failure) => RemoveStep::Finished(Err(failure)),
    }
}

impl MixRemoval {
    /// Takes what came of the work that was asked for, and says what is to be done next.
    pub fn advance(self, reply: MixReply) -> (step: RemoveStep)
        ensures
            removal_transition(self, reply, step),
    {
        let MixRemoval { path, stage } = self;
        match (stage, reply) {
            (RemoveStage::Read, MixReply::Text(Ok(contents))) => if has_managed_marker(&contents) {
                RemoveStep::Ask {
                    run: MixRemoval { path, stage: RemoveStage::Delete { contents } },
                    request: MixRequest::Delete,
                }
            } else {
                RemoveStep::Finished(
                    Err(
                        Failure::new(
                            FailureKind::PermissionDenied,
                            &join2(
                                "refusing to remove unmanaged PipeWire config: ",
                                &display(&path),
                            ),
                        ),
                    ),
                )
            },
            (RemoveStage::Read, MixReply::Text(Err(failure))) => if failure.kind
                == FailureKind::NotFound {
                RemoveStep::Finished(Ok(()))
            } else {
                RemoveStep::Finished(Err(failure))
            },
            (RemoveStage::Delete { contents }, MixReply::Done(Ok(()))) => RemoveStep::Ask {
                run: MixRemoval { path, stage: RemoveStage::Restart { contents } },
                request: MixRequest::Restart,
            },
            (RemoveStage::Delete { contents }, MixReply::Done(Err(failure))) =>
                RemoveStep::Finished(Err(failure)),
            (RemoveStage::Restart { contents }, MixReply::Done(Ok(()))) => RemoveStep::Finished(
                Ok(()),
            ),
            (RemoveStage::Restart { contents }, MixReply::Done(Err(failure))) => RemoveStep::Ask {
                run: MixRemoval { path, stage: RemoveStage::Rewrite { failure } },
                request: MixRequest::Write(contents),
            },
            (RemoveStage::Rewrite { failure }, MixReply::Done(Ok(()))) => RemoveStep::Ask {
                run: MixRemoval { path, stage: RemoveStage::RestartAgain { failure } },
                request: MixRequest::Restart,
            },
            (RemoveStage::Rewrite { failure }, MixReply::Done(Err(second)))
            | (RemoveStage::RestartAgain { failure }, MixReply::Done(Err(second))) =>
                RemoveStep::Finished(
                    Err(
                        Failure::new(
                            failure.kind,
                            &join3(
                                &failure.message,
                                "; removal rollback also failed: ",
                                &second.message,
                            ),
                        ),
                    ),
                ),
            (RemoveStage::RestartAgain { failure }, MixReply::Done(Ok(()))) =>
                RemoveStep::Finished(
                    Err(
                        Failure::new(
                            failure.kind,
                            &join2(&failure.message, "; removal rolled back"),
                        ),
                    ),
                ),
            _ => RemoveStep::Finished(Err(Failure::out_of_turn())),
        }
    }
}

/// A file that the program did not write is never removed: a removal asks to delete only after it
/// read a file with the marker. If the restart fails afterwards, what it read is written back.
pub proof fn unmanaged_file_is_not_removed(before: MixRemoval, reply: MixReply, step: RemoveStep)
    requires
        removal_transition(before, reply, step),
    ensures
        step is Ask && step->Ask_request is Delete ==> before.stage is Read && match reply {
            MixReply::Text(Ok(contents)) => audio::marked(contents@) && step->Ask_run.stage == (
            RemoveStage::Delete { contents }),
            _ => false,
        },
        before.stage is Delete && step is Ask ==> step->Ask_run.stage == (RemoveStage::Restart {
            contents: before.stage->Delete_contents,
        }),
        before.stage is Restart && step is Ask ==> step->Ask_request == MixRequest::Write(
            before.stage->Restart_contents,
        ),
{
}

/// An upper bound on how often an installation in this stage still asks for work.
pub open spec fn install_bound(stage: InstallStage) -> int {
    match stage {
        InstallStage::Protect => SINK_WAIT_ATTEMPTS + 7,
        InstallStage::Backup => SINK_WAIT_ATTEMPTS + 6,
        InstallStage::Prepare { .. } => SINK_WAIT_ATTEMPTS + 5,
        InstallStage::Write { .. } => SINK_WAIT_ATTEMPTS + 4,
        InstallStage::Restart { .. } => SINK_WAIT_ATTEMPTS + 3,
        InstallStage::Wait { attempt, .. } => if attempt < SINK_WAIT_ATTEMPTS {
            SINK_WAIT_ATTEMPTS - attempt + 3
        } else {
            3
        },
        InstallStage::Restore { .. } => 2,
        InstallStage::RestartAgain { .. } => 1,
    }
}

/// An installation comes to an end: whatever the replies are, each brings it nearer to it.
pub proof fn installation_ends(before: MixInstall, reply: MixReply, step: InstallStep)
    requires
        install_transition(before, reply, step),
    ensures
        step is Ask ==> 0 <= install_bound(step->Ask_run.stage) < install_bound(before.stage),
{
}

/// An upper bound on how often a removal in this stage still asks for work.
pub open spec fn removal_bound(stage: RemoveStage) -> int {
    match stage {
        RemoveStage::Read => 5,
        RemoveStage::Delete { .. } => 4,
        RemoveStage::Restart { .. } => 3,
        RemoveStage::Rewrite { .. } => 2,
        RemoveStage::RestartAgain { .. } => 1,
    }
}

/// A removal comes to an end: whatever the replies are, each brings it nearer to it.
pub proof fn removal_ends(before: MixRemoval, reply: MixReply, step: RemoveStep)
    requires
        removal_transition(before, reply, step),
    ensures
        step is Ask ==> 0 <= removal_bound(step->Ask_run.stage) < removal_bound(before.stage),
{
}

/// The installation of the step, if it is not over, is handed this reply, and the next step is what
/// it does.
pub open spec fn install_goes_on(step: InstallStep, reply: MixReply, next: InstallStep) -> bool {
    step is Ask ==> call_ensures(MixInstall::advance, (step->Ask_run, reply), next)
}

/// An installation for a proper source succeeds where each piece of its work does: it looks at the
/// file that is there, keeps it, writes the new one into its directory, restarts the server and
/// finds the mix ready.
pub proof fn an_installation_succeeds(
    source_name: &str,
    path: PathBuf,
    found: Result<String, Failure>,
    seen: &str,
    kept: Result<Vec<u8>, Failure>,
    config: String,
    pipewire_error: Option<String>,
    steps: Seq<InstallStep>,
)
    requires
        steps.len() == 7,
        call_ensures(install_managed_mix, (source_name, Ok(path)), steps[0]),
        call_ensures(validate_source_name, (source_name,), Ok(())),
        match found {
            Ok(contents) => contents@ == config@ || contents@ == seen@ && call_ensures(
                has_managed_marker,
                (seen,),
                true,
            ),
            Err(failure) => failure.kind == FailureKind::NotFound,
        },
        call_ensures(render_config, (source_name,), config),
        install_goes_on(steps[0], MixReply::Text(found), steps[1]),
        kept matches Err(failure) ==> failure.kind == FailureKind::NotFound,
        path::parent_components(path::path_bytes(path)) is Some,
        install_goes_on(steps[1], MixReply::Bytes(kept), steps[2]),
        install_goes_on(steps[2], MixReply::Done(Ok(())), steps[3]),
        install_goes_on(steps[3], MixReply::Done(Ok(())), steps[4]),
        install_goes_on(steps[4], MixReply::Done(Ok(())), steps[5]),
        install_goes_on(
            steps[5],
            MixReply::Checked { ready: Ok(true), pipewire_error },
            steps[6],
        ),
    ensures
        forall|i: int| 0 <= i < 6 ==> (#[trigger] steps[i]) is Ask,
        steps[0]->Ask_request is ReadText,
        steps[1]->Ask_request is ReadBytes,
        steps[2]->Ask_request matches MixRequest::CreateDirectory(directory) && Some(
            path::components_in(path::path_bytes(directory)),
        ) == path::parent_components(path::path_bytes(path)),
        steps[3]->Ask_request matches MixRequest::Write(text) && text@ == config@,
        steps[4]->Ask_request is Restart,
        steps[5]->Ask_request == (MixRequest::Check { pause: false }),
        steps[5]->Ask_run.stage == (InstallStage::Wait {
            previous: match kept {
                Ok(bytes) => Some(bytes),
                Err(_) => None,
            },
            attempt: 1,
        }),
        steps[6] == InstallStep::Finished(Ok(())),
{
    audio::rendered_config_is_marked(source_name@);
}

/// Nothing is asked for where the source's name is refused, or the place of the file is not known.
pub proof fn an_installation_is_refused_at_once(
    source_name: &str,
    refused: Failure,
    path: Result<PathBuf, Failure>,
    step: InstallStep,
)
    requires
        call_ensures(install_managed_mix, (source_name, path), step),
        call_ensures(validate_source_name, (source_name,), Err(refused)) || path is Err,
    ensures
        step is Finished && step->Finished_0 is Err,
        path is Err && call_ensures(validate_source_name, (source_name,), Ok(())) ==> step
            == InstallStep::Finished(Err(path->Err_0)),
{
}

/// A file that is there without the marker stays as it is, and one that cannot be read too: the
/// installation ends before anything is written, and says so.
pub proof fn an_installation_spares_other_files(
    run: MixInstall,
    contents: String,
    seen: &str,
    unmarked: InstallStep,
    failure: Failure,
    unreadable: InstallStep,
    unkept: InstallStep,
)
    requires
        run.stage is Protect,
        contents@ == seen@,
        call_ensures(has_managed_marker, (seen,), false),
        call_ensures(MixInstall::advance, (run, MixReply::Text(Ok(contents))), unmarked),
        failure.kind != FailureKind::NotFound,
        call_ensures(MixInstall::advance, (run, MixReply::Text(Err(failure))), unreadable),
        call_ensures(
            MixInstall::advance,
            (MixInstall { stage: InstallStage::Backup, ..run }, MixReply::Bytes(Err(failure))),
            unkept,
        ),
    ensures
        unmarked is Finished && unmarked->Finished_0 is Err,
        unmarked->Finished_0->Err_0.kind == FailureKind::AlreadyExists,
        unmarked->Finished_0->Err_0.message@ == "refusing to overwrite unmanaged PipeWire config: "@
            + path::path_text(run.path),
        unreadable is Finished && unreadable->Finished_0 is Err,
        unreadable->Finished_0->Err_0.kind == failure.kind,
        unreadable->Finished_0->Err_0.message@ == failure.message@,
        unkept is Finished && unkept->Finished_0 is Err,
        unkept->Finished_0->Err_0.kind == failure.kind,
        unkept->Finished_0->Err_0.message@ == failure.message@,
{
}

/// Where the directory or the file cannot be written, the installation ends with that failure:
/// there is nothing to put back.
pub proof fn an_unwritten_installation_just_fails(
    run: MixInstall,
    failure: Failure,
    step: InstallStep,
)
    requires
        run.stage is Prepare || run.stage is Write,
        call_ensures(MixInstall::advance, (run, MixReply::Done(Err(failure))), step),
    ensures
        step is Finished && step->Finished_0 is Err,
        step->Finished_0->Err_0.kind == failure.kind,
        step->Finished_0->Err_0.message@ == failure.message@,
{
}

/// A mix that is not ready is looked at ten times, with a pause before each look but the first; it
/// is ready as soon as one look shows it, and given up after the last.
pub proof fn a_mix_is_waited_for(
    run: MixInstall,
    previous: Option<Vec<u8>>,
    attempt: u32,
    ready: Result<bool, Failure>,
    pipewire_error: Option<String>,
    step: InstallStep,
)
    requires
        run.stage == (InstallStage::Wait { previous, attempt }),
        call_ensures(
            MixInstall::advance,
            (run, MixReply::Checked { ready, pipewire_error }),
            step,
        ),
    ensures
        ready is Ok && ready->Ok_0 ==> step == InstallStep::Finished(Ok(())),
        (ready is Err || !ready->Ok_0) && attempt < 10 ==> step == (InstallStep::Ask {
            run: MixInstall {
                stage: InstallStage::Wait { previous, attempt: (attempt + 1) as u32 },
                ..run
            },
            request: MixRequest::Check { pause: true },
        }),
        (ready is Err || !ready->Ok_0) && attempt >= 10 ==> {
            let start = "PipeWire restarted, but the managed mix was incomplete"@;
            &&& step is Ask && step->Ask_request == MixRequest::Restore(previous)
            &&& step->Ask_run.stage is Restore
            &&& step->Ask_run.stage->Restore_failure.kind == FailureKind::TimedOut
            &&& step->Ask_run.stage->Restore_failure.message@ == match (ready, pipewire_error) {
                (Err(failure), _) => start + ": "@ + failure.message@,
                (Ok(_), Some(message)) => start + ": "@ + message@,
                (Ok(_), None) => start,
            }
        },
{
    if (ready is Err || !ready->Ok_0) && attempt >= 10 {
        let start = "PipeWire restarted, but the managed mix was incomplete"@;
        let text = step->Ask_run.stage->Restore_failure.message@;
        match (ready, pipewire_error) {
            (Err(failure), _) => {
                assert(text =~= start + ": "@ + failure.message@);
            },
            (Ok(_), Some(message)) => {
                assert(text =~= start + ": "@ + message@);
            },
            (Ok(_), None) => {
                assert(text =~= start);
            },
        }
    }
}

/// After a restart that failed, the file that was there is put back and the server is restarted
/// again; the failure then says whether that worked.
pub proof fn a_failed_restart_is_rolled_back(
    run: MixInstall,
    previous: Option<Vec<u8>>,
    failure: Failure,
    second: Failure,
    steps: (InstallStep, InstallStep, InstallStep),
    unrestored: InstallStep,
    unrestarted: InstallStep,
)
    requires
        run.stage == (InstallStage::Restart { previous }),
        call_ensures(MixInstall::advance, (run, MixReply::Done(Err(failure))), steps.0),
        install_goes_on(steps.0, MixReply::Done(Ok(())), steps.1),
        install_goes_on(steps.1, MixReply::Done(Ok(())), steps.2),
        install_goes_on(steps.0, MixReply::Done(Err(second)), unrestored),
        install_goes_on(steps.1, MixReply::Done(Err(second)), unrestarted),
    ensures
        steps.0 is Ask && steps.0->Ask_request == MixRequest::Restore(previous),
        steps.1 is Ask && steps.1->Ask_request is Restart,
        steps.2 is Finished && steps.2->Finished_0 is Err,
        steps.2->Finished_0->Err_0.kind == failure.kind,
        steps.2->Finished_0->Err_0.message@ == failure.message@ + "; previous setup restored"@,
        unrestored is Finished && unrestored->Finished_0 is Err,
        unrestored->Finished_0->Err_0.kind == failure.kind,
        unrestored->Finished_0->Err_0.message@ == failure.message@ + "; rollback also failed: "@
            + second.message@,
        unrestarted is Finished && unrestarted->Finished_0 is Err,
        unrestarted->Finished_0->Err_0.kind == failure.kind,
        unrestarted->Finished_0->Err_0.message@ == failure.message@ + "; rollback also failed: "@
            + second.message@,
{
}

/// The removal of the step, if it is not over, is handed this reply, and the next step is what it
/// does.
pub open spec fn removal_goes_on(step: RemoveStep, reply: MixReply, next: RemoveStep) -> bool {
    step is Ask ==> call_ensures(MixRemoval::advance, (step->Ask_run, reply), next)
}

/// What an installation wrote is removed: a removal that reads a configuration of ours, deletes it
/// and restarts the server without a failure succeeds.
pub proof fn a_removal_succeeds(
    path: PathBuf,
    contents: String,
    seen: &str,
    source_name: &str,
    config: String,
    steps: (RemoveStep, RemoveStep, RemoveStep, RemoveStep),
)
    requires
        call_ensures(remove_managed_mix, (Ok(path),), steps.0),
        call_ensures(render_config, (source_name,), config),
        contents@ == config@ || contents@ == seen@ && call_ensures(
            has_managed_marker,
            (seen,),
            true,
        ),
        removal_goes_on(steps.0, MixReply::Text(Ok(contents)), steps.1),
        removal_goes_on(steps.1, MixReply::Done(Ok(())), steps.2),
        removal_goes_on(steps.2, MixReply::Done(Ok(())), steps.3),
    ensures
        steps.0 is Ask && steps.0->Ask_request is ReadText,
        steps.1 is Ask && steps.1->Ask_request is Delete,
        steps.2 is Ask && steps.2->Ask_request is Restart,
        steps.3 == RemoveStep::Finished(Ok(())),
{
    audio::rendered_config_is_marked(source_name@);
}

/// Where there is no file, there is nothing to remove, which is a success; a file that is not ours
/// or cannot be read stays, which is a failure.
pub proof fn a_removal_spares_other_files(
    path: PathBuf,
    unknown: Failure,
    absent: Failure,
    failure: Failure,
    contents: String,
    seen: &str,
    started: RemoveStep,
    pathless: RemoveStep,
    nothing: RemoveStep,
    unreadable: RemoveStep,
    unmarked: RemoveStep,
)
    requires
        call_ensures(remove_managed_mix, (Ok(path),), started),
        call_ensures(remove_managed_mix, (Err(unknown),), pathless),
        absent.kind == FailureKind::NotFound,
        removal_goes_on(started, MixReply::Text(Err(absent)), nothing),
        failure.kind != FailureKind::NotFound,
        removal_goes_on(started, MixReply::Text(Err(failure)), unreadable),
        contents@ == seen@,
        call_ensures(has_managed_marker, (seen,), false),
        removal_goes_on(started, MixReply::Text(Ok(contents)), unmarked),
    ensures
        started is Ask && started->Ask_request is ReadText,
        pathless == RemoveStep::Finished(Err(unknown)),
        nothing == RemoveStep::Finished(Ok(())),
        unreadable == RemoveStep::Finished(Err(failure)),
        unmarked is Finished && unmarked->Finished_0 is Err,
        unmarked->Finished_0->Err_0.kind == FailureKind::PermissionDenied,
        unmarked->Finished_0->Err_0.message@ == "refusing to remove unmanaged PipeWire config: "@
            + path::path_text(path),
{
}

/// A removal whose restart fails is undone: what was read is written back and the server restarted;
/// the failure then says whether that worked. A file that cannot be deleted is left, which is the
/// failure.
pub proof fn a_failed_removal_is_rolled_back(
    path: PathBuf,
    contents: String,
    seen: &str,
    failure: Failure,
    second: Failure,
    steps: Seq<RemoveStep>,
    undeleted: RemoveStep,
    unwritten: RemoveStep,
    unrestarted: RemoveStep,
)
    requires
        steps.len() == 6,
        call_ensures(remove_managed_mix, (Ok(path),), steps[0]),
        contents@ == seen@,
        call_ensures(has_managed_marker, (seen,), true),
        removal_goes_on(steps[0], MixReply::Text(Ok(contents)), steps[1]),
        removal_goes_on(steps[1], MixReply::Done(Ok(())), steps[2]),
        removal_goes_on(steps[2], MixReply::Done(Err(failure)), steps[3]),
        removal_goes_on(steps[3], MixReply::Done(Ok(())), steps[4]),
        removal_goes_on(steps[4], MixReply::Done(Ok(())), steps[5]),
        removal_goes_on(steps[1], MixReply::Done(Err(second)), undeleted),
        removal_goes_on(steps[3], MixReply::Done(Err(second)), unwritten),
        removal_goes_on(steps[4], MixReply::Done(Err(second)), unrestarted),
    ensures
        forall|i: int| 0 <= i < 5 ==> (#[trigger] steps[i]) is Ask,
        steps[3]->Ask_request == MixRequest::Write(contents),
        steps[4]->Ask_request is Restart,
        steps[5] is Finished && steps[5]->Finished_0 is Err,
        steps[5]->Finished_0->Err_0.kind == failure.kind,
        steps[5]->Finished_0->Err_0.message@ == failure.message@ + "; removal rolled back"@,
        undeleted == RemoveStep::Finished(Err(second)),
        unwritten is Finished && unwritten->Finished_0 is Err,
        unwritten->Finished_0->Err_0.kind == failure.kind,
        unwritten->Finished_0->Err_0.message@ == failure.message@
            + "; removal rollback also failed: "@ + second.message@,
        unrestarted is Finished && unrestarted->Finished_0 is Err,
        unrestarted->Finished_0->Err_0.kind == failure.kind,
        unrestarted->Finished_0->Err_0.message@ == failure.message@
            + "; removal rollback also failed: "@ + second.message@,
{
}

/// A configuration file without a directory cannot be written: the installation says so.
pub proof fn a_file_needs_a_directory(
    run: MixInstall,
    bytes: Vec<u8>,
    step: InstallStep,
)
    requires
        run.stage is Backup,
        path::parent_components(path::path_bytes(run.path)) is None,
        call_ensures(MixInstall::advance, (run, MixReply::Bytes(Ok(bytes))), step),
    ensures
        step is Finished && step->Finished_0 is Err,
        step->Finished_0->Err_0.message@ == "managed PipeWire config path has no parent"@,
{
}

/// Success is earned: an installation succeeds only where the mix was found ready, and a removal
/// only where there was nothing to remove or the server was restarted after it.
pub proof fn success_is_earned(
    install: MixInstall,
    removal: MixRemoval,
    reply: MixReply,
    installed: InstallStep,
    removed: RemoveStep,
)
    requires
        call_ensures(MixInstall::advance, (install, reply), installed),
        call_ensures(MixRemoval::advance, (removal, reply), removed),
    ensures
        installed == InstallStep::Finished(Ok(())) ==> install.stage is Wait && (
        reply matches MixReply::Checked { ready: Ok(ready), .. } && ready),
        removed == RemoveStep::Finished(Ok(())) ==> (removal.stage is Read && (
        reply matches MixReply::Text(Err(failure)) && failure.kind == FailureKind::NotFound)) || (
        removal.stage is Restart && reply is Done && reply->Done_0 is Ok),
{
}

} // verus!
