//! Decisions around the commands that the program runs and the files that it replaces.

use vstd::prelude::*;

use crate::audio::{CommandOutput, CommandResult};
use crate::failure;
use crate::failure::{Failure, FailureKind};
use crate::text;
use crate::text::{decode_lossy, join2, join3, join4, number, trim};

verus! {

/// How long a command may run, in milliseconds.
pub const COMMAND_TIMEOUT_MILLIS: u64 = 5000;

/// How often a temporary file is asked for before the program gives up.
pub const TEMPORARY_ATTEMPTS: u32 = 100;

/// What kept a command from being run or from being read.
pub enum CommandFault {
    /// It could not be started, for this reason.
    NotStarted(String),
    /// The reader of its standard output or, where `errors` says so, of its error output was lost.
    ReaderLost { errors: bool },
    /// That output could not be read, for this reason.
    Unreadable { errors: bool, reason: String },
}

/// The name of an output of a command.
pub open spec fn stream_name(errors: bool) -> Seq<char> {
    if errors {
        "stderr"@
    } else {
        "stdout"@
    }
}

/// The message for a command that could not be run or read.
pub fn fault_message(display: &str, fault: CommandFault) -> (message: String)
    ensures
        message@ == match fault {
            CommandFault::NotStarted(reason) => "could not run "@ + display@ + ": "@ + reason@,
            CommandFault::ReaderLost { errors } => stream_name(errors) + " reader for "@ + display@
                + " panicked"@,
            CommandFault::Unreadable { errors, reason } => "could not read "@ + stream_name(errors)
                + " from "@ + (display@ + ": "@ + reason@),
        },
{
    match fault {
        CommandFault::NotStarted(reason) => join4("could not run ", display, ": ", &reason),
        CommandFault::ReaderLost { errors } => join4(
            if errors {
                "stderr"
            } else {
                "stdout"
            },
            " reader for ",
            display,
            " panicked",
        ),
        CommandFault::Unreadable { errors, reason } => join4(
            "could not read ",
            if errors {
                "stderr"
            } else {
                "stdout"
            },
            " from ",
            &join3(display, ": ", &reason),
        ),
    }
}

/// What a look at a running command showed.
pub enum ChildPoll {
    /// It has ended.
    Exited,
    /// It runs, since this many milliseconds.
    Running { elapsed_millis: u64 },
    /// Its state could not be read.
    Unknown(String),
}

/// What is to be done with a command.
pub enum CommandStep {
    /// Read what it printed.
    Collect,
    /// Wait a moment and look again.
    Pause,
    /// Kill it and report this message.
    Kill(String),
    /// Leave it and report this message.
    GiveUp(String),
}

/// Decides what to do with a command that was started: wait for it while its time is not up.
pub fn watch_command(display: &str, poll: ChildPoll) -> (step: CommandStep)
    ensures
        match poll {
            ChildPoll::Exited => step is Collect,
            ChildPoll::Running { elapsed_millis } => if elapsed_millis < COMMAND_TIMEOUT_MILLIS {
                step is Pause
            } else {
                step is Kill && step->Kill_0@ == display@ + " timed out after 5 seconds"@
            },
            ChildPoll::Unknown(message) => step is GiveUp && step->GiveUp_0@
                == "could not wait for "@ + display@ + ": "@ + message@,
        },
{
    match poll {
        ChildPoll::Exited => CommandStep::Collect,
        ChildPoll::Running { elapsed_millis } => if elapsed_millis < COMMAND_TIMEOUT_MILLIS {
            CommandStep::Pause
        } else {
            CommandStep::Kill(join2(display, " timed out after 5 seconds"))
        },
        ChildPoll::Unknown(message) => CommandStep::GiveUp(
            join4("could not wait for ", display, ": ", &message),
        ),
    }
}

/// Why a command failed: what it printed to its error output, else its exit status.
pub open spec fn failure_detail(status: Seq<char>, printed: Seq<char>) -> Seq<char> {
    if text::trimmed(printed).len() == 0 {
        "exit status "@ + status
    } else {
        text::trimmed(printed)
    }
}

/// The message for a command that failed: with what it printed, else with its exit status.
pub fn failure_message(display: &str, status: &str, printed: &str) -> (message: String)
    ensures
        message@ == display@ + " failed: "@ + failure_detail(status@, printed@),
{
    let printed = trim(printed);
    let detail = if printed.as_str().is_empty() {
        join2("exit status ", status)
    } else {
        printed
    };
    join3(display, " failed: ", &detail)
}

/// The result of a command that ended: its output, or why it failed.
pub fn command_result(
    display: &str,
    success: bool,
    status: &str,
    output: CommandOutput,
) -> (result: CommandResult)
    ensures
        success ==> result == Ok::<CommandOutput, String>(output),
        !success ==> result is Err && result->Err_0@ == display@ + " failed: "@ + failure_detail(
            status@,
            text::lossy_text(output.stderr@),
        ),
{
    if success {
        Ok(output)
    } else {
        Err(failure_message(display, status, &decode_lossy(output.stderr.as_slice())))
    }
}

/// What follows the attempt to restart the Pulse server through the service manager.
pub enum RestartStep {
    /// It worked.
    Restarted,
    /// It failed with this message; ask the server itself to restart.
    Fallback(String),
}

/// Decides what follows the attempt to restart the Pulse server through the service manager.
pub fn restart_step(service_manager: CommandResult) -> (step: RestartStep)
    ensures
        match service_manager {
            Ok(_) => step is Restarted,
            Err(message) => step == RestartStep::Fallback(message),
        },
{
    match service_manager {
        Ok(_) => RestartStep::Restarted,
        Err(message) => RestartStep::Fallback(message),
    }
}

/// The result of the restart once the service manager has failed and the server was asked itself.
pub fn restart_result(manager_error: &str, fallback: CommandResult) -> (result: Result<(), Failure>)
    ensures
        match fallback {
            Ok(_) => result is Ok,
            Err(message) => result is Err && failure::failure_is(
                result->Err_0,
                FailureKind::Other,
                "could not restart PipeWire Pulse: "@ + manager_error@ + "; fallback failed: "@
                    + message@,
            ),
        },
{
    match fallback {
        Ok(_) => Ok(()),
        Err(message) => Err(
            Failure::other(
                &join4(
                    "could not restart PipeWire Pulse: ",
                    manager_error,
                    "; fallback failed: ",
                    &message,
                ),
            ),
        ),
    }
}

/// The name of the temporary file for an attempt to replace `file_name`.
pub fn temporary_name(file_name: &str, process: u32, nonce: u128, attempt: u32) -> (name: String)
    requires
        nonce + attempt <= u128::MAX,
    ensures
        name@ == "."@ + file_name@ + "."@ + text::decimal(process as nat) + "."@ + text::decimal(
            (nonce + attempt) as nat,
        ) + ".tmp"@,
{
    let start = join4(".", file_name, ".", &number(process as u128));
    join4(&start, ".", &number(nonce + attempt as u128), ".tmp")
}

/// What follows the attempt to create a temporary file.
pub enum TemporaryStep {
    /// Write to it.
    Write,
    /// Try the next name.
    Retry(u32),
    /// Report the failure.
    GiveUp(Failure),
}

/// Decides what follows the attempt to create a temporary file: a name that is taken is passed
/// over, until the attempts run out.
pub fn temporary_step(attempt: u32, created: Result<(), Failure>) -> (step: TemporaryStep)
    ensures
        match created {
            Ok(()) => step is Write,
            Err(failure) => if failure.kind != FailureKind::AlreadyExists {
                step == TemporaryStep::GiveUp(failure)
            } else if attempt < TEMPORARY_ATTEMPTS - 1 {
                step == TemporaryStep::Retry((attempt + 1) as u32)
            } else {
                step is GiveUp && failure::failure_is(
                    step->GiveUp_0,
                    FailureKind::AlreadyExists,
                    "could not allocate a temporary config file"@,
                )
            },
        },
{
    match created {
        Ok(()) => TemporaryStep::Write,
        Err(failure) => if failure.kind != FailureKind::AlreadyExists {
            TemporaryStep::GiveUp(failure)
        } else if attempt < TEMPORARY_ATTEMPTS - 1 {
            TemporaryStep::Retry(attempt + 1)
        } else {
            TemporaryStep::GiveUp(
                Failure::new(
                    FailureKind::AlreadyExists,
                    "could not allocate a temporary config file",
                ),
            )
        },
    }
}

/// The result of removing a file that need not be there.
pub fn removed(result: Result<(), Failure>) -> (outcome: Result<(), Failure>)
    ensures
        match result {
            Ok(()) => outcome is Ok,
            Err(failure) => if failure.kind == FailureKind::NotFound {
                outcome is Ok
            } else {
                outcome == result
            },
        },
{
    match result {
        Ok(()) => Ok(()),
        Err(failure) => if failure.kind == FailureKind::NotFound {
            Ok(())
        } else {
            Err(failure)
        },
    }
}

/// A command is read once it has ended, waited for while its five seconds are not up, and killed
/// then; one whose state is not known is left.
pub proof fn a_command_has_five_seconds(
    display: &str,
    elapsed: u64,
    reason: String,
    ended: CommandStep,
    running: CommandStep,
    unknown: CommandStep,
)
    requires
        call_ensures(watch_command, (display, ChildPoll::Exited), ended),
        call_ensures(
            watch_command,
            (display, ChildPoll::Running { elapsed_millis: elapsed }),
            running,
        ),
        call_ensures(watch_command, (display, ChildPoll::Unknown(reason)), unknown),
    ensures
        ended is Collect,
        elapsed < 5000 ==> running is Pause,
        elapsed >= 5000 ==> running is Kill && running->Kill_0@ == display@
            + " timed out after 5 seconds"@,
        unknown matches CommandStep::GiveUp(message) && message@ == "could not wait for "@
            + display@ + ": "@ + reason@,
{
}

/// A command that succeeded gives what it printed, and one that failed an error that names it and
/// tells what it printed to its error output, or its exit status where it printed nothing there.
pub proof fn a_failed_command_tells_why(
    display: &str,
    status: &str,
    output: CommandOutput,
    printed: &str,
    inner: String,
    succeeded: CommandResult,
    failed: CommandResult,
)
    requires
        call_ensures(command_result, (display, true, status, output), succeeded),
        call_ensures(command_result, (display, false, status, output), failed),
        printed@ == text::lossy_text(output.stderr@),
        call_ensures(trim, (printed,), inner),
    ensures
        succeeded == Ok::<CommandOutput, String>(output),
        failed is Err,
        inner@.len() > 0 ==> failed->Err_0@ == display@ + " failed: "@ + inner@,
        inner@.len() == 0 ==> failed->Err_0@ == display@ + " failed: "@ + ("exit status "@
            + status@),
{
}

/// A command that cannot be started or read is named, with the reason and with the output that is
/// lost.
pub proof fn a_fault_is_named(
    display: &str,
    reason: String,
    messages: (String, String, String, String, String),
)
    requires
        call_ensures(fault_message, (display, CommandFault::NotStarted(reason)), messages.0),
        call_ensures(
            fault_message,
            (display, CommandFault::ReaderLost { errors: true }),
            messages.1,
        ),
        call_ensures(
            fault_message,
            (display, CommandFault::ReaderLost { errors: false }),
            messages.2,
        ),
        call_ensures(
            fault_message,
            (display, CommandFault::Unreadable { errors: true, reason }),
            messages.3,
        ),
        call_ensures(
            fault_message,
            (display, CommandFault::Unreadable { errors: false, reason }),
            messages.4,
        ),
    ensures
        messages.0@ == "could not run "@ + display@ + ": "@ + reason@,
        messages.1@ == "stderr"@ + " reader for "@ + display@ + " panicked"@,
        messages.2@ == "stdout"@ + " reader for "@ + display@ + " panicked"@,
        messages.3@ == "could not read "@ + "stderr"@ + " from "@ + display@ + ": "@ + reason@,
        messages.4@ == "could not read "@ + "stdout"@ + " from "@ + display@ + ": "@ + reason@,
{
    assert(messages.3@ =~= "could not read "@ + "stderr"@ + " from "@ + display@ + ": "@
        + reason@);
    assert(messages.4@ =~= "could not read "@ + "stdout"@ + " from "@ + display@ + ": "@
        + reason@);
}

/// The server is asked itself only after the service manager has failed, and the restart fails only
/// where both did, with both messages.
pub proof fn a_restart_has_two_ways(
    output: CommandOutput,
    message: String,
    managed: RestartStep,
    unmanaged: RestartStep,
    manager_error: &str,
    asked: Result<(), Failure>,
    refused: Result<(), Failure>,
)
    requires
        call_ensures(restart_step, (Ok(output),), managed),
        call_ensures(restart_step, (Err(message),), unmanaged),
        call_ensures(restart_result, (manager_error, Ok(output)), asked),
        call_ensures(restart_result, (manager_error, Err(message)), refused),
    ensures
        managed is Restarted,
        unmanaged == RestartStep::Fallback(message),
        asked is Ok,
        refused is Err,
        refused->Err_0.message@ == "could not restart PipeWire Pulse: "@ + manager_error@
            + "; fallback failed: "@ + message@,
{
}

/// A temporary file is hidden beside the file that it is for, under another name for each attempt.
pub proof fn attempts_have_different_names(
    file_name: &str,
    process: u32,
    nonce: u128,
    attempts: (u32, u32),
    names: (String, String),
)
    requires
        nonce + attempts.0 <= u128::MAX,
        nonce + attempts.1 <= u128::MAX,
        call_ensures(temporary_name, (file_name, process, nonce, attempts.0), names.0),
        call_ensures(temporary_name, (file_name, process, nonce, attempts.1), names.1),
    ensures
        attempts.0 != attempts.1 ==> names.0@ != names.1@,
        ("."@ + file_name@ + "."@).is_prefix_of(names.0@),
        ".tmp"@.is_suffix_of(names.0@),
{
    let lead = "."@ + file_name@ + "."@ + text::decimal(process as nat) + "."@;
    let first = text::decimal((nonce + attempts.0) as nat);
    let second = text::decimal((nonce + attempts.1) as nat);
    let tail = ".tmp"@;
    assert(names.0@ =~= lead + first + tail);
    assert(names.1@ =~= lead + second + tail);
    assert(names.0@.subrange(0, ("."@ + file_name@ + "."@).len() as int) =~= "."@ + file_name@
        + "."@);
    assert(names.0@.subrange(names.0@.len() - tail.len(), names.0@.len() as int) =~= tail);
    if names.0@ == names.1@ {
        let from = lead.len() as int;
        let n = first.len() as int;
        assert(first.len() == second.len());
        assert(names.0@.subrange(from, from + n) =~= first);
        assert(names.1@.subrange(from, from + n) =~= second);
        text::lemma_decimal_value((nonce + attempts.0) as nat);
        text::lemma_decimal_value((nonce + attempts.1) as nat);
    }
}

/// A name that is taken leads to the next one, a hundred times in all; a file that was created is
/// written to, and any other failure is reported at once.
pub proof fn a_taken_name_leads_to_the_next(
    attempt: u32,
    failure: Failure,
    created: TemporaryStep,
    failed: TemporaryStep,
)
    requires
        call_ensures(temporary_step, (attempt, Ok(())), created),
        call_ensures(temporary_step, (attempt, Err(failure)), failed),
    ensures
        created is Write,
        failure.kind != FailureKind::AlreadyExists ==> failed == TemporaryStep::GiveUp(failure),
        failure.kind == FailureKind::AlreadyExists && attempt < 99 ==> failed
            == TemporaryStep::Retry((attempt + 1) as u32),
        failure.kind == FailureKind::AlreadyExists && attempt >= 99 ==> failed is GiveUp
            && failed->GiveUp_0.kind == FailureKind::AlreadyExists,
{
}

/// What is to be removed may be gone already; any other failure stays one.
pub proof fn what_is_gone_is_removed(failure: Failure, done: Result<(), Failure>, failed: Result<
    (),
    Failure,
>)
    requires
        call_ensures(removed, (Ok(()),), done),
        call_ensures(removed, (Err(failure),), failed),
    ensures
        done is Ok,
        failure.kind == FailureKind::NotFound ==> failed is Ok,
        failure.kind != FailureKind::NotFound ==> failed == Err::<(), Failure>(failure),
{
}

} // verus!
