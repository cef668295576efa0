//! Failures of outside work, by the kinds that decisions rest on.

use vstd::prelude::*;

verus! {

/// What kind of failure it is.
#[derive(Clone, Copy, Debug, PartialEq, Eq, Structural)]
pub enum FailureKind {
    NotFound,
    PermissionDenied,
    ConnectionRefused,
    AlreadyExists,
    WouldBlock,
    InvalidInput,
    InvalidData,
    TimedOut,
    UnexpectedEof,
    /// Any other kind.
    Other,
}

/// A failure: its kind and the message for the user.
#[derive(Debug)]
pub struct Failure {
    pub kind: FailureKind,
    pub message: String,
}

impl Failure {
    /// A failure with this kind and message.
    pub fn new(kind: FailureKind, message: &str) -> (failure: Failure)
        ensures
            failure.kind == kind,
            failure.message@ == message@,
    {
        Failure { kind, message: message.to_owned() }
    }

    /// A failure of no particular kind.
    pub fn other(message: &str) -> (failure: Failure)
        ensures
            failure.kind == FailureKind::Other,
            failure.message@ == message@,
    {
        Failure::new(FailureKind::Other, message)
    }

    /// The failure of a run that is handed a reply to something it did not ask for.
    pub fn out_of_turn() -> (failure: Failure)
        ensures
            is_out_of_turn(failure),
    {
        Failure::other("the reply does not answer the request")
    }
}

/// The failure has this kind and this message.
pub open spec fn failure_is(failure: Failure, kind: FailureKind, message: Seq<char>) -> bool {
    failure.kind == kind && failure.message@ == message
}

/// The failure is that of a run that is handed a reply to something it did not ask for.
pub open spec fn is_out_of_turn(failure: Failure) -> bool {
    failure_is(failure, FailureKind::Other, "the reply does not answer the request"@)
}

} // verus!
