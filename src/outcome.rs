//! What the guardian answered, and what the operator is told.

use vstd::prelude::*;
use vstd::string::*;
use crate::error::{ErrorKind, SetupError};
use crate::operation::Operation;

verus! {

/// Where a guardian stands in its setup, as the guardian reports it.
#[derive(PartialEq, Eq, Structural, Clone, Copy, Debug)]
pub enum SetupPhase {
    AwaitingLocalParams,
    AwaitingPeerCodes,
    ReadyForDkg,
    DkgRunning,
    DkgComplete,
    Failed,
}

/// A reported phase, with the guardian's error message where it gave one.
#[derive(PartialEq, Eq, Clone, Debug)]
pub struct SetupStatus {
    pub phase: SetupPhase,
    pub error: Option<String>,
}

/// How the remote call failed once a session was established.
#[derive(PartialEq, Eq, Clone, Debug)]
pub enum RemoteFailure {
    /// The guardian rejected the password.
    Unauthorized(String),
    /// The guardian refused the request (a phase it is not in, a malformed code).
    Rejected(String),
    /// The transport failed or timed out.
    Transport(String),
}

/// What came back from an attempt to perform a prepared call.
#[derive(PartialEq, Eq, Clone, Debug)]
pub enum CallEvent {
    /// No session with the endpoint could be established.
    SessionFailed(String),
    /// The call was made and failed.
    Failed(RemoteFailure),
    /// The guardian reported its status.
    StatusReported(SetupStatus),
    /// The guardian confirmed with a text.
    Confirmed(String),
    /// The guardian accepted a call that returns nothing.
    Completed,
}

/// What a successful operation hands the operator.
#[derive(PartialEq, Eq, Clone, Debug)]
pub enum Outcome {
    Status(SetupStatus),
    Confirmation(String),
    Completed,
}

/// The step named in an error of `op`'s remote call.
pub open spec fn context_of(op: Operation) -> Seq<char> {
    match op {
        Operation::QueryStatus => "Failed to get setup status"@,
        Operation::SetLocalParams { .. } => "Failed to set local parameters"@,
        Operation::AddPeer { .. } => "Failed to add peer connection info"@,
        Operation::StartDkg => "Failed to start DKG"@,
        Operation::ResetPeerSetupCodes => "Failed to reset peer setup codes"@,
    }
}

/// The step named when no session could be established.
pub open spec fn session_context() -> Seq<char> {
    "Failed to create API client"@
}

/// The cause named when a reply does not fit the operation.
pub open spec fn unexpected_reply() -> Seq<char> {
    "unexpected reply"@
}

/// The kind of error that a remote failure is.
pub open spec fn failure_kind(f: RemoteFailure) -> ErrorKind {
    match f {
        RemoteFailure::Unauthorized(_) => ErrorKind::AuthenticationFailure,
        RemoteFailure::Rejected(_) => ErrorKind::RemoteProtocolError,
        RemoteFailure::Transport(_) => ErrorKind::ConnectionError,
    }
}

/// The cause that a remote failure gives.
pub open spec fn failure_detail(f: RemoteFailure) -> Seq<char> {
    match f {
        RemoteFailure::Unauthorized(d) => d@,
        RemoteFailure::Rejected(d) => d@,
        RemoteFailure::Transport(d) => d@,
    }
}

/// The outcome that a fitting reply stands for, if `event` is one that fits `op`.
pub open spec fn fitting_outcome(op: Operation, event: CallEvent) -> Option<Outcome> {
    match (op, event) {
        (Operation::QueryStatus, CallEvent::StatusReported(s)) => Some(Outcome::Status(s)),
        (Operation::SetLocalParams { .. }, CallEvent::Confirmed(c)) => Some(
            Outcome::Confirmation(c),
        ),
        (Operation::AddPeer { .. }, CallEvent::Confirmed(c)) => Some(Outcome::Confirmation(c)),
        (Operation::StartDkg, CallEvent::Completed) => Some(Outcome::Completed),
        (Operation::ResetPeerSetupCodes, CallEvent::Completed) => Some(Outcome::Completed),
        _ => None,
    }
}

/// What `conclude(op, event)` returns.
pub open spec fn concluded(op: Operation, event: CallEvent, r: Result<Outcome, SetupError>) -> bool {
    match event {
        CallEvent::SessionFailed(d) => r matches Err(e) && e.is(
            ErrorKind::ConnectionError,
            session_context(),
            d@,
        ),
        CallEvent::Failed(f) => r matches Err(e) && e.is(
            failure_kind(f),
            context_of(op),
            failure_detail(f),
        ),
        _ => match fitting_outcome(op, event) {
            Some(o) => r == Ok::<Outcome, SetupError>(o),
            None => r matches Err(e) && e.is(
                ErrorKind::RemoteProtocolError,
                context_of(op),
                unexpected_reply(),
            ),
        },
    }
}

fn operation_context(op: &Operation) -> (r: String)
    ensures
        r@ == context_of(*op),
{
    match op {
        Operation::QueryStatus => String::from_str("Failed to get setup status"),
        Operation::SetLocalParams { .. } => String::from_str("Failed to set local parameters"),
        Operation::AddPeer { .. } => String::from_str("Failed to add peer connection info"),
        Operation::StartDkg => String::from_str("Failed to start DKG"),
        Operation::ResetPeerSetupCodes => String::from_str("Failed to reset peer setup codes"),
    }
}

/// Turns what came back from a prepared call of `op` into the operator's
/// result: the reply where it fits the operation, else an error that names
/// the failed step and its cause.
pub fn conclude(op: &Operation, event: CallEvent) -> (r: Result<Outcome, SetupError>)
    ensures
        concluded(*op, event, r),
{
    match event {
        CallEvent::SessionFailed(d) => Err(
            SetupError {
                kind: ErrorKind::ConnectionError,
                context: String::from_str("Failed to create API client"),
                detail: d,
            },
        ),
        CallEvent::Failed(f) => {
            let context = operation_context(op);
            match f {
                RemoteFailure::Unauthorized(d) => Err(
                    SetupError { kind: ErrorKind::AuthenticationFailure, context, detail: d },
                ),
                RemoteFailure::Rejected(d) => Err(
                    SetupError { kind: ErrorKind::RemoteProtocolError, context, detail: d },
                ),
                RemoteFailure::Transport(d) => Err(
                    SetupError { kind: ErrorKind::ConnectionError, context, detail: d },
                ),
            }
        },
        CallEvent::StatusReported(s) => match op {
            Operation::QueryStatus => Ok(Outcome::Status(s)),
            _ => Err(unexpected(op)),
        },
        CallEvent::Confirmed(c) => match op {
            Operation::SetLocalParams { .. } => Ok(Outcome::Confirmation(c)),
            Operation::AddPeer { .. } => Ok(Outcome::Confirmation(c)),
            _ => Err(unexpected(op)),
        },
        CallEvent::Completed => match op {
            Operation::StartDkg => Ok(Outcome::Completed),
            Operation::ResetPeerSetupCodes => Ok(Outcome::Completed),
            _ => Err(unexpected(op)),
        },
    }
}

fn unexpected(op: &Operation) -> (r: SetupError)
    ensures
        r.is(ErrorKind::RemoteProtocolError, context_of(*op), unexpected_reply()),
{
    SetupError {
        kind: ErrorKind::RemoteProtocolError,
        context: operation_context(op),
        detail: String::from_str("unexpected reply"),
    }
}

} // verus!
