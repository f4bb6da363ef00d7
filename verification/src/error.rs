//! The error taxonomy: every failure this core can signal is one of these
//! typed, recoverable values; nothing here panics or retries.

use vstd::prelude::*;
use crate::types::IdentityError;
use crate::types::TaskResponse;

verus! {

/// Names the wire call during whose decoding an identity failed validation,
/// so the failure carries context identifying the caller.
#[derive(Clone, Copy, Debug, PartialEq, Eq, Structural)]
pub enum WireCall {
    CloseIO,
    Delete,
    Exec,
    Kill,
    Wait,
    Start,
    State,
    ResizePty,
    Pause,
    Resume,
    Stats,
    Connect,
}

/// The wire response type an encoding call was asked to produce.
#[derive(Clone, Copy, Debug, PartialEq, Eq, Structural)]
pub enum ResponseKind {
    CreateTask,
    Delete,
    Wait,
    Start,
    State,
    Stats,
    Pids,
    Connect,
    Empty,
}

impl ResponseKind {
    /// The name of the wire response type, for diagnostics.
    pub open spec fn spec_name(self) -> Seq<char> {
        match self {
            ResponseKind::CreateTask => "CreateTaskResponse"@,
            ResponseKind::Delete => "DeleteResponse"@,
            ResponseKind::Wait => "WaitResponse"@,
            ResponseKind::Start => "StartResponse"@,
            ResponseKind::State => "StateResponse"@,
            ResponseKind::Stats => "StatsResponse"@,
            ResponseKind::Pids => "PidsResponse"@,
            ResponseKind::Connect => "ConnectResponse"@,
            ResponseKind::Empty => "Empty"@,
        }
    }

    /// The name of the wire response type, for diagnostics.
    pub fn name(&self) -> (r: String)
        ensures
            r@ == self.spec_name(),
    {
        match self {
            ResponseKind::CreateTask => String::from_str("CreateTaskResponse"),
            ResponseKind::Delete => String::from_str("DeleteResponse"),
            ResponseKind::Wait => String::from_str("WaitResponse"),
            ResponseKind::Start => String::from_str("StartResponse"),
            ResponseKind::State => String::from_str("StateResponse"),
            ResponseKind::Stats => String::from_str("StatsResponse"),
            ResponseKind::Pids => String::from_str("PidsResponse"),
            ResponseKind::Connect => String::from_str("ConnectResponse"),
            ResponseKind::Empty => String::from_str("Empty"),
        }
    }
}

/// Every failure this core signals.
///
/// A creation payload that does not parse as the declared pod-sandbox config
/// is a protocol mismatch of its own kind, `MalformedConfig`, distinct from
/// the `ProtocolMismatch` raised for an unsupported type-url.
#[derive(Clone, Debug, PartialEq, Eq)]
pub enum Error {
    /// The wire payload declares a type-url this layer does not support.
    ProtocolMismatch { type_url: String },
    /// The declared type-url is supported, but the payload bytes do not
    /// parse as that config (or hold text that is not UTF-8).
    MalformedConfig,
    /// A container/process identity failed construction; `call` names the
    /// wire call whose decoding failed.
    InvalidIdentity { call: WireCall, reason: IdentityError },
    /// An internal result does not match the wire response type being
    /// produced: a caller/handler wiring defect, surfaced rather than
    /// swallowed.
    UnexpectedResponse { response: TaskResponse, expected: ResponseKind },
    /// An error raised by the sandbox backend, forwarded uninterpreted.
    BackendFailure { message: String },
}

} // verus!
