//! The error taxonomy: connection-phase failures and execution-phase
//! failures. Every variant is a bare tag — an error value carries no
//! payload at all, so no surfaced error can ever hold secret material.

use vstd::prelude::*;
use vstd::string::StringExecFns;

verus! {

/// A fatal failure while establishing the session: the transport could
/// not be opened, the secure-transport negotiation failed, or both
/// authentication stages were rejected.
#[derive(Clone, Copy, Debug, PartialEq, Eq, Structural)]
pub enum ConnectionError {
    ConnectFailed,
    HandshakeFailed,
    AuthenticationFailed,
}

/// A fatal input/output failure during one command invocation: opening
/// the channel, dispatching the command, draining its output, waiting
/// for close, or retrieving the exit status.
#[derive(Clone, Copy, Debug, PartialEq, Eq, Structural)]
pub enum ExecutionError {
    ChannelOpenFailed,
    DispatchFailed,
    OutputReadFailed,
    CloseFailed,
    StatusReadFailed,
}

/// The surfaced text of a connection error: a fixed literal per variant,
/// a function of the variant tag alone.
pub open spec fn connection_error_text(e: ConnectionError) -> Seq<char> {
    match e {
        ConnectionError::ConnectFailed => "could not open a transport connection to the target"@,
        ConnectionError::HandshakeFailed => "secure-transport handshake with the target failed"@,
        ConnectionError::AuthenticationFailed => "authentication failed: agent identity and password fallback were both rejected"@,
    }
}

/// The surfaced text of an execution error: a fixed literal per variant.
pub open spec fn execution_error_text(e: ExecutionError) -> Seq<char> {
    match e {
        ExecutionError::ChannelOpenFailed => "could not open a command channel on the session"@,
        ExecutionError::DispatchFailed => "could not dispatch the command over the channel"@,
        ExecutionError::OutputReadFailed => "reading the command output failed"@,
        ExecutionError::CloseFailed => "waiting for the channel to close failed"@,
        ExecutionError::StatusReadFailed => "retrieving the remote exit status failed"@,
    }
}

impl ConnectionError {
    /// The message surfaced to the operator: the fixed text of the
    /// variant, never anything taken from the attempted credentials.
    pub fn message(&self) -> (m: String)
        ensures
            m@ == connection_error_text(*self),
    {
        match self {
            ConnectionError::ConnectFailed => String::from_str(
                "could not open a transport connection to the target",
            ),
            ConnectionError::HandshakeFailed => String::from_str(
                "secure-transport handshake with the target failed",
            ),
            ConnectionError::AuthenticationFailed => String::from_str(
                "authentication failed: agent identity and password fallback were both rejected",
            ),
        }
    }
}

impl ExecutionError {
    /// The message surfaced to the operator: the fixed text of the
    /// variant.
    pub fn message(&self) -> (m: String)
        ensures
            m@ == execution_error_text(*self),
    {
        match self {
            ExecutionError::ChannelOpenFailed => String::from_str(
                "could not open a command channel on the session",
            ),
            ExecutionError::DispatchFailed => String::from_str(
                "could not dispatch the command over the channel",
            ),
            ExecutionError::OutputReadFailed => String::from_str(
                "reading the command output failed",
            ),
            ExecutionError::CloseFailed => String::from_str(
                "waiting for the channel to close failed",
            ),
            ExecutionError::StatusReadFailed => String::from_str(
                "retrieving the remote exit status failed",
            ),
        }
    }
}

} // verus!
