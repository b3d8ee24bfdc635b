//! Error model of the session layer.
//!
//! The kinds mirror the small closed set of failures the engine can signal
//! synchronously, plus the peer-originated conditions an error callback
//! carries.

use vstd::prelude::*;

verus! {

/// Engine error code for "connection refused by the peer".
pub const UTP_ECONNREFUSED: u32 = 0;

/// Engine error code for "connection reset by the peer".
pub const UTP_ECONNRESET: u32 = 1;

/// Engine error code for "connection timed out".
pub const UTP_ETIMEDOUT: u32 = 2;

/// Failure of a synchronous session operation.
#[derive(Clone, Copy, Debug, PartialEq, Eq, Structural)]
pub enum UtpError {
    /// Data could not be written to the uTP socket. The engine exposes no
    /// further detail about the reason.
    SendFailed,
    /// An outbound connection attempt was rejected immediately.
    ConnectFailed,
    /// The socket cannot accept more outgoing data right now; retry after a
    /// writable state change. A flow-control signal, not a true failure.
    WouldBlock,
    /// The engine returned a code outside its documented contract.
    UnexpectedResult(i64),
    /// The fed UDP datagram was not a legal uTP frame for this session.
    IllegalPacket,
}

/// Peer-originated failure condition surfaced through the error callback.
#[derive(Clone, Copy, Debug, PartialEq, Eq, Structural)]
pub enum UtpPeerError {
    /// The peer refused the connection.
    ConnectionRefused,
    /// The peer reset the connection.
    ConnectionReset,
    /// The connection timed out.
    TimedOut,
    /// Any condition outside the recognized set.
    Other,
}

impl UtpPeerError {
    /// The peer condition a numeric engine error code stands for; anything
    /// unrecognized collapses to `Other`.
    pub open spec fn spec_from_code(code: u32) -> UtpPeerError {
        if code == UTP_ECONNREFUSED {
            UtpPeerError::ConnectionRefused
        } else if code == UTP_ECONNRESET {
            UtpPeerError::ConnectionReset
        } else if code == UTP_ETIMEDOUT {
            UtpPeerError::TimedOut
        } else {
            UtpPeerError::Other
        }
    }

    /// Translates a numeric engine error code into the closed condition set.
    pub fn from_code(code: u32) -> (e: UtpPeerError)
        ensures
            e == UtpPeerError::spec_from_code(code),
    {
        if code == UTP_ECONNREFUSED {
            UtpPeerError::ConnectionRefused
        } else if code == UTP_ECONNRESET {
            UtpPeerError::ConnectionReset
        } else if code == UTP_ETIMEDOUT {
            UtpPeerError::TimedOut
        } else {
            UtpPeerError::Other
        }
    }
}

impl UtpError {
    /// A short description of the failure, for callers that report errors.
    pub fn describe(&self) -> (s: &'static str)
        ensures
            self is SendFailed ==> s@ =~= "failed to send data over uTP socket"@,
            self is ConnectFailed ==> s@ =~= "failed to establish uTP connection"@,
            self is WouldBlock ==> s@ =~= "uTP socket cannot accept more outgoing data, try later"@,
            self is UnexpectedResult ==> s@ =~= "unexpected result code from the uTP engine"@,
            self is IllegalPacket ==> s@ =~= "UDP packet was not a legal uTP packet"@,
    {
        match self {
            UtpError::SendFailed => "failed to send data over uTP socket",
            UtpError::ConnectFailed => "failed to establish uTP connection",
            UtpError::WouldBlock => "uTP socket cannot accept more outgoing data, try later",
            UtpError::UnexpectedResult(_) => "unexpected result code from the uTP engine",
            UtpError::IllegalPacket => "UDP packet was not a legal uTP packet",
        }
    }
}

} // verus!
