//! Per-connection handle model.
//!
//! The engine issues one native handle per connection. The session layer
//! wraps each in a single-owner value: the handle number is set at
//! construction, never reassigned, and given up exactly once, when the owner
//! releases the wrapper to close the connection. The engine offers no "is
//! this handle still valid" query, so this ownership discipline is the whole
//! correctness story for handle lifetime.

use vstd::prelude::*;

verus! {

/// Shutdown code for the read side.
pub const SHUT_RD: i32 = 0;

/// Shutdown code for the write side.
pub const SHUT_WR: i32 = 1;

/// Shutdown code for both sides.
pub const SHUT_RDWR: i32 = 2;

/// Which side of a connection to shut down.
#[derive(Clone, Copy, Debug, PartialEq, Eq, Structural)]
pub enum UtpShutdown {
    /// Close the read side.
    Read,
    /// Close the write side.
    Write,
    /// Close both sides.
    Both,
}

impl UtpShutdown {
    /// The numeric code the engine takes for this shutdown direction.
    pub open spec fn spec_code(self) -> i32 {
        match self {
            UtpShutdown::Read => SHUT_RD,
            UtpShutdown::Write => SHUT_WR,
            UtpShutdown::Both => SHUT_RDWR,
        }
    }

    /// Returns the numeric code the engine takes for this shutdown direction.
    pub fn code(self) -> (c: i32)
        ensures
            c == self.spec_code(),
    {
        match self {
            UtpShutdown::Read => SHUT_RD,
            UtpShutdown::Write => SHUT_WR,
            UtpShutdown::Both => SHUT_RDWR,
        }
    }
}

/// Handle to one uTP connection.
///
/// There is no read operation here: inbound data arrives through the read
/// callback of the owning session. Writing goes through the engine, whose
/// reported count is interpreted by [`crate::outcome::send_outcome`].
pub struct UtpSocket {
    raw: u64,
}

impl UtpSocket {
    /// The native handle number this wrapper owns.
    pub closed spec fn spec_raw(self) -> u64 {
        self.raw
    }

    /// Returns the native handle number, for handing a request to the engine.
    /// The wrapper stays the owner; nothing else may release the handle.
    pub fn raw(&self) -> (r: u64)
        ensures
            r == self.spec_raw(),
    {
        self.raw
    }

    /// Computes the shutdown request for this connection: the handle to pass
    /// and the engine's code for the wanted direction. The side effect is
    /// entirely inside the engine; the wrapper is unchanged.
    pub fn shutdown(&self, how: UtpShutdown) -> (r: (u64, i32))
        ensures
            r.0 == self.spec_raw(),
            r.1 == how.spec_code(),
    {
        (self.raw, how.code())
    }

    /// Gives the handle up for release. Consuming the wrapper is the only way
    /// to obtain the handle for the closing call, so the connection is closed
    /// at most once.
    pub fn into_raw(self) -> (r: u64)
        ensures
            r == self.spec_raw(),
    {
        self.raw
    }
}

/// Wraps a native connection handle delivered by the engine — by a connect
/// attempt, or inside an accept callback — into its single-owner wrapper.
pub fn make_utp_socket(raw: u64) -> (s: UtpSocket)
    ensures
        s.spec_raw() == raw,
{
    UtpSocket { raw }
}

} // verus!
