//! Session layer for a callback-based uTP-style protocol engine.
//!
//! The native engine (congestion control, retransmission, framing) is an
//! external collaborator: it consumes raw datagrams and timer ticks and raises
//! a fixed set of callbacks. This crate owns everything around that black box:
//! the per-session user state and callback registry, the typed view over a
//! callback payload, the translation of the engine's primitive result codes
//! into a structured error and state model, and the connection state machine.
//! The unverifiable shell that feeds the native engine lives outside this
//! library and drives it through the decision functions defined here.

use vstd::prelude::*;

pub mod callback;
pub mod conn_state;
pub mod ctx;
pub mod error;
pub mod outcome;
pub mod sockaddr;
pub mod socket;

pub use crate::callback::UtpCallbackArgs;
pub use crate::callback::UtpCallbackType;
pub use crate::ctx::UtpContext;
pub use crate::ctx::UtpUserData;
pub use crate::error::UtpError;
pub use crate::socket::make_utp_socket;
pub use crate::socket::UtpSocket;

verus! {

/// State code the engine reports through a state-change callback.
pub const UTP_STATE_CONNECT: u32 = 1;

/// State code for "the send window has room again".
pub const UTP_STATE_WRITABLE: u32 = 2;

/// State code for "the peer closed the connection".
pub const UTP_STATE_EOF: u32 = 3;

/// State code for "the engine is about to invalidate this handle".
pub const UTP_STATE_DESTROYING: u32 = 4;

/// uTP connection state, as delivered to a state-change handler.
#[derive(Clone, Copy, Debug, PartialEq, Eq, Structural)]
pub enum UtpState {
    /// The socket has received a syn-ack (notification only for outgoing
    /// connection completion); this implies writability.
    Connected,
    /// The socket is able to send more data.
    Writable,
    /// The connection was closed.
    ConnectionClosed,
    /// The socket is being destroyed; all data has been sent if possible.
    /// It is not valid to refer to the socket after this state is observed.
    Destroying,
}

impl UtpState {
    /// The numeric code the engine uses for this state.
    pub open spec fn spec_code(self) -> u32 {
        match self {
            UtpState::Connected => UTP_STATE_CONNECT,
            UtpState::Writable => UTP_STATE_WRITABLE,
            UtpState::ConnectionClosed => UTP_STATE_EOF,
            UtpState::Destroying => UTP_STATE_DESTROYING,
        }
    }

    /// Returns the numeric code the engine uses for this state.
    pub fn code(self) -> (c: u32)
        ensures
            c == self.spec_code(),
    {
        match self {
            UtpState::Connected => UTP_STATE_CONNECT,
            UtpState::Writable => UTP_STATE_WRITABLE,
            UtpState::ConnectionClosed => UTP_STATE_EOF,
            UtpState::Destroying => UTP_STATE_DESTROYING,
        }
    }

    /// The state a numeric engine code stands for, if any.
    pub open spec fn spec_from_code(code: u32) -> Option<UtpState> {
        if code == UTP_STATE_CONNECT {
            Some(UtpState::Connected)
        } else if code == UTP_STATE_WRITABLE {
            Some(UtpState::Writable)
        } else if code == UTP_STATE_EOF {
            Some(UtpState::ConnectionClosed)
        } else if code == UTP_STATE_DESTROYING {
            Some(UtpState::Destroying)
        } else {
            None
        }
    }

    /// Decodes a numeric engine state code; `None` for a code outside the
    /// engine's documented set.
    pub fn from_code(code: u32) -> (s: Option<UtpState>)
        ensures
            s == UtpState::spec_from_code(code),
    {
        if code == UTP_STATE_CONNECT {
            Some(UtpState::Connected)
        } else if code == UTP_STATE_WRITABLE {
            Some(UtpState::Writable)
        } else if code == UTP_STATE_EOF {
            Some(UtpState::ConnectionClosed)
        } else if code == UTP_STATE_DESTROYING {
            Some(UtpState::Destroying)
        } else {
            None
        }
    }
}

/// Encoding and decoding a state code are mutually inverse: every state comes
/// back from its own code, and every code that decodes at all decodes to the
/// state that carries it.
pub proof fn lemma_state_code_round_trip()
    ensures
        forall|s: UtpState| UtpState::spec_from_code(s.spec_code()) == Some(s),
        forall|c: u32| #[trigger] UtpState::spec_from_code(c) matches Some(s) ==> s.spec_code() == c,
{
}

} // verus!
