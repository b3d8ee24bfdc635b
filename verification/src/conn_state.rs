//! Connection state machine.
//!
//! A connection observed through state-change callbacks moves along a fixed
//! chain: it starts out connecting, becomes connected, may report
//! writability any number of times while data flows, is closed, and is
//! finally destroyed — after which the native handle must never be touched
//! again. The tracker here validates each observed state change against that
//! chain, so a driving loop can reject an engine event sequence that breaks
//! it.

use vstd::prelude::*;

use crate::UtpState;

verus! {

/// Where a tracked connection stands in its lifecycle.
#[derive(Clone, Copy, Debug, PartialEq, Eq, Structural)]
pub enum ConnPhase {
    /// An outbound attempt was issued; the peer has not answered yet.
    Connecting,
    /// The connection is established; data and writability events may flow.
    Established,
    /// The connection was closed; only destruction remains.
    Closed,
    /// The engine has invalidated the handle. Terminal: no further event is
    /// valid, and the handle must not be referenced any more.
    Destroyed,
}

/// The phase a connection in `phase` moves to on observing `event`, or `None`
/// if the chain does not allow `event` there.
pub open spec fn spec_next_phase(phase: ConnPhase, event: UtpState) -> Option<ConnPhase> {
    match phase {
        ConnPhase::Connecting => match event {
            UtpState::Connected => Some(ConnPhase::Established),
            _ => None,
        },
        ConnPhase::Established => match event {
            UtpState::Writable => Some(ConnPhase::Established),
            UtpState::ConnectionClosed => Some(ConnPhase::Closed),
            _ => None,
        },
        ConnPhase::Closed => match event {
            UtpState::Destroying => Some(ConnPhase::Destroyed),
            _ => None,
        },
        ConnPhase::Destroyed => None,
    }
}

/// Whether the whole event sequence `tr` is accepted step by step from
/// `phase`.
pub open spec fn spec_accepts_trace(phase: ConnPhase, tr: Seq<UtpState>) -> bool
    decreases tr.len(),
{
    tr.len() == 0 || {
        &&& spec_next_phase(phase, tr[0]) matches Some(p)
        &&& spec_accepts_trace(p, tr.drop_first())
    }
}

/// State-ordering law: on a connection being opened, the first observed state
/// change of any accepted event sequence is `Connected` — a connection
/// passes through connecting into connected before any writability or data
/// event, so no data is sent on it earlier.
pub proof fn lemma_connected_comes_first(tr: Seq<UtpState>)
    requires
        spec_accepts_trace(ConnPhase::Connecting, tr),
        tr.len() > 0,
    ensures
        tr[0] == UtpState::Connected,
        forall|i: int| 0 < i < tr.len() && tr[i] == UtpState::Writable ==> exists|j: int|
            0 <= j < i && tr[j] == UtpState::Connected,
{
    assert forall|i: int| 0 < i < tr.len() && tr[i] == UtpState::Writable implies exists|j: int|
        0 <= j < i && tr[j] == UtpState::Connected by {
        assert(tr[0] == UtpState::Connected && 0 < i);
    }
}

/// Terminality law: once a connection is destroyed, no event sequence other
/// than the empty one is accepted — nothing may be observed on, or done
/// with, the handle any more.
pub proof fn lemma_destroyed_is_terminal(tr: Seq<UtpState>)
    requires
        spec_accepts_trace(ConnPhase::Destroyed, tr),
    ensures
        tr.len() == 0,
{
}

/// A destruction event is the last event of any accepted sequence: the
/// engine invalidates the handle immediately after reporting it.
pub proof fn lemma_destroying_comes_last(phase: ConnPhase, tr: Seq<UtpState>, i: int)
    requires
        spec_accepts_trace(phase, tr),
        0 <= i < tr.len(),
        tr[i] == UtpState::Destroying,
    ensures
        i == tr.len() - 1,
    decreases tr.len(),
{
    if i == 0 {
        if tr.len() > 1 {
            let p = spec_next_phase(phase, tr[0]);
            assert(p == Some(ConnPhase::Destroyed));
            lemma_destroyed_is_terminal(tr.drop_first());
        }
    } else {
        let p = spec_next_phase(phase, tr[0])->Some_0;
        assert(spec_accepts_trace(p, tr.drop_first()));
        lemma_destroying_comes_last(p, tr.drop_first(), i - 1);
    }
}

/// Tracks one connection's progress along the state chain.
pub struct ConnTracker {
    phase: ConnPhase,
}

impl ConnTracker {
    /// The phase the tracked connection is in.
    pub closed spec fn spec_phase(self) -> ConnPhase {
        self.phase
    }

    /// A tracker for a connection whose outbound attempt was just issued.
    pub fn new() -> (t: ConnTracker)
        ensures
            t.spec_phase() == ConnPhase::Connecting,
    {
        ConnTracker { phase: ConnPhase::Connecting }
    }

    /// Returns the phase the tracked connection is in.
    pub fn phase(&self) -> (p: ConnPhase)
        ensures
            p == self.spec_phase(),
    {
        self.phase
    }

    /// Observes one state-change event. Moves along the chain and returns
    /// `true` when the chain allows the event in the current phase; otherwise
    /// stays put and returns `false`.
    pub fn observe(&mut self, event: UtpState) -> (accepted: bool)
        ensures
            accepted <==> spec_next_phase(old(self).spec_phase(), event) is Some,
            final(self).spec_phase() == if accepted {
                spec_next_phase(old(self).spec_phase(), event)->Some_0
            } else {
                old(self).spec_phase()
            },
    {
        let next = match self.phase {
            ConnPhase::Connecting => match event {
                UtpState::Connected => Some(ConnPhase::Established),
                _ => None,
            },
            ConnPhase::Established => match event {
                UtpState::Writable => Some(ConnPhase::Established),
                UtpState::ConnectionClosed => Some(ConnPhase::Closed),
                _ => None,
            },
            ConnPhase::Closed => match event {
                UtpState::Destroying => Some(ConnPhase::Destroyed),
                _ => None,
            },
            ConnPhase::Destroyed => None,
        };
        match next {
            Some(p) => {
                self.phase = p;
                true
            },
            None => false,
        }
    }
}

} // verus!
