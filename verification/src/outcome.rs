//! Interpretation of the engine's primitive result codes.
//!
//! Every synchronous session operation ends with the engine reporting a bare
//! integer. The functions here are the single place where those integers are
//! turned into the structured result model: the shell that performs the
//! native call hands the reported code in, and gets the typed outcome back.
//! Codes outside the engine's documented contract are never guessed at; they
//! surface as [`UtpError::UnexpectedResult`].

use vstd::prelude::*;

use crate::error::UtpError;

verus! {

/// The outcome owed for a datagram-feed result code: `1` means the frame was
/// consumed, `0` means the bytes were not a legal uTP frame, anything else is
/// outside the engine's documented contract.
pub open spec fn spec_feed_outcome(res: i32) -> Result<(), UtpError> {
    if res == 1 {
        Ok(())
    } else if res == 0 {
        Err(UtpError::IllegalPacket)
    } else {
        Err(UtpError::UnexpectedResult(res as i64))
    }
}

/// Interprets the engine's result code for feeding one inbound datagram.
///
/// `Ok(())` exactly when the engine consumed the frame (`1`);
/// `Err(IllegalPacket)` exactly when it rejected the bytes (`0`); any other
/// code is defensive `Err(UnexpectedResult)`.
pub fn feed_datagram_outcome(res: i32) -> (r: Result<(), UtpError>)
    ensures
        r == spec_feed_outcome(res),
        r is Ok <==> res == 1,
        r == Err::<(), UtpError>(UtpError::IllegalPacket) <==> res == 0,
{
    if res == 1 {
        Ok(())
    } else if res == 0 {
        Err(UtpError::IllegalPacket)
    } else {
        Err(UtpError::UnexpectedResult(res as i64))
    }
}

/// The outcome owed for a connect-attempt result code: `0` means the attempt
/// was accepted locally, `-1` means it was rejected immediately.
pub open spec fn spec_connect_outcome(res: i32) -> Result<(), UtpError> {
    if res == 0 {
        Ok(())
    } else if res == -1 {
        Err(UtpError::ConnectFailed)
    } else {
        Err(UtpError::UnexpectedResult(res as i64))
    }
}

/// Interprets the engine's result code for an outbound connection attempt.
///
/// `Ok(())` means only that the attempt was accepted locally; peer
/// reachability is reported later through a state-change callback.
pub fn connect_outcome(res: i32) -> (r: Result<(), UtpError>)
    ensures
        r == spec_connect_outcome(res),
        r is Ok <==> res == 0,
        r == Err::<(), UtpError>(UtpError::ConnectFailed) <==> res == -1,
{
    if res == 0 {
        Ok(())
    } else if res == -1 {
        Err(UtpError::ConnectFailed)
    } else {
        Err(UtpError::UnexpectedResult(res as i64))
    }
}

/// The outcome owed for a write result code, for a submission of `submitted`
/// bytes: `-1` is an opaque send failure, `0` is flow-control backpressure,
/// a count in `1 ..= submitted` is a (possibly partial) accepted write, and
/// any other code — negative below `-1`, or a count above what was submitted —
/// is outside the engine's documented contract.
pub open spec fn spec_send_outcome(res: isize, submitted: usize) -> Result<usize, UtpError> {
    if res == -1 {
        Err(UtpError::SendFailed)
    } else if res == 0 {
        Err(UtpError::WouldBlock)
    } else if 0 < res <= submitted {
        Ok(res as usize)
    } else {
        Err(UtpError::UnexpectedResult(res as i64))
    }
}

/// Interprets the engine's result code for writing `submitted` bytes to a
/// connection.
///
/// An accepted write may be partial: the caller owns resubmitting the
/// remainder. `Err(WouldBlock)` is a backpressure signal, to be retried after
/// a writable state change, never reported as a failure. Every `Ok(count)`
/// satisfies `0 < count <= submitted`: no accepted count is ever zero or
/// larger than what was handed in.
pub fn send_outcome(res: isize, submitted: usize) -> (r: Result<usize, UtpError>)
    ensures
        r == spec_send_outcome(res, submitted),
        r matches Ok(count) ==> 0 < count <= submitted,
        r matches Ok(count) ==> res == count,
        r == Err::<usize, UtpError>(UtpError::WouldBlock) <==> res == 0,
        r == Err::<usize, UtpError>(UtpError::SendFailed) <==> res == -1,
{
    if res == -1 {
        Err(UtpError::SendFailed)
    } else if res == 0 {
        Err(UtpError::WouldBlock)
    } else if res > 0 && res as usize <= submitted {
        Ok(res as usize)
    } else {
        Err(UtpError::UnexpectedResult(res as i64))
    }
}

/// No silent data loss under backpressure: when a send of the remainder is
/// accepted with some positive `count`, the bytes delivered so far plus the
/// chunk just accepted are exactly the payload's prefix up to the new send
/// mark, and the remainder strictly shrinks — so repeated resubmission of the
/// remainder reconstructs the payload byte for byte.
pub proof fn lemma_resubmission_reassembles(data: Seq<u8>, sent: int, count: int)
    requires
        0 <= sent <= data.len(),
        0 < count <= data.len() - sent,
    ensures
        data.subrange(0, sent) + data.subrange(sent, sent + count) == data.subrange(
            0,
            sent + count,
        ),
        data.len() - (sent + count) < data.len() - sent,
        sent + count == data.len() ==> data.subrange(0, sent) + data.subrange(sent, sent + count)
            == data,
{
    assert(data.subrange(0, sent) + data.subrange(sent, sent + count) =~= data.subrange(
        0,
        sent + count,
    ));
    assert(data.subrange(0, data.len() as int) =~= data);
}

} // verus!
