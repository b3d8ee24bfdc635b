//! Chunked transfer under backpressure: interpreting every write result
//! through the session layer and resubmitting the remainder reconstructs the
//! payload byte for byte, with no silent loss.

use utp::error::UtpError;
use utp::outcome::send_outcome;

/// A deterministic pseudo-random payload.
fn payload(len: usize) -> Vec<u8> {
    let mut state: u64 = 0x2545_f491_4f6c_dd1d;
    let mut data = Vec::with_capacity(len);
    for _ in 0..len {
        state = state.wrapping_mul(6364136223846793005).wrapping_add(1442695040888963407);
        data.push((state >> 56) as u8);
    }
    data
}

/// A toy send window standing in for the engine: it accepts at most
/// `window` bytes between drain calls and reports `0` (would block) when
/// full, as the native write does.
struct Window {
    room: usize,
    window: usize,
}

impl Window {
    fn write(&mut self, len: usize) -> isize {
        if self.room == 0 {
            return 0;
        }
        let taken = self.room.min(len);
        self.room -= taken;
        taken as isize
    }

    fn drain(&mut self) {
        self.room = self.window;
    }
}

#[test]
fn a_transfer_under_backpressure_reconstructs_the_payload() {
    let out_data = payload(2 * 1024 * 1024);
    let mut engine = Window { room: 1350, window: 1350 };
    let mut in_data: Vec<u8> = Vec::with_capacity(out_data.len());
    let mut bytes_sent = 0usize;

    while bytes_sent < out_data.len() {
        let remainder = &out_data[bytes_sent..];
        let reported = engine.write(remainder.len());
        match send_outcome(reported, remainder.len()) {
            Ok(count) => {
                assert!(0 < count && count <= remainder.len());
                in_data.extend_from_slice(&remainder[..count]);
                bytes_sent += count;
            }
            Err(UtpError::WouldBlock) => {
                // Not an error: wait for the writable event, then retry.
                engine.drain();
            }
            other => panic!("send failed: {:?}", other),
        }
    }

    assert_eq!(in_data.len(), out_data.len());
    assert_eq!(in_data, out_data);
}

#[test]
fn a_three_byte_payload_arrives_exactly() {
    let out_data = vec![1u8, 2, 3];
    let mut in_data: Vec<u8> = Vec::new();
    let reported = 3isize;
    match send_outcome(reported, out_data.len()) {
        Ok(count) => in_data.extend_from_slice(&out_data[..count]),
        other => panic!("send failed: {:?}", other),
    }
    assert_eq!(in_data, vec![1, 2, 3]);
}

#[test]
fn partial_writes_resubmit_from_the_right_offset() {
    let out_data = payload(10);
    let mut in_data: Vec<u8> = Vec::new();
    let mut bytes_sent = 0usize;
    for reported in [4isize, 1, 5] {
        let remainder = &out_data[bytes_sent..];
        let count = send_outcome(reported, remainder.len()).expect("accepted write");
        in_data.extend_from_slice(&remainder[..count]);
        bytes_sent += count;
    }
    assert_eq!(bytes_sent, 10);
    assert_eq!(in_data, out_data);
}
