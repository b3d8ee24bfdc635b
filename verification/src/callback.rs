//! Callback kinds and the typed view over one callback payload.
//!
//! The engine raises every event through a fixed, closed set of callback
//! kinds. Each kind is identified by a small numeric code on the native side;
//! the codecs here translate between the codes and the typed kind. The
//! [`UtpCallbackArgs`] view gives a handler typed, call-scoped access to the
//! payload of one invocation: the peer address, the buffer, the state or
//! error code, the connection handle, and the one mutator a read handler owes
//! the engine — the data acknowledgement.

use vstd::prelude::*;

use crate::error::UtpPeerError;
use crate::sockaddr::spec_is_v4;
use crate::sockaddr::spec_is_v6;
use crate::sockaddr::spec_port;
use crate::sockaddr::parse_sockaddr;
use crate::sockaddr::UtpIpAddr;
use crate::sockaddr::UtpSocketAddr;
use crate::socket::make_utp_socket;
use crate::socket::UtpSocket;
use crate::UtpState;

verus! {

/// Callback code: ask whether an incoming connection may be accepted.
pub const UTP_ON_FIREWALL: u32 = 0;

/// Callback code: a new incoming connection was accepted.
pub const UTP_ON_ACCEPT: u32 = 1;

/// Callback code: an outgoing connection completed.
pub const UTP_ON_CONNECT: u32 = 2;

/// Callback code: an error happened on a connection.
pub const UTP_ON_ERROR: u32 = 3;

/// Callback code: a data packet arrived.
pub const UTP_ON_READ: u32 = 4;

/// Callback code: per-packet overhead statistics.
pub const UTP_ON_OVERHEAD_STATISTICS: u32 = 5;

/// Callback code: the connection state changed.
pub const UTP_ON_STATE_CHANGE: u32 = 6;

/// Callback code: ask for the remaining receive-buffer room.
pub const UTP_GET_READ_BUFFER_SIZE: u32 = 7;

/// Callback code: a recalculated delay sample.
pub const UTP_ON_DELAY_SAMPLE: u32 = 8;

/// Callback code: ask for the initial UDP maximum transfer unit.
pub const UTP_GET_UDP_MTU: u32 = 9;

/// Callback code: ask for the UDP header overhead.
pub const UTP_GET_UDP_OVERHEAD: u32 = 10;

/// Callback code: ask for the current time in milliseconds.
pub const UTP_GET_MILLISECONDS: u32 = 11;

/// Callback code: ask for the current time in microseconds.
pub const UTP_GET_MICROSECONDS: u32 = 12;

/// Callback code: ask for a random number.
pub const UTP_GET_RANDOM: u32 = 13;

/// Callback code: a log message is available.
pub const UTP_LOG: u32 = 14;

/// Callback code: a raw uTP packet is ready to be sent over the transport.
pub const UTP_SENDTO: u32 = 15;

/// Identifies one uTP callback kind — the closed set of events the engine can
/// raise.
#[derive(Clone, Copy, Debug, Hash, PartialEq, Eq, Structural)]
pub enum UtpCallbackType {
    /// Allow or reject an incoming connection.
    OnFirewall,
    /// A new incoming connection was accepted.
    OnAccept,
    /// An outgoing connection completed.
    OnConnect,
    /// An error happened.
    OnError,
    /// A uTP data packet was received.
    OnRead,
    /// Statistics for miscellaneous packets; overhead is UDP plus uTP header.
    OnOverheadStatistics,
    /// The connection state changed.
    OnStateChange,
    /// The engine asks how many more bytes the receive buffer can take;
    /// important for congestion control.
    GetReadBufferSize,
    /// A peer-delay sample was recalculated.
    OnDelaySample,
    /// The engine asks for the initial UDP maximum transfer unit.
    GetUdpMtu,
    /// The engine asks for the UDP header overhead.
    GetUdpOverhead,
    /// The engine asks for the current time in milliseconds.
    GetMilliseconds,
    /// The engine asks for the current time in microseconds.
    GetMicroseconds,
    /// The engine asks for a random number.
    GetRandom,
    /// A log message; the buffer holds a NUL-terminated string.
    Log,
    /// A raw uTP packet is ready; the registered handler must write it to the
    /// caller's own datagram transport.
    Sendto,
}

impl UtpCallbackType {
    /// The numeric code the engine uses for this callback kind.
    pub open spec fn spec_code(self) -> u32 {
        match self {
            UtpCallbackType::OnFirewall => UTP_ON_FIREWALL,
            UtpCallbackType::OnAccept => UTP_ON_ACCEPT,
            UtpCallbackType::OnConnect => UTP_ON_CONNECT,
            UtpCallbackType::OnError => UTP_ON_ERROR,
            UtpCallbackType::OnRead => UTP_ON_READ,
            UtpCallbackType::OnOverheadStatistics => UTP_ON_OVERHEAD_STATISTICS,
            UtpCallbackType::OnStateChange => UTP_ON_STATE_CHANGE,
            UtpCallbackType::GetReadBufferSize => UTP_GET_READ_BUFFER_SIZE,
            UtpCallbackType::OnDelaySample => UTP_ON_DELAY_SAMPLE,
            UtpCallbackType::GetUdpMtu => UTP_GET_UDP_MTU,
            UtpCallbackType::GetUdpOverhead => UTP_GET_UDP_OVERHEAD,
            UtpCallbackType::GetMilliseconds => UTP_GET_MILLISECONDS,
            UtpCallbackType::GetMicroseconds => UTP_GET_MICROSECONDS,
            UtpCallbackType::GetRandom => UTP_GET_RANDOM,
            UtpCallbackType::Log => UTP_LOG,
            UtpCallbackType::Sendto => UTP_SENDTO,
        }
    }

    /// Returns the numeric code the engine uses for this callback kind.
    pub fn code(self) -> (c: u32)
        ensures
            c == self.spec_code(),
    {
        match self {
            UtpCallbackType::OnFirewall => UTP_ON_FIREWALL,
            UtpCallbackType::OnAccept => UTP_ON_ACCEPT,
            UtpCallbackType::OnConnect => UTP_ON_CONNECT,
            UtpCallbackType::OnError => UTP_ON_ERROR,
            UtpCallbackType::OnRead => UTP_ON_READ,
            UtpCallbackType::OnOverheadStatistics => UTP_ON_OVERHEAD_STATISTICS,
            UtpCallbackType::OnStateChange => UTP_ON_STATE_CHANGE,
            UtpCallbackType::GetReadBufferSize => UTP_GET_READ_BUFFER_SIZE,
            UtpCallbackType::OnDelaySample => UTP_ON_DELAY_SAMPLE,
            UtpCallbackType::GetUdpMtu => UTP_GET_UDP_MTU,
            UtpCallbackType::GetUdpOverhead => UTP_GET_UDP_OVERHEAD,
            UtpCallbackType::GetMilliseconds => UTP_GET_MILLISECONDS,
            UtpCallbackType::GetMicroseconds => UTP_GET_MICROSECONDS,
            UtpCallbackType::GetRandom => UTP_GET_RANDOM,
            UtpCallbackType::Log => UTP_LOG,
            UtpCallbackType::Sendto => UTP_SENDTO,
        }
    }

    /// The callback kind a numeric engine code stands for, if any.
    pub open spec fn spec_from_code(code: u32) -> Option<UtpCallbackType> {
        if code == UTP_ON_FIREWALL {
            Some(UtpCallbackType::OnFirewall)
        } else if code == UTP_ON_ACCEPT {
            Some(UtpCallbackType::OnAccept)
        } else if code == UTP_ON_CONNECT {
            Some(UtpCallbackType::OnConnect)
        } else if code == UTP_ON_ERROR {
            Some(UtpCallbackType::OnError)
        } else if code == UTP_ON_READ {
            Some(UtpCallbackType::OnRead)
        } else if code == UTP_ON_OVERHEAD_STATISTICS {
            Some(UtpCallbackType::OnOverheadStatistics)
        } else if code == UTP_ON_STATE_CHANGE {
            Some(UtpCallbackType::OnStateChange)
        } else if code == UTP_GET_READ_BUFFER_SIZE {
            Some(UtpCallbackType::GetReadBufferSize)
        } else if code == UTP_ON_DELAY_SAMPLE {
            Some(UtpCallbackType::OnDelaySample)
        } else if code == UTP_GET_UDP_MTU {
            Some(UtpCallbackType::GetUdpMtu)
        } else if code == UTP_GET_UDP_OVERHEAD {
            Some(UtpCallbackType::GetUdpOverhead)
        } else if code == UTP_GET_MILLISECONDS {
            Some(UtpCallbackType::GetMilliseconds)
        } else if code == UTP_GET_MICROSECONDS {
            Some(UtpCallbackType::GetMicroseconds)
        } else if code == UTP_GET_RANDOM {
            Some(UtpCallbackType::GetRandom)
        } else if code == UTP_LOG {
            Some(UtpCallbackType::Log)
        } else if code == UTP_SENDTO {
            Some(UtpCallbackType::Sendto)
        } else {
            None
        }
    }

    /// Decodes a numeric engine callback code; `None` for a code outside the
    /// closed set.
    pub fn from_code(code: u32) -> (k: Option<UtpCallbackType>)
        ensures
            k == UtpCallbackType::spec_from_code(code),
    {
        if code == UTP_ON_FIREWALL {
            Some(UtpCallbackType::OnFirewall)
        } else if code == UTP_ON_ACCEPT {
            Some(UtpCallbackType::OnAccept)
        } else if code == UTP_ON_CONNECT {
            Some(UtpCallbackType::OnConnect)
        } else if code == UTP_ON_ERROR {
            Some(UtpCallbackType::OnError)
        } else if code == UTP_ON_READ {
            Some(UtpCallbackType::OnRead)
        } else if code == UTP_ON_OVERHEAD_STATISTICS {
            Some(UtpCallbackType::OnOverheadStatistics)
        } else if code == UTP_ON_STATE_CHANGE {
            Some(UtpCallbackType::OnStateChange)
        } else if code == UTP_GET_READ_BUFFER_SIZE {
            Some(UtpCallbackType::GetReadBufferSize)
        } else if code == UTP_ON_DELAY_SAMPLE {
            Some(UtpCallbackType::OnDelaySample)
        } else if code == UTP_GET_UDP_MTU {
            Some(UtpCallbackType::GetUdpMtu)
        } else if code == UTP_GET_UDP_OVERHEAD {
            Some(UtpCallbackType::GetUdpOverhead)
        } else if code == UTP_GET_MILLISECONDS {
            Some(UtpCallbackType::GetMilliseconds)
        } else if code == UTP_GET_MICROSECONDS {
            Some(UtpCallbackType::GetMicroseconds)
        } else if code == UTP_GET_RANDOM {
            Some(UtpCallbackType::GetRandom)
        } else if code == UTP_LOG {
            Some(UtpCallbackType::Log)
        } else if code == UTP_SENDTO {
            Some(UtpCallbackType::Sendto)
        } else {
            None
        }
    }

    /// Whether the session layer installs its reentry point with the engine
    /// for this kind.
    ///
    /// Only a conservative subset of kinds is wired up. The query kinds —
    /// clock, MTU, overhead, buffer size, random — have stricter contracts:
    /// a careless handler answer corrupts engine state, so those kinds are
    /// left to the engine's own built-in behaviour rather than stubbed with a
    /// no-op. This is a deliberate design rule, not a completeness gap.
    pub open spec fn spec_is_wired(self) -> bool {
        match self {
            UtpCallbackType::OnAccept => true,
            UtpCallbackType::OnError => true,
            UtpCallbackType::OnRead => true,
            UtpCallbackType::OnStateChange => true,
            UtpCallbackType::Log => true,
            UtpCallbackType::Sendto => true,
            _ => false,
        }
    }

    /// Returns whether the session layer wires this kind up with the engine.
    pub fn is_wired(self) -> (w: bool)
        ensures
            w == self.spec_is_wired(),
    {
        match self {
            UtpCallbackType::OnAccept => true,
            UtpCallbackType::OnError => true,
            UtpCallbackType::OnRead => true,
            UtpCallbackType::OnStateChange => true,
            UtpCallbackType::Log => true,
            UtpCallbackType::Sendto => true,
            _ => false,
        }
    }
}

/// Encoding and decoding a callback code are mutually inverse: every kind
/// comes back from its own code, and every code that decodes at all decodes
/// to the kind that carries it.
pub proof fn lemma_callback_code_round_trip()
    ensures
        forall|k: UtpCallbackType|
            UtpCallbackType::spec_from_code(k.spec_code()) == Some(k),
        forall|c: u32|
            #[trigger] UtpCallbackType::spec_from_code(c) matches Some(k) ==> k.spec_code() == c,
{
}

/// The longest prefix of `b` that holds no NUL byte: the bytes a C-style
/// string in `b` consists of.
pub open spec fn spec_nul_prefix(b: Seq<u8>) -> Seq<u8>
    decreases b.len(),
{
    if b.len() == 0 {
        Seq::empty()
    } else if b[0] == 0 {
        Seq::empty()
    } else {
        seq![b[0]] + spec_nul_prefix(b.drop_first())
    }
}

proof fn lemma_nul_prefix_is_scan(b: Seq<u8>, i: int)
    requires
        0 <= i <= b.len(),
        forall|j: int| 0 <= j < i ==> b[j] != 0,
        i == b.len() || b[i] == 0,
    ensures
        spec_nul_prefix(b) == b.subrange(0, i),
    decreases i,
{
    if i == 0 {
        assert(spec_nul_prefix(b) =~= b.subrange(0, 0));
    } else {
        lemma_nul_prefix_is_scan(b.drop_first(), i - 1);
        assert(spec_nul_prefix(b) == seq![b[0]] + spec_nul_prefix(b.drop_first()));
        assert(seq![b[0]] + b.drop_first().subrange(0, i - 1) =~= b.subrange(0, i));
    }
}

/// Returns the bytes of `bytes` up to, and not including, the first NUL; all
/// of `bytes` if it holds none.
pub fn nul_terminated_prefix(bytes: &Vec<u8>) -> (r: Vec<u8>)
    ensures
        r@ == spec_nul_prefix(bytes@),
{
    let mut out: Vec<u8> = Vec::new();
    let mut i: usize = 0;
    while i < bytes.len()
        invariant
            0 <= i <= bytes@.len(),
            out@ == bytes@.subrange(0, i as int),
            forall|j: int| 0 <= j < i ==> bytes@[j] != 0,
        decreases bytes@.len() - i,
    {
        if bytes[i] == 0 {
            proof {
                lemma_nul_prefix_is_scan(bytes@, i as int);
            }
            return out;
        }
        out.push(bytes[i]);
        proof {
            assert(out@ =~= bytes@.subrange(0, i + 1));
        }
        i += 1;
    }
    proof {
        lemma_nul_prefix_is_scan(bytes@, bytes@.len() as int);
    }
    out
}

/// What `String::from_utf8_lossy` makes of a byte sequence.
pub uninterp spec fn lossy_utf8_of(bytes: Seq<u8>) -> Seq<char>;

/// Relies on `String::from_utf8_lossy`: the returned text is a function of
/// the input bytes alone — valid UTF-8 is decoded as it stands, and each
/// invalid sequence is replaced with the replacement character.
#[verifier::external_body]
fn lossy_utf8(bytes: &Vec<u8>) -> (r: String)
    ensures
        r@ == lossy_utf8_of(bytes@),
{
    String::from_utf8_lossy(bytes.as_slice()).into_owned()
}

/// Typed view over the raw payload of one callback invocation.
///
/// A view is built by the reentry point for exactly one invocation and must
/// not be retained beyond it: the engine only keeps the underlying payload
/// alive for that single call.
pub struct UtpCallbackArgs<'a, T> {
    user: &'a T,
    socket_handle: u64,
    buf: Vec<u8>,
    addr: Vec<u8>,
    code: u32,
    acked: bool,
}

impl<'a, T> UtpCallbackArgs<'a, T> {
    /// The session user state the view gives access to.
    pub closed spec fn spec_user_data(self) -> T {
        *self.user
    }

    /// The native handle value of the connection the event concerns.
    pub closed spec fn spec_socket_handle(self) -> u64 {
        self.socket_handle
    }

    /// The bytes of the payload buffer.
    pub closed spec fn spec_buf(self) -> Seq<u8> {
        self.buf@
    }

    /// The raw bytes of the peer socket-address structure.
    pub closed spec fn spec_addr_bytes(self) -> Seq<u8> {
        self.addr@
    }

    /// The kind-dependent event code: a state code for a state change, an
    /// error code for an error event.
    pub closed spec fn spec_event_code(self) -> u32 {
        self.code
    }

    /// Whether the handler has acknowledged the buffered inbound data.
    pub closed spec fn spec_acked(self) -> bool {
        self.acked
    }

    /// Wraps the raw payload of one callback invocation — the user state
    /// recovered from the engine, the connection handle value, the buffer and
    /// peer-address bytes, and the kind-dependent event code — into the typed
    /// view. A fresh view carries no data acknowledgement.
    pub fn wrap(user: &'a T, socket_handle: u64, buf: Vec<u8>, addr: Vec<u8>, code: u32) -> (r:
        Self)
        ensures
            r.spec_user_data() == *user,
            r.spec_socket_handle() == socket_handle,
            r.spec_buf() == buf@,
            r.spec_addr_bytes() == addr@,
            r.spec_event_code() == code,
            !r.spec_acked(),
    {
        UtpCallbackArgs { user, socket_handle, buf, addr, code, acked: false }
    }

    /// Returns the peer socket address, if the payload carries an IPv4 or
    /// IPv6 address; `None` for any other family or for kinds without an
    /// address.
    pub fn address(&self) -> (r: Option<UtpSocketAddr>)
        ensures
            r is Some <==> spec_is_v4(self.spec_addr_bytes()) || spec_is_v6(
                self.spec_addr_bytes(),
            ),
            r matches Some(a) ==> a.port == spec_port(self.spec_addr_bytes()),
            spec_is_v4(self.spec_addr_bytes()) ==> (r matches Some(a) && a.ip matches
                UtpIpAddr::V4(o) && o@ =~= self.spec_addr_bytes().subrange(4, 8)),
            spec_is_v6(self.spec_addr_bytes()) ==> (r matches Some(a) && a.ip matches
                UtpIpAddr::V6(o) && o@ =~= self.spec_addr_bytes().subrange(8, 24)),
    {
        parse_sockaddr(&self.addr)
    }

    /// Returns the connection state a state-change event reports; `None` for
    /// a code outside the engine's documented set. Valid only for
    /// state-change callbacks.
    pub fn state(&self) -> (s: Option<UtpState>)
        ensures
            s == UtpState::spec_from_code(self.spec_event_code()),
    {
        UtpState::from_code(self.code)
    }

    /// Returns the payload buffer. Valid for the read, send and log kinds.
    pub fn buf(&self) -> (r: &Vec<u8>)
        ensures
            r@ == self.spec_buf(),
    {
        &self.buf
    }

    /// Returns the session user state associated with the engine instance the
    /// event came from.
    pub fn user_data(&self) -> (r: &'a T)
        ensures
            *r == self.spec_user_data(),
    {
        self.user
    }

    /// Acknowledges the buffered inbound data as consumed.
    ///
    /// Owed exactly once per read callback: the reentry point forwards the
    /// acknowledgement to the engine after the handler returns, and without
    /// it the engine delivers no further data on the connection.
    pub fn ack_data(&mut self)
        ensures
            final(self).spec_acked(),
            final(self).spec_user_data() == old(self).spec_user_data(),
            final(self).spec_socket_handle() == old(self).spec_socket_handle(),
            final(self).spec_buf() == old(self).spec_buf(),
            final(self).spec_addr_bytes() == old(self).spec_addr_bytes(),
            final(self).spec_event_code() == old(self).spec_event_code(),
    {
        self.acked = true;
    }

    /// Returns whether the handler acknowledged the inbound data: what the
    /// reentry point reads after the handler returns to decide whether to
    /// tell the engine the read was drained.
    pub fn acked(&self) -> (r: bool)
        ensures
            r == self.spec_acked(),
    {
        self.acked
    }

    /// Returns the owning wrapper for the connection the event concerns.
    /// The wrapper closes the connection when its owner releases it.
    pub fn socket(&self) -> (s: UtpSocket)
        ensures
            s.spec_raw() == self.spec_socket_handle(),
    {
        make_utp_socket(self.socket_handle)
    }

    /// Interprets the buffer as a C-style, NUL-terminated string, replacing
    /// invalid UTF-8 with the replacement character. Used for logging-style
    /// callbacks.
    pub fn buf_as_string(&self) -> (r: String)
        ensures
            r@ == lossy_utf8_of(spec_nul_prefix(self.spec_buf())),
    {
        let prefix = nul_terminated_prefix(&self.buf);
        lossy_utf8(&prefix)
    }

    /// Returns the peer-originated failure condition an error event reports,
    /// collapsed to the closed condition set. Valid only for error callbacks.
    pub fn error(&self) -> (e: UtpPeerError)
        ensures
            e == UtpPeerError::spec_from_code(self.spec_event_code()),
    {
        UtpPeerError::from_code(self.code)
    }
}

} // verus!
