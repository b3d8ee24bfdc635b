//! Plain-value model of a peer socket address.
//!
//! The engine reports a peer address as the raw bytes of a C socket-address
//! structure. The session layer never hands that buffer to callers; it parses
//! the bytes here into an owned address value, and reports `None` for any
//! family outside IPv4 and IPv6.
//!
//! Layout parsed (little-endian hosts): the family occupies the first two
//! bytes in host order; the port follows in network (big-endian) order; an
//! IPv4 address holds its four octets right after the port, while an IPv6
//! address holds its sixteen octets after a four-byte flow label.

use vstd::prelude::*;

verus! {

/// Address-family tag for IPv4.
pub const AF_INET: u16 = 2;

/// Address-family tag for IPv6.
pub const AF_INET6: u16 = 10;

/// Byte length of a full IPv4 socket-address structure.
pub const SOCKADDR_IN_LEN: usize = 16;

/// Byte length of a full IPv6 socket-address structure.
pub const SOCKADDR_IN6_LEN: usize = 28;

/// An IP address held as plain octets.
#[derive(Clone, Copy, Debug, PartialEq, Eq)]
pub enum UtpIpAddr {
    /// An IPv4 address, four octets.
    V4([u8; 4]),
    /// An IPv6 address, sixteen octets.
    V6([u8; 16]),
}

/// A peer socket address: an IP address and a port.
#[derive(Clone, Copy, Debug, PartialEq, Eq)]
pub struct UtpSocketAddr {
    /// The peer's IP address.
    pub ip: UtpIpAddr,
    /// The peer's port, in host order.
    pub port: u16,
}

/// The address family stored in the first two bytes, host (little-endian)
/// order.
pub open spec fn spec_family(b: Seq<u8>) -> int
    recommends
        b.len() >= 2,
{
    b[0] + 256 * b[1]
}

/// The port stored in bytes two and three, network (big-endian) order.
pub open spec fn spec_port(b: Seq<u8>) -> int
    recommends
        b.len() >= 4,
{
    256 * b[2] + b[3]
}

/// Whether raw socket-address bytes parse as an IPv4 address.
pub open spec fn spec_is_v4(b: Seq<u8>) -> bool {
    b.len() >= SOCKADDR_IN_LEN && spec_family(b) == AF_INET
}

/// Whether raw socket-address bytes parse as an IPv6 address.
pub open spec fn spec_is_v6(b: Seq<u8>) -> bool {
    b.len() >= SOCKADDR_IN6_LEN && spec_family(b) == AF_INET6
}

/// Parses the raw bytes of a C socket-address structure.
///
/// Returns the peer address for the IPv4 and IPv6 families and `None` for
/// anything else (an unknown family, or a buffer shorter than the structure
/// its family demands). The returned octets and port are taken byte for byte
/// from the buffer.
pub fn parse_sockaddr(bytes: &Vec<u8>) -> (r: Option<UtpSocketAddr>)
    ensures
        r is Some <==> spec_is_v4(bytes@) || spec_is_v6(bytes@),
        r matches Some(a) ==> a.port == spec_port(bytes@),
        spec_is_v4(bytes@) ==> (r matches Some(a) && a.ip matches UtpIpAddr::V4(o) && o@
            =~= bytes@.subrange(4, 8)),
        spec_is_v6(bytes@) ==> (r matches Some(a) && a.ip matches UtpIpAddr::V6(o) && o@
            =~= bytes@.subrange(8, 24)),
{
    if bytes.len() < 4 {
        return None;
    }
    let family: u16 = bytes[0] as u16 + 256 * (bytes[1] as u16);
    let port: u16 = 256 * (bytes[2] as u16) + bytes[3] as u16;
    if family == AF_INET && bytes.len() >= SOCKADDR_IN_LEN {
        let octets: [u8; 4] = [bytes[4], bytes[5], bytes[6], bytes[7]];
        assert(octets@ =~= bytes@.subrange(4, 8));
        Some(UtpSocketAddr { ip: UtpIpAddr::V4(octets), port })
    } else if family == AF_INET6 && bytes.len() >= SOCKADDR_IN6_LEN {
        let octets: [u8; 16] = [
            bytes[8],
            bytes[9],
            bytes[10],
            bytes[11],
            bytes[12],
            bytes[13],
            bytes[14],
            bytes[15],
            bytes[16],
            bytes[17],
            bytes[18],
            bytes[19],
            bytes[20],
            bytes[21],
            bytes[22],
            bytes[23],
        ];
        assert(octets@ =~= bytes@.subrange(8, 24));
        Some(UtpSocketAddr { ip: UtpIpAddr::V6(octets), port })
    } else {
        None
    }
}

} // verus!
