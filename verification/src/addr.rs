//! Peer addresses: a network endpoint, held as plain integers.

use vstd::prelude::*;
use vstd::std_specs::convert::FromSpecImpl;

verus! {

/// The address of a peer: an IP address and a port.
///
/// An IPv4 address is held as its 32 bits, an IPv6 address as its 128 bits,
/// the first octet being the most significant. Two addresses are equal when
/// they are of the same family and all their parts are equal.
#[derive(Clone, Copy, Debug, PartialEq, Eq, Hash, Structural)]
pub enum PeerAddr {
    V4 { ip4: u32, port: u16 },
    V6 { ip6: u128, port: u16, flowinfo: u32, scope_id: u32 },
}

/// The 32 bits of the IPv4 address `a.b.c.d`.
pub open spec fn ipv4_bits(a: u8, b: u8, c: u8, d: u8) -> int {
    a * 0x100_0000 + b * 0x1_0000 + c * 0x100 + d
}

/// The IPv4 endpoint `octets[0].octets[1].octets[2].octets[3]:port`.
pub open spec fn ipv4_endpoint(octets: [u8; 4], port: u16) -> PeerAddr {
    PeerAddr::V4 {
        ip4: ipv4_bits(octets[0], octets[1], octets[2], octets[3]) as u32,
        port,
    }
}

/// The bits of an IPv4 address fit in 32 bits, and addresses that differ in an
/// octet differ in their bits.
pub proof fn lemma_ipv4_bits_distinct(a: u8, b: u8, c: u8, d: u8, e: u8, f: u8, g: u8, h: u8)
    ensures
        0 <= ipv4_bits(a, b, c, d) <= u32::MAX,
        ipv4_bits(a, b, c, d) == ipv4_bits(e, f, g, h) ==> a == e && b == f && c == g && d == h,
{
}

impl PeerAddr {
    /// The IPv4 endpoint `octets[0].octets[1].octets[2].octets[3]:port`.
    pub fn from_octets(octets: [u8; 4], port: u16) -> (addr: Self)
        ensures
            addr == ipv4_endpoint(octets, port),
    {
        let a: u32 = octets[0] as u32;
        let b: u32 = octets[1] as u32;
        let c: u32 = octets[2] as u32;
        let d: u32 = octets[3] as u32;
        PeerAddr::V4 { ip4: a * 0x100_0000 + b * 0x1_0000 + c * 0x100 + d, port }
    }
}

impl From<([u8; 4], u16)> for PeerAddr {
    /// The IPv4 endpoint of four octets and a port.
    fn from(endpoint: ([u8; 4], u16)) -> (addr: PeerAddr) {
        PeerAddr::from_octets(endpoint.0, endpoint.1)
    }
}

impl FromSpecImpl<([u8; 4], u16)> for PeerAddr {
    open spec fn obeys_from_spec() -> bool {
        true
    }

    open spec fn from_spec(endpoint: ([u8; 4], u16)) -> PeerAddr {
        ipv4_endpoint(endpoint.0, endpoint.1)
    }
}

} // verus!
