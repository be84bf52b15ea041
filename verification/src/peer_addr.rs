//! The address a client connected from, as plain integers.

use vstd::prelude::*;

verus! {

/// The socket address of a connected client.
///
/// Two addresses are equal exactly when the socket addresses they stand for
/// are: same family, same IP, same port, and for IPv6 also the same flow
/// label and scope id.  An IPv4 address keeps its four octets in the low
/// 32 bits of `ip`, with `flowinfo` and `scope_id` zero.
#[derive(Clone, Copy, Debug, PartialEq, Eq, Hash, Structural)]
pub struct PeerAddr {
    pub is_ipv6: bool,
    pub ip: u128,
    pub port: u16,
    pub flowinfo: u32,
    pub scope_id: u32,
}

impl PeerAddr {
    /// The address `a.b.c.d:port`.
    pub fn v4(a: u8, b: u8, c: u8, d: u8, port: u16) -> (res: PeerAddr)
        ensures
            !res.is_ipv6,
            res.ip == a as int * 0x1000000 + b as int * 0x10000 + c as int * 0x100 + d as int,
            res.port == port,
            res.flowinfo == 0,
            res.scope_id == 0,
    {
        let ip: u128 = (a as u128) * 0x1000000 + (b as u128) * 0x10000 + (c as u128) * 0x100
            + (d as u128);
        PeerAddr { is_ipv6: false, ip, port, flowinfo: 0, scope_id: 0 }
    }

    /// The IPv6 address with the given 128 bits, port, flow label and scope id.
    pub fn v6(ip: u128, port: u16, flowinfo: u32, scope_id: u32) -> (res: PeerAddr)
        ensures
            res == (PeerAddr { is_ipv6: true, ip, port, flowinfo, scope_id }),
    {
        PeerAddr { is_ipv6: true, ip, port, flowinfo, scope_id }
    }
}

} // verus!
