//! Network addresses as plain values.
use vstd::prelude::*;

verus! {

/// A UDP endpoint: an IPv4 or IPv6 address and a port. An IPv4 address is
/// held in the low 32 bits of `ip`.
#[derive(Clone, Copy, Debug, PartialEq, Eq, Structural)]
pub struct Endpoint {
    pub v6: bool,
    pub ip: u128,
    pub port: u16,
}

impl Endpoint {
    /// An IPv4 endpoint from its four octets and a port.
    pub fn v4(a: u8, b: u8, c: u8, d: u8, port: u16) -> (r: Endpoint)
        ensures
            !r.v6,
            r.ip == (a as int) * 0x1000000 + (b as int) * 0x10000 + (c as int) * 0x100 + d as int,
            r.port == port,
    {
        let ip: u128 = (a as u128) * 0x1000000 + (b as u128) * 0x10000 + (c as u128) * 0x100
            + d as u128;
        Endpoint { v6: false, ip, port }
    }
}

} // verus!
