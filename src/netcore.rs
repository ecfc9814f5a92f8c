use vstd::prelude::*;

verus! {

/// A network-layer address: an IPv4 address as its 32-bit number, or an IPv6
/// address as its 128-bit number.
#[derive(Clone, Copy, Debug, PartialEq, Eq, Structural, PartialOrd, Ord, Hash)]
pub enum L3Addr {
    V4(u32),
    V6(u128),
}

/// The 32-bit number of the IPv4 address `a.b.c.d`.
pub open spec fn v4_number(a: u8, b: u8, c: u8, d: u8) -> u32 {
    ((a as u32) << 24u32) | ((b as u32) << 16u32) | ((c as u32) << 8u32) | (d as u32)
}

impl L3Addr {
    /// The IPv4 address `a.b.c.d`.
    pub fn newv4(a: u8, b: u8, c: u8, d: u8) -> (r: L3Addr)
        ensures
            r == L3Addr::V4(v4_number(a, b, c, d)),
    {
        L3Addr::V4(((a as u32) << 24u32) | ((b as u32) << 16u32) | ((c as u32) << 8u32) | (
        d as u32))
    }
}

/// A transport-layer address: a network address and a port.
#[derive(Clone, Copy, Debug, PartialEq, Eq, Structural, PartialOrd, Ord, Hash)]
pub struct L4Addr {
    pub ip: L3Addr,
    pub port: u16,
}

impl L4Addr {
    pub fn new(ip: L3Addr, port: u16) -> (r: L4Addr)
        ensures
            r == (L4Addr { ip, port }),
    {
        L4Addr { ip, port }
    }

    pub fn ip(&self) -> (r: L3Addr)
        ensures
            r == self.ip,
    {
        self.ip
    }

    pub fn port(&self) -> (r: u16)
        ensures
            r == self.port,
    {
        self.port
    }
}

} // verus!
