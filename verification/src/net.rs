//! Addresses of peers.
use vstd::prelude::*;

verus! {

/// An IPv4 address, most significant octet first.
#[derive(Debug, Clone, Copy, PartialEq, Eq, Structural)]
pub struct Ipv4Addr {
    pub a: u8,
    pub b: u8,
    pub c: u8,
    pub d: u8,
}

impl Ipv4Addr {
    pub fn new(a: u8, b: u8, c: u8, d: u8) -> (r: Ipv4Addr)
        ensures
            r == (Ipv4Addr { a, b, c, d }),
    {
        Ipv4Addr { a, b, c, d }
    }

    /// The address as a number: addresses are ordered by it.
    pub open spec fn value(self) -> int {
        self.a * 0x100_0000 + self.b * 0x1_0000 + self.c * 0x100 + self.d
    }

    /// The four octets in the order in which they are written.
    pub open spec fn octets(self) -> Seq<u8> {
        seq![self.a, self.b, self.c, self.d]
    }

    /// Whether `self` is the greater address.
    pub fn is_above(&self, other: &Ipv4Addr) -> (r: bool)
        ensures
            r == (self.value() > other.value()),
    {
        let x: u32 = self.a as u32 * 0x100_0000 + self.b as u32 * 0x1_0000 + self.c as u32 * 0x100
            + self.d as u32;
        let y: u32 = other.a as u32 * 0x100_0000 + other.b as u32 * 0x1_0000 + other.c as u32
            * 0x100 + other.d as u32;
        x > y
    }
}

/// Distinct IPv4 addresses have distinct numbers.
pub proof fn ipv4_value_injective(x: Ipv4Addr, y: Ipv4Addr)
    requires
        x.value() == y.value(),
    ensures
        x == y,
{
}

/// An IPv4 address with a port.
#[derive(Debug, Clone, Copy, PartialEq, Eq, Structural)]
pub struct SocketAddrV4 {
    pub ip: Ipv4Addr,
    pub port: u16,
}

/// An IPv6 address with a port.
#[derive(Debug, Clone, Copy, PartialEq, Eq, Structural)]
pub struct SocketAddrV6 {
    pub ip: u128,
    pub port: u16,
    pub flowinfo: u32,
    pub scope_id: u32,
}

/// Where a packet came from or goes to.
#[derive(Debug, Clone, Copy, PartialEq, Eq, Structural)]
pub enum SocketAddr {
    V4(SocketAddrV4),
    V6(SocketAddrV6),
}

/// IPv4 addresses are compared by their octets, the first one that differs deciding.
pub proof fn first_octet_decides(x: Ipv4Addr, y: Ipv4Addr, r: bool)
    requires
        call_ensures(Ipv4Addr::is_above, (&x, &y), r),
    ensures
        x.a != y.a ==> (r <==> x.a > y.a),
        x.a == y.a && x.b != y.b ==> (r <==> x.b > y.b),
        x.a == y.a && x.b == y.b && x.c != y.c ==> (r <==> x.c > y.c),
        x.a == y.a && x.b == y.b && x.c == y.c ==> (r <==> x.d > y.d),
{
}

} // verus!
