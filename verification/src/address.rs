//! Addresses and the names of sockets.

use vstd::prelude::*;
use crate::table::Key;

verus! {

/// A link (Ethernet) address.
#[derive(Clone, Copy, Debug, PartialEq, Eq)]
pub struct MacAddress {
    /// The six octets, in the order in which they are sent.
    pub octets: [u8; 6],
}

/// The IPv4 address `a.b.c.d`.
#[derive(Clone, Copy, Debug, PartialEq, Eq, Structural)]
pub struct Ipv4Addr {
    pub a: u8,
    pub b: u8,
    pub c: u8,
    pub d: u8,
}

impl Ipv4Addr {
    /// The address `a.b.c.d`.
    pub fn new(a: u8, b: u8, c: u8, d: u8) -> (addr: Self)
        ensures
            addr == (Ipv4Addr { a, b, c, d }),
    {
        Ipv4Addr { a, b, c, d }
    }

    /// The address as a 32-bit number, the first octet in front.
    pub open spec fn number(self) -> int {
        self.a * 0x100_0000 + self.b * 0x1_0000 + self.c * 0x100 + self.d
    }

    proof fn lemma_number_injective(x: Ipv4Addr, y: Ipv4Addr)
        requires
            x.number() == y.number(),
        ensures
            x == y,
    {
        assert(x.a == y.a);
        assert(x.b == y.b);
        assert(x.c == y.c);
    }

    /// `0.0.0.0`.
    pub open spec fn unspecified(self) -> bool {
        self.number() == 0
    }

    /// `255.255.255.255`.
    pub open spec fn broadcast(self) -> bool {
        self.number() == 0xffff_ffff
    }

    /// `224.0.0.0/4`.
    pub open spec fn multicast(self) -> bool {
        0xe000_0000 <= self.number() < 0xf000_0000
    }

    /// Can no host send from this address?
    pub open spec fn invalid_source(self) -> bool {
        self.broadcast() || self.multicast() || self.unspecified()
    }

    pub fn is_unspecified(&self) -> (b: bool)
        ensures
            b == self.unspecified(),
            b <==> self.a == 0 && self.b == 0 && self.c == 0 && self.d == 0,
    {
        self.a == 0 && self.b == 0 && self.c == 0 && self.d == 0
    }

    pub fn is_broadcast(&self) -> (b: bool)
        ensures
            b == self.broadcast(),
            b <==> self.a == 255 && self.b == 255 && self.c == 255 && self.d == 255,
    {
        self.a == 255 && self.b == 255 && self.c == 255 && self.d == 255
    }

    pub fn is_multicast(&self) -> (b: bool)
        ensures
            b == self.multicast(),
            b <==> 224 <= self.a <= 239,
    {
        224 <= self.a && self.a < 240
    }
}

/// An IPv4 address with a port.
#[derive(Clone, Copy, Debug, PartialEq, Eq, Structural)]
pub struct SocketAddrV4 {
    pub ip: Ipv4Addr,
    pub port: u16,
}

impl SocketAddrV4 {
    /// The endpoint `ip:port`.
    pub fn new(ip: Ipv4Addr, port: u16) -> (addr: Self)
        ensures
            addr == (SocketAddrV4 { ip, port }),
    {
        SocketAddrV4 { ip, port }
    }

    /// Address and port as one 48-bit number.
    pub open spec fn number(self) -> int {
        self.ip.number() * 0x1_0000 + self.port
    }

    fn to_number(self) -> (n: u64)
        ensures
            n == self.number(),
            n < 0x1_0000_0000_0000,
    {
        let ip: u64 = (self.ip.a as u64) * 0x100_0000 + (self.ip.b as u64) * 0x1_0000
            + (self.ip.c as u64) * 0x100 + (self.ip.d as u64);
        ip * 0x1_0000 + (self.port as u64)
    }
}

impl Key for SocketAddrV4 {
    open spec fn code(self) -> u128 {
        self.number() as u128
    }

    fn to_code(self) -> (c: u128) {
        self.to_number() as u128
    }

    proof fn lemma_code_injective(a: Self, b: Self) {
        assert(0 <= a.number() < 0x1_0000_0000_0000);
        assert(0 <= b.number() < 0x1_0000_0000_0000);
        assert(a.code() == a.number() && b.code() == b.number());
        assert(a.number() % 0x1_0000 == a.port);
        assert(b.number() % 0x1_0000 == b.port);
        assert(a.ip.number() == b.ip.number());
        Ipv4Addr::lemma_number_injective(a.ip, b.ip);
    }
}

/// A queue descriptor: the number under which the runtime knows a socket.
#[derive(Clone, Copy, Debug, PartialEq, Eq, Structural)]
pub struct QDesc {
    pub number: u32,
}

/// A handle of a TCP socket. Copies name the same socket.
#[derive(Clone, Copy, Debug, PartialEq, Eq, Structural)]
pub struct SharedTcpSocket {
    pub qd: QDesc,
}

/// The name under which a socket receives segments.
#[derive(Clone, Copy, Debug, PartialEq, Eq, Structural)]
pub enum SocketId {
    /// A connection between a local and a remote endpoint.
    Active(SocketAddrV4, SocketAddrV4),
    /// A local endpoint that takes segments from any remote.
    Passive(SocketAddrV4),
}

impl SocketId {
    /// The local endpoint.
    pub open spec fn local(self) -> SocketAddrV4 {
        match self {
            SocketId::Active(local, _) => local,
            SocketId::Passive(local) => local,
        }
    }

    /// The local endpoint.
    pub fn get_local(&self) -> (local: SocketAddrV4)
        ensures
            local == self.local(),
            *self matches SocketId::Active(l, _) ==> local == l,
            *self matches SocketId::Passive(l) ==> local == l,
    {
        match self {
            SocketId::Active(local, _) => *local,
            SocketId::Passive(local) => *local,
        }
    }
}

impl Key for SocketId {
    open spec fn code(self) -> u128 {
        match self {
            SocketId::Active(local, remote) => (local.number() * 0x1_0000_0000_0000
                + remote.number()) as u128,
            SocketId::Passive(local) => (0x1_0000_0000_0000_0000_0000_0000
                + local.number()) as u128,
        }
    }

    fn to_code(self) -> (c: u128) {
        match self {
            SocketId::Active(local, remote) => {
                let l: u128 = local.to_number() as u128;
                let r: u128 = remote.to_number() as u128;
                l * 0x1_0000_0000_0000 + r
            },
            SocketId::Passive(local) => {
                let l: u128 = local.to_number() as u128;
                0x1_0000_0000_0000_0000_0000_0000 + l
            },
        }
    }

    proof fn lemma_code_injective(a: Self, b: Self) {
        assert forall|x: SocketAddrV4| 0 <= #[trigger] x.number() < 0x1_0000_0000_0000 by {}
        match (a, b) {
            (SocketId::Active(l, r), SocketId::Active(k, s)) => {
                assert(a.code() == l.number() * 0x1_0000_0000_0000 + r.number());
                assert(b.code() == k.number() * 0x1_0000_0000_0000 + s.number());
                assert(l.number() == k.number() && r.number() == s.number());
                SocketAddrV4::lemma_code_injective(l, k);
                SocketAddrV4::lemma_code_injective(r, s);
            },
            (SocketId::Passive(l), SocketId::Passive(k)) => {
                assert(a.code() == 0x1_0000_0000_0000_0000_0000_0000 + l.number());
                assert(b.code() == 0x1_0000_0000_0000_0000_0000_0000 + k.number());
                SocketAddrV4::lemma_code_injective(l, k);
            },
            (SocketId::Active(l, r), SocketId::Passive(k)) => {
                assert(a.code() == l.number() * 0x1_0000_0000_0000 + r.number());
                assert(b.code() == 0x1_0000_0000_0000_0000_0000_0000 + k.number());
            },
            (SocketId::Passive(k), SocketId::Active(l, r)) => {
                assert(b.code() == l.number() * 0x1_0000_0000_0000 + r.number());
                assert(a.code() == 0x1_0000_0000_0000_0000_0000_0000 + k.number());
            },
        }
    }
}

/// The classes of addresses, octet by octet: `0.0.0.0` alone is unspecified,
/// `255.255.255.255` alone is broadcast, and those that begin with 224 to 239 are
/// multicast.
pub proof fn law_address_classes(ip: Ipv4Addr)
    ensures
        ip.unspecified() <==> ip.a == 0 && ip.b == 0 && ip.c == 0 && ip.d == 0,
        ip.broadcast() <==> ip.a == 255 && ip.b == 255 && ip.c == 255 && ip.d == 255,
        ip.multicast() <==> 224 <= ip.a <= 239,
{
}

/// A source is refused exactly when it is `0.0.0.0`, `255.255.255.255` or begins
/// with 224 to 239. Every address that begins with 1 to 223, and every one that
/// begins with 240 to 254, is accepted.
pub proof fn law_refused_sources(ip: Ipv4Addr)
    ensures
        ip.invalid_source() <==> {
            ||| ip.a == 0 && ip.b == 0 && ip.c == 0 && ip.d == 0
            ||| ip.a == 255 && ip.b == 255 && ip.c == 255 && ip.d == 255
            ||| 224 <= ip.a <= 239
        },
        1 <= ip.a <= 223 ==> !ip.invalid_source(),
        240 <= ip.a <= 254 ==> !ip.invalid_source(),
{
}

/// The local endpoint of a name is the one it was made with, whatever the remote.
pub proof fn law_local_of_names(local: SocketAddrV4, remote: SocketAddrV4)
    ensures
        SocketId::Active(local, remote).local() == local,
        SocketId::Passive(local).local() == local,
{
}

} // verus!
