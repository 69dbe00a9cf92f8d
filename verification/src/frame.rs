//! The headers that the peers read and write.

use vstd::prelude::*;
use crate::address::{Ipv4Addr, MacAddress};

verus! {

/// What an Ethernet frame carries.
#[derive(Clone, Copy, Debug, PartialEq, Eq, Structural)]
pub enum EtherType2 {
    Arp,
    Ipv4,
}

/// An Ethernet header.
#[derive(Clone, Copy, Debug, PartialEq, Eq)]
pub struct Ethernet2Header {
    pub dst_addr: MacAddress,
    pub src_addr: MacAddress,
    pub ether_type: EtherType2,
}

impl Ethernet2Header {
    /// The header of a frame from `src_addr` to `dst_addr`.
    pub fn new(dst_addr: MacAddress, src_addr: MacAddress, ether_type: EtherType2) -> (hdr: Self)
        ensures
            hdr == (Ethernet2Header { dst_addr, src_addr, ether_type }),
    {
        Ethernet2Header { dst_addr, src_addr, ether_type }
    }
}

/// What an IPv4 packet carries.
#[derive(Clone, Copy, Debug, PartialEq, Eq, Structural)]
pub enum IpProtocol {
    Icmpv4,
    Tcp,
    Udp,
}

/// The part of an IPv4 header that the peers read and write.
#[derive(Clone, Copy, Debug, PartialEq, Eq, Structural)]
pub struct Ipv4Header {
    pub src_addr: Ipv4Addr,
    pub dest_addr: Ipv4Addr,
    pub protocol: IpProtocol,
}

impl Ipv4Header {
    /// The header of a packet from `src_addr` to `dest_addr`.
    pub fn new(src_addr: Ipv4Addr, dest_addr: Ipv4Addr, protocol: IpProtocol) -> (hdr: Self)
        ensures
            hdr == (Ipv4Header { src_addr, dest_addr, protocol }),
    {
        Ipv4Header { src_addr, dest_addr, protocol }
    }
}

/// A TCP header. The peer reads the ports; the rest is for the socket.
#[derive(Debug)]
pub struct TcpHeader {
    pub src_port: u16,
    pub dst_port: u16,
    /// The octets of the header that follow the ports.
    pub rest: Vec<u8>,
}

} // verus!
