//! The messages of the migration protocol.

use vstd::prelude::*;
use crate::address::{Ipv4Addr, MacAddress, SocketAddrV4};
use crate::buffer::DemiBuffer;
use crate::frame::{Ethernet2Header, Ipv4Header};

verus! {

/// How far the handshake about a migration has come.
#[derive(Clone, Copy, Debug, PartialEq, Eq, Structural)]
pub enum MigrationStage {
    /// No message yet.
    NotStarted,
    /// The origin asks for a target.
    PrepareMigration,
    /// The target is ready.
    PrepareMigrationAck,
    /// The target refused.
    Rejected,
}

/// The most payload that one fragment of a message takes: at least one byte.
#[derive(Clone, Copy, Debug)]
pub struct FragmentSize {
    bytes: usize,
}

impl FragmentSize {
    #[verifier::type_invariant]
    spec fn positive(self) -> bool {
        self.bytes > 0
    }

    /// The size in bytes.
    pub closed spec fn spec_get(self) -> nat {
        self.bytes as nat
    }

    /// A size of `bytes`, unless that is none at all.
    pub fn new(bytes: usize) -> (size: Option<Self>)
        ensures
            size is Some <==> bytes > 0,
            size matches Some(s) ==> s.spec_get() == bytes,
    {
        if bytes > 0 {
            Some(FragmentSize { bytes })
        } else {
            None
        }
    }

    /// The size in bytes.
    pub fn get(self) -> (bytes: usize)
        ensures
            bytes == self.spec_get(),
            bytes > 0,
    {
        proof {
            use_type_invariant(&self);
        }
        self.bytes
    }
}

/// The place of a backend in its deployment.
#[derive(Clone, Copy, Debug)]
pub struct TcpMigConstants {
    /// The address of the switch in front of the backends.
    pub frontend_ip: Ipv4Addr,
    /// The link address of that switch.
    pub frontend_mac: MacAddress,
    /// The UDP port of this backend.
    pub self_udp_port: u16,
    /// The UDP port that messages of an origin come from.
    pub origin_port: u16,
    /// The UDP port that messages to a target go to.
    pub target_port: u16,
    /// The most payload that one fragment takes.
    pub max_fragment_size: FragmentSize,
}

/// The header of a migration message.
#[derive(Clone, Copy, Debug, PartialEq, Eq, Structural)]
pub struct TcpMigHeader {
    /// The endpoint of the backend that gives the connection away.
    pub origin: SocketAddrV4,
    /// The client at the other end of the connection.
    pub client: SocketAddrV4,
    /// The number of payload bytes.
    pub payload_length: u32,
    pub stage: MigrationStage,
    pub source_udp_port: u16,
    pub dest_udp_port: u16,
    /// The target asks for the state of the connection.
    pub flag_load: bool,
}

impl TcpMigHeader {
    /// A header without flags.
    pub fn new(
        origin: SocketAddrV4,
        client: SocketAddrV4,
        payload_length: u32,
        stage: MigrationStage,
        source_udp_port: u16,
        dest_udp_port: u16,
    ) -> (hdr: Self)
        ensures
            hdr == (TcpMigHeader {
                origin,
                client,
                payload_length,
                stage,
                source_udp_port,
                dest_udp_port,
                flag_load: false,
            }),
    {
        TcpMigHeader {
            origin,
            client,
            payload_length,
            stage,
            source_udp_port,
            dest_udp_port,
            flag_load: false,
        }
    }

    /// The header with source and destination port exchanged.
    pub open spec fn swapped(self) -> Self {
        TcpMigHeader {
            source_udp_port: self.dest_udp_port,
            dest_udp_port: self.source_udp_port,
            ..self
        }
    }

    /// The header of the answer to this message: it goes back where this one
    /// came from.
    pub open spec fn answer(self, stage: MigrationStage) -> Self {
        TcpMigHeader { stage, ..self.swapped() }
    }

    /// Exchanges source and destination port.
    pub fn swap_src_dst_port(&mut self)
        ensures
            *final(self) == old(self).swapped(),
    {
        let source: u16 = self.source_udp_port;
        self.source_udp_port = self.dest_udp_port;
        self.dest_udp_port = source;
    }
}

/// An answer to an answer goes where the first message went.
pub proof fn law_answer_returns(hdr: TcpMigHeader, there: MigrationStage, back: MigrationStage)
    ensures
        hdr.answer(there).source_udp_port == hdr.dest_udp_port,
        hdr.answer(there).dest_udp_port == hdr.source_udp_port,
        hdr.answer(there).answer(back) == (TcpMigHeader { stage: back, ..hdr }),
{
}

/// A migration message with its frame.
#[derive(Debug)]
pub struct TcpMigSegment {
    pub ethernet2_hdr: Ethernet2Header,
    pub ipv4_hdr: Ipv4Header,
    pub tcpmig_hdr: TcpMigHeader,
    pub data: DemiBuffer,
}

/// What a [`TcpMigSegment`] says.
#[verifier::ext_equal]
pub struct TcpMigSegmentView {
    pub ethernet2_hdr: Ethernet2Header,
    pub ipv4_hdr: Ipv4Header,
    pub tcpmig_hdr: TcpMigHeader,
    pub data: Seq<u8>,
}

impl View for TcpMigSegment {
    type V = TcpMigSegmentView;

    open spec fn view(&self) -> TcpMigSegmentView {
        TcpMigSegmentView {
            ethernet2_hdr: self.ethernet2_hdr,
            ipv4_hdr: self.ipv4_hdr,
            tcpmig_hdr: self.tcpmig_hdr,
            data: self.data@,
        }
    }
}

impl TcpMigSegment {
    /// A message with its frame.
    pub fn new(
        ethernet2_hdr: Ethernet2Header,
        ipv4_hdr: Ipv4Header,
        tcpmig_hdr: TcpMigHeader,
        data: DemiBuffer,
    ) -> (segment: Self)
        ensures
            segment@ == (TcpMigSegmentView {
                ethernet2_hdr,
                ipv4_hdr,
                tcpmig_hdr,
                data: data@,
            }),
    {
        TcpMigSegment { ethernet2_hdr, ipv4_hdr, tcpmig_hdr, data }
    }
}

/// Exchanging the ports of a header touches nothing else, and an answer differs
/// from its message in the stage and the exchanged ports alone.
pub proof fn law_answer_fields(hdr: TcpMigHeader, stage: MigrationStage)
    ensures
        hdr.swapped() == (TcpMigHeader {
            origin: hdr.origin,
            client: hdr.client,
            payload_length: hdr.payload_length,
            stage: hdr.stage,
            source_udp_port: hdr.dest_udp_port,
            dest_udp_port: hdr.source_udp_port,
            flag_load: hdr.flag_load,
        }),
        hdr.answer(stage) == (TcpMigHeader {
            origin: hdr.origin,
            client: hdr.client,
            payload_length: hdr.payload_length,
            stage,
            source_udp_port: hdr.dest_udp_port,
            dest_udp_port: hdr.source_udp_port,
            flag_load: hdr.flag_load,
        }),
{
}

/// A message says what its parts say.
pub proof fn law_segment_parts(segment: TcpMigSegment)
    ensures
        segment@.ethernet2_hdr == segment.ethernet2_hdr,
        segment@.ipv4_hdr == segment.ipv4_hdr,
        segment@.tcpmig_hdr == segment.tcpmig_hdr,
        segment@.data == segment.data@,
{
}

} // verus!
