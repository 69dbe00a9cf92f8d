//! One migration under way.

use vstd::prelude::*;
use crate::address::{Ipv4Addr, MacAddress, SharedTcpSocket, SocketAddrV4};
use crate::buffer::DemiBuffer;
use crate::fail::{Errno, Fail};
use crate::frame::{EtherType2, Ethernet2Header, IpProtocol, Ipv4Header, TcpHeader};
use crate::tcpmig::peer::TcpmigReceiveStatus;
use crate::tcpmig::segment::{
    MigrationStage, TcpMigConstants, TcpMigHeader, TcpMigSegment, TcpMigSegmentView,
};

verus! {

/// A connection that is being migrated in or out.
#[derive(Debug)]
pub struct ActiveMigration {
    constants: TcpMigConstants,
    local_ipv4_addr: Ipv4Addr,
    local_link_addr: MacAddress,
    remote_ipv4_addr: Ipv4Addr,
    remote_link_addr: MacAddress,
    self_udp_port: u16,
    dest_udp_port: u16,
    origin: SocketAddrV4,
    client: SocketAddrV4,
    last_sent_stage: MigrationStage,
    /// The connection, only on the origin side.
    socket: Option<SharedTcpSocket>,
    recv_queue: Vec<(TcpHeader, DemiBuffer)>,
}

/// What an [`ActiveMigration`] stands for.
#[verifier::ext_equal]
pub struct ActiveMigrationView {
    pub constants: TcpMigConstants,
    pub local_ipv4_addr: Ipv4Addr,
    pub local_link_addr: MacAddress,
    pub remote_ipv4_addr: Ipv4Addr,
    pub remote_link_addr: MacAddress,
    pub self_udp_port: u16,
    pub dest_udp_port: u16,
    pub origin: SocketAddrV4,
    pub client: SocketAddrV4,
    pub last_sent_stage: MigrationStage,
    pub socket: Option<SharedTcpSocket>,
    /// The segments of the connection that came in the meantime, in order.
    pub recv_queue: Seq<(TcpHeader, DemiBuffer)>,
}

impl ActiveMigrationView {
    /// The message with header `hdr` and payload `data`, framed from here to
    /// the remote. The IPv4 header says UDP, which every network card knows.
    pub open spec fn segment(self, hdr: TcpMigHeader, data: Seq<u8>) -> TcpMigSegmentView {
        TcpMigSegmentView {
            ethernet2_hdr: Ethernet2Header {
                dst_addr: self.remote_link_addr,
                src_addr: self.local_link_addr,
                ether_type: EtherType2::Ipv4,
            },
            ipv4_hdr: Ipv4Header {
                src_addr: self.local_ipv4_addr,
                dest_addr: self.remote_ipv4_addr,
                protocol: IpProtocol::Udp,
            },
            tcpmig_hdr: hdr,
            data,
        }
    }

    /// The header of the message that asks for a target.
    pub open spec fn prepare_header(self) -> TcpMigHeader {
        TcpMigHeader {
            origin: self.origin,
            client: self.client,
            payload_length: 0,
            stage: MigrationStage::PrepareMigration,
            source_udp_port: self.constants.origin_port,
            dest_udp_port: self.constants.target_port,
            flag_load: false,
        }
    }

    /// Can a payload of `len` bytes be numbered by fragments?
    pub open spec fn sendable(self, len: nat) -> bool {
        len / self.constants.max_fragment_size.spec_get() <= u16::MAX
    }

    /// Has a message been sent? From then on incoming ones are not answered.
    pub open spec fn waits(self) -> bool {
        self.last_sent_stage != MigrationStage::NotStarted
    }

    /// The header of the answer to the request `hdr`.
    pub open spec fn ack_header(hdr: TcpMigHeader) -> TcpMigHeader {
        TcpMigHeader { flag_load: true, ..hdr.answer(MigrationStage::PrepareMigrationAck) }
    }

    /// The migration after a message of stage `stage` was sent.
    pub open spec fn sent(self, stage: MigrationStage) -> ActiveMigrationView {
        ActiveMigrationView { last_sent_stage: stage, ..self }
    }

    /// The migration after a segment of the connection was put aside.
    pub open spec fn buffered(self, hdr: TcpHeader, data: DemiBuffer) -> ActiveMigrationView {
        ActiveMigrationView { recv_queue: self.recv_queue.push((hdr, data)), ..self }
    }
}

impl View for ActiveMigration {
    type V = ActiveMigrationView;

    closed spec fn view(&self) -> ActiveMigrationView {
        ActiveMigrationView {
            constants: self.constants,
            local_ipv4_addr: self.local_ipv4_addr,
            local_link_addr: self.local_link_addr,
            remote_ipv4_addr: self.remote_ipv4_addr,
            remote_link_addr: self.remote_link_addr,
            self_udp_port: self.self_udp_port,
            dest_udp_port: self.dest_udp_port,
            origin: self.origin,
            client: self.client,
            last_sent_stage: self.last_sent_stage,
            socket: self.socket,
            recv_queue: self.recv_queue@,
        }
    }
}

fn next_header(hdr: TcpMigHeader, next_stage: MigrationStage) -> (answer: TcpMigHeader)
    ensures
        answer == hdr.answer(next_stage),
{
    let mut answer = hdr;
    answer.stage = next_stage;
    answer.swap_src_dst_port();
    answer
}

impl ActiveMigration {
    /// No backend ever rejects, so none waits for a message after a rejection.
    #[verifier::type_invariant]
    spec fn never_rejected(self) -> bool {
        self.last_sent_stage != MigrationStage::Rejected
    }

    /// A migration of the connection between `origin` and `client` that has
    /// sent nothing yet.
    pub fn new(
        constants: TcpMigConstants,
        local_ipv4_addr: Ipv4Addr,
        local_link_addr: MacAddress,
        remote_ipv4_addr: Ipv4Addr,
        remote_link_addr: MacAddress,
        self_udp_port: u16,
        dest_udp_port: u16,
        origin: SocketAddrV4,
        client: SocketAddrV4,
        socket: Option<SharedTcpSocket>,
    ) -> (active: Self)
        ensures
            active@ == (ActiveMigrationView {
                constants,
                local_ipv4_addr,
                local_link_addr,
                remote_ipv4_addr,
                remote_link_addr,
                self_udp_port,
                dest_udp_port,
                origin,
                client,
                last_sent_stage: MigrationStage::NotStarted,
                socket,
                recv_queue: Seq::empty(),
            }),
    {
        ActiveMigration {
            constants,
            local_ipv4_addr,
            local_link_addr,
            remote_ipv4_addr,
            remote_link_addr,
            self_udp_port,
            dest_udp_port,
            origin,
            client,
            last_sent_stage: MigrationStage::NotStarted,
            socket,
            recv_queue: Vec::new(),
        }
    }

    /// The stage of the last message that was sent.
    pub fn last_sent_stage(&self) -> (stage: MigrationStage)
        ensures
            stage == self@.last_sent_stage,
            stage != MigrationStage::Rejected,
    {
        proof {
            use_type_invariant(self);
        }
        self.last_sent_stage
    }

    /// The connection, on the origin side.
    pub fn socket(&self) -> (socket: Option<SharedTcpSocket>)
        ensures
            socket == self@.socket,
    {
        self.socket
    }

    /// The segments that were put aside, in the order in which they came.
    pub fn recv_queue(&self) -> (queue: &Vec<(TcpHeader, DemiBuffer)>)
        ensures
            queue@ == self@.recv_queue,
    {
        &self.recv_queue
    }

    /// Asks for a target. Returns the message to transmit.
    pub fn initiate_migration(&mut self) -> (segment: TcpMigSegment)
        requires
            old(self)@.last_sent_stage == MigrationStage::NotStarted,
        ensures
            final(self)@ == old(self)@.sent(MigrationStage::PrepareMigration),
            segment@ == old(self)@.segment(old(self)@.prepare_header(), Seq::empty()),
    {
        let tcpmig_hdr = TcpMigHeader::new(
            self.origin,
            self.client,
            0,
            MigrationStage::PrepareMigration,
            self.constants.origin_port,
            self.constants.target_port,
        );
        self.last_sent_stage = MigrationStage::PrepareMigration;
        self.send_empty(tcpmig_hdr)
    }

    /// Frames a message from local to remote.
    pub fn send(&self, tcpmig_hdr: TcpMigHeader, buf: DemiBuffer) -> (segment: TcpMigSegment)
        requires
            self@.sendable(buf@.len()),
        ensures
            segment@ == self@.segment(tcpmig_hdr, buf@),
            segment.ethernet2_hdr.dst_addr == self@.remote_link_addr,
            segment.ethernet2_hdr.src_addr == self@.local_link_addr,
            segment.ipv4_hdr.src_addr == self@.local_ipv4_addr,
            segment.ipv4_hdr.dest_addr == self@.remote_ipv4_addr,
            segment.tcpmig_hdr == tcpmig_hdr,
            segment.data@ == buf@,
    {
        let ip_hdr = Ipv4Header::new(self.local_ipv4_addr, self.remote_ipv4_addr, IpProtocol::Udp);
        TcpMigSegment::new(
            Ethernet2Header::new(self.remote_link_addr, self.local_link_addr, EtherType2::Ipv4),
            ip_hdr,
            tcpmig_hdr,
            buf,
        )
    }

    fn send_empty(&self, tcpmig_hdr: TcpMigHeader) -> (segment: TcpMigSegment)
        ensures
            segment@ == self@.segment(tcpmig_hdr, Seq::empty()),
    {
        let buf = DemiBuffer::new(0);
        let _size: usize = self.constants.max_fragment_size.get();
        assert(buf@ =~= Seq::empty());
        assert(0nat / (_size as nat) == 0) by (nonlinear_arith)
            requires
                _size > 0,
        ;
        self.send(tcpmig_hdr, buf)
    }

    /// Puts a segment of the connection aside until the migration is over.
    pub fn buffer_packet(&mut self, hdr: TcpHeader, data: DemiBuffer)
        ensures
            final(self)@ == old(self)@.buffered(hdr, data),
    {
        proof {
            use_type_invariant(&*self);
        }
        let mut queue: Vec<(TcpHeader, DemiBuffer)> = Vec::new();
        std::mem::swap(&mut queue, &mut self.recv_queue);
        queue.push((hdr, data));
        self.recv_queue = queue;
    }

    /// Takes a migration message of this connection. Before anything was sent
    /// only a request is in order, and it is acknowledged: the message to
    /// transmit comes back. Afterwards every message is taken without an answer.
    pub fn process_packet(
        &mut self,
        _ipv4_hdr: &Ipv4Header,
        hdr: TcpMigHeader,
        _buf: DemiBuffer,
    ) -> (outcome: Result<(TcpmigReceiveStatus, Option<TcpMigSegment>), Fail>)
        ensures
            old(self)@.last_sent_stage != MigrationStage::Rejected,
            old(self)@.waits() ==> {
                &&& outcome matches Ok((status, reply))
                &&& status is Handled
                &&& reply is None
                &&& final(self)@ == old(self)@
            },
            !old(self)@.waits() && hdr.stage == MigrationStage::PrepareMigration ==> {
                &&& outcome matches Ok((status, reply))
                &&& status is Handled
                &&& reply matches Some(segment)
                &&& segment@ == old(self)@.segment(
                    ActiveMigrationView::ack_header(hdr),
                    Seq::empty(),
                )
                &&& final(self)@ == old(self)@.sent(MigrationStage::PrepareMigrationAck)
            },
            !old(self)@.waits() && hdr.stage != MigrationStage::PrepareMigration ==> {
                &&& outcome matches Err(fail)
                &&& fail.code == Errno::BadMessage
                &&& fail.cause@ == "expected PREPARE_MIGRATION"@
                &&& final(self)@ == old(self)@
            },
    {
        proof {
            use_type_invariant(&*self);
        }
        match self.last_sent_stage {
            // Expect PREPARE_MIGRATION and send ACK.
            MigrationStage::NotStarted => {
                match hdr.stage {
                    MigrationStage::PrepareMigration => {
                        let mut hdr = next_header(hdr, MigrationStage::PrepareMigrationAck);
                        hdr.flag_load = true;
                        self.last_sent_stage = MigrationStage::PrepareMigrationAck;
                        let segment = self.send_empty(hdr);
                        return Ok((TcpmigReceiveStatus::Handled, Some(segment)));
                    },
                    _ => {
                        return Err(Fail::new(Errno::BadMessage, "expected PREPARE_MIGRATION"));
                    },
                }
            },
            MigrationStage::PrepareMigration => {},
            MigrationStage::PrepareMigrationAck => {},
            MigrationStage::Rejected => {
                assert(false);
            },
        }
        Ok((TcpmigReceiveStatus::Handled, None))
    }
}

/// Once a message was sent, whether a request or an answer, no message is
/// answered any more: a target acknowledges one request at most.
pub proof fn law_answers_once(migration: ActiveMigrationView)
    ensures
        migration.sent(MigrationStage::PrepareMigration).waits(),
        migration.sent(MigrationStage::PrepareMigrationAck).waits(),
{
}

/// Every message of a migration, whatever its header and payload, goes from the
/// local link and IPv4 address to the remote ones, as IPv4 and as UDP, and carries
/// that header and that payload.
pub proof fn law_every_message_goes_to_the_remote(
    migration: ActiveMigrationView,
    hdr: TcpMigHeader,
    data: Seq<u8>,
)
    ensures
        ({
            let segment = migration.segment(hdr, data);
            &&& segment.ethernet2_hdr.dst_addr == migration.remote_link_addr
            &&& segment.ethernet2_hdr.src_addr == migration.local_link_addr
            &&& segment.ethernet2_hdr.ether_type == EtherType2::Ipv4
            &&& segment.ipv4_hdr.src_addr == migration.local_ipv4_addr
            &&& segment.ipv4_hdr.dest_addr == migration.remote_ipv4_addr
            &&& segment.ipv4_hdr.protocol == IpProtocol::Udp
            &&& segment.tcpmig_hdr == hdr
            &&& segment.data == data
        }),
{
}

/// A request names the connection and comes without a payload and without flags,
/// from the origin's port to the target's.
pub proof fn law_request_fields(migration: ActiveMigrationView)
    ensures
        migration.prepare_header() == (TcpMigHeader {
            origin: migration.origin,
            client: migration.client,
            payload_length: 0,
            stage: MigrationStage::PrepareMigration,
            source_udp_port: migration.constants.origin_port,
            dest_udp_port: migration.constants.target_port,
            flag_load: false,
        }),
{
}

/// An acknowledgement names the connection of its request, goes back between the
/// same ports, and asks for the state.
pub proof fn law_ack_fields(hdr: TcpMigHeader)
    ensures
        ActiveMigrationView::ack_header(hdr) == (TcpMigHeader {
            origin: hdr.origin,
            client: hdr.client,
            payload_length: hdr.payload_length,
            stage: MigrationStage::PrepareMigrationAck,
            source_udp_port: hdr.dest_udp_port,
            dest_udp_port: hdr.source_udp_port,
            flag_load: true,
        }),
{
}

/// Sending changes the stage alone, and putting a segment aside lengthens the queue
/// by that segment alone, at its end. A migration answers until it has sent.
pub proof fn law_migration_steps(
    migration: ActiveMigrationView,
    stage: MigrationStage,
    hdr: TcpHeader,
    data: DemiBuffer,
)
    ensures
        migration.sent(stage).last_sent_stage == stage,
        migration.sent(stage) == (ActiveMigrationView { last_sent_stage: stage, ..migration }),
        ({
            let before = migration.recv_queue;
            let after = migration.buffered(hdr, data).recv_queue;
            &&& after.len() == before.len() + 1
            &&& after[before.len() as int] == (hdr, data)
            &&& forall|i: int| 0 <= i < before.len() ==> #[trigger] after[i] == before[i]
            &&& migration.buffered(hdr, data) == (ActiveMigrationView {
                recv_queue: after,
                ..migration
            })
        }),
        migration.waits() <==> migration.last_sent_stage != MigrationStage::NotStarted,
{
}

/// A payload can be sent as long as it takes at most 65535 whole fragments.
pub proof fn law_sendable(migration: ActiveMigrationView, len: nat)
    ensures
        migration.sendable(len) <==> len / migration.constants.max_fragment_size.spec_get()
            <= 65535,
{
}

} // verus!
