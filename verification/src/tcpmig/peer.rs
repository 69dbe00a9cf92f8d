//! The migrations of one backend.

use vstd::prelude::*;
use crate::address::{Ipv4Addr, MacAddress, SharedTcpSocket, SocketAddrV4};
use crate::buffer::DemiBuffer;
use crate::fail::Fail;
use crate::frame::TcpHeader;
use crate::table::Table;
use crate::tcp::state::TcpState;
use crate::tcpmig::active::{ActiveMigration, ActiveMigrationView};
use crate::tcpmig::pacer::{
    count_after, law_period_ends_at_multiples, next_count, MigrationPacer, MIGRATION_PERIOD,
};
use crate::tcpmig::segment::{
    MigrationStage, TcpMigConstants, TcpMigHeader, TcpMigSegment, TcpMigSegmentView,
};

verus! {

/// What a migration message led to.
#[derive(Debug)]
pub enum TcpmigReceiveStatus {
    /// Nothing is left to do.
    Handled,
    /// A request was refused.
    SentReject,
    /// The target refused to take the connection from local to remote.
    Rejected(SocketAddrV4, SocketAddrV4),
    /// The switch sent the request for the connection from local to remote
    /// back to its origin.
    ReturnedBySwitch(SocketAddrV4, SocketAddrV4),
    /// The target takes the connection from local to remote.
    PrepareMigrationAcked(SocketAddrV4, SocketAddrV4),
    /// A connection arrived.
    StateReceived(TcpState),
}

/// The name of a state object that an application registered.
#[derive(Clone, Copy, Debug, PartialEq, Eq, Structural)]
pub struct ApplicationStateId {
    pub number: u64,
}

/// The application's own state of a connection.
#[derive(Debug)]
pub enum MigratedApplicationState {
    /// There is none.
    Absent,
    /// The application registered one, to go along.
    Registered(ApplicationStateId),
    /// One came along.
    MigratedIn(DemiBuffer),
}

impl Default for MigratedApplicationState {
    fn default() -> (state: Self)
        ensures
            state is Absent,
    {
        MigratedApplicationState::Absent
    }
}

/// TCPMig peer.
pub struct TcpMigPeer {
    constants: TcpMigConstants,
    /// Local link address.
    local_link_addr: MacAddress,
    /// Local IPv4 address.
    local_ipv4_addr: Ipv4Addr,
    /// Connections being actively migrated in/out, by remote.
    active_migrations: Table<SocketAddrV4, ActiveMigration>,
    incoming_user_data: Table<SocketAddrV4, DemiBuffer>,
    self_udp_port: u16,
    /// By remote.
    application_state: Table<SocketAddrV4, MigratedApplicationState>,
    /// For testing: a delay other than zero switches migration off.
    additional_mig_delay: u32,
}

/// What a [`TcpMigPeer`] stands for.
#[verifier::ext_equal]
pub struct TcpMigPeerView {
    pub constants: TcpMigConstants,
    pub local_link_addr: MacAddress,
    pub local_ipv4_addr: Ipv4Addr,
    pub active_migrations: Map<SocketAddrV4, ActiveMigrationView>,
    pub incoming_user_data: Map<SocketAddrV4, DemiBuffer>,
    pub self_udp_port: u16,
    pub application_state: Map<SocketAddrV4, MigratedApplicationState>,
    pub additional_mig_delay: u32,
}

/// The UDP port of the other backend of a pair.
pub open spec fn other_udp_port(port: u16) -> u16 {
    if port == 10001 {
        10000
    } else {
        10001
    }
}

impl TcpMigPeerView {
    /// A peer without migrations.
    pub open spec fn fresh(
        constants: TcpMigConstants,
        local_link_addr: MacAddress,
        local_ipv4_addr: Ipv4Addr,
        additional_mig_delay: u32,
    ) -> TcpMigPeerView {
        TcpMigPeerView {
            constants,
            local_link_addr,
            local_ipv4_addr,
            active_migrations: Map::empty(),
            incoming_user_data: Map::empty(),
            self_udp_port: constants.self_udp_port,
            application_state: Map::empty(),
            additional_mig_delay,
        }
    }

    /// A migration of the connection between `origin` and `client`, through
    /// the switch, that has sent nothing yet.
    pub open spec fn new_migration(
        self,
        dest_udp_port: u16,
        origin: SocketAddrV4,
        client: SocketAddrV4,
        socket: Option<SharedTcpSocket>,
    ) -> ActiveMigrationView {
        ActiveMigrationView {
            constants: self.constants,
            local_ipv4_addr: self.local_ipv4_addr,
            local_link_addr: self.local_link_addr,
            remote_ipv4_addr: self.constants.frontend_ip,
            remote_link_addr: self.constants.frontend_mac,
            self_udp_port: self.self_udp_port,
            dest_udp_port,
            origin,
            client,
            last_sent_stage: MigrationStage::NotStarted,
            socket,
            recv_queue: Seq::empty(),
        }
    }

    /// The migration that this backend begins as the origin.
    pub open spec fn outgoing(
        self,
        socket: SharedTcpSocket,
        local: SocketAddrV4,
        remote: SocketAddrV4,
    ) -> ActiveMigrationView {
        self.new_migration(other_udp_port(self.self_udp_port), local, remote, Some(socket))
    }

    /// The peer after `migration` was entered under `remote`.
    pub open spec fn with_migration(
        self,
        remote: SocketAddrV4,
        migration: ActiveMigrationView,
    ) -> TcpMigPeerView {
        TcpMigPeerView {
            active_migrations: self.active_migrations.insert(remote, migration),
            ..self
        }
    }

    /// The peer after the migration of `remote` was struck out.
    pub open spec fn without_migration(self, remote: SocketAddrV4) -> TcpMigPeerView {
        TcpMigPeerView { active_migrations: self.active_migrations.remove(remote), ..self }
    }

    /// Is a connection of `remote` being migrated?
    pub open spec fn migrating(self, remote: SocketAddrV4) -> bool {
        self.active_migrations.contains_key(remote)
    }

    /// The peer after it began to migrate a connection out.
    pub open spec fn initiated(
        self,
        socket: SharedTcpSocket,
        local: SocketAddrV4,
        remote: SocketAddrV4,
    ) -> TcpMigPeerView {
        self.with_migration(
            remote,
            self.outgoing(socket, local, remote).sent(MigrationStage::PrepareMigration),
        )
    }

    /// The request that goes out when it begins to migrate a connection out.
    pub open spec fn request(
        self,
        socket: SharedTcpSocket,
        local: SocketAddrV4,
        remote: SocketAddrV4,
    ) -> TcpMigSegmentView {
        let migration = self.outgoing(socket, local, remote);
        migration.segment(migration.prepare_header(), Seq::empty())
    }

    /// Is `hdr` a request about a client that has a migration here already? It is
    /// taken for one that the switch sent back.
    pub open spec fn returned(self, hdr: TcpMigHeader) -> bool {
        hdr.stage == MigrationStage::PrepareMigration && self.migrating(hdr.client)
    }

    /// The peer after the message `hdr` came.
    pub open spec fn received(self, hdr: TcpMigHeader) -> TcpMigPeerView {
        if hdr.stage != MigrationStage::PrepareMigration {
            self
        } else if self.migrating(hdr.client) {
            self.without_migration(hdr.client)
        } else {
            self.with_migration(
                hdr.client,
                self.new_migration(hdr.origin.port, hdr.origin, hdr.client, None),
            )
        }
    }

    /// The peer after a segment from `remote` was put aside.
    pub open spec fn buffered(
        self,
        remote: SocketAddrV4,
        hdr: TcpHeader,
        data: DemiBuffer,
    ) -> TcpMigPeerView {
        self.with_migration(remote, self.active_migrations[remote].buffered(hdr, data))
    }

    /// The count of segments after one more, which is not counted while
    /// migration is switched off.
    pub open spec fn next_count(self, count: int) -> int {
        if self.additional_mig_delay != 0 {
            count
        } else {
            next_count(count)
        }
    }

    /// Is the next segment, at `count`, one to migrate on?
    pub open spec fn due(self, count: int) -> bool {
        self.additional_mig_delay == 0 && next_count(count) == MIGRATION_PERIOD
    }
}

impl View for TcpMigPeer {
    type V = TcpMigPeerView;

    closed spec fn view(&self) -> TcpMigPeerView {
        TcpMigPeerView {
            constants: self.constants,
            local_link_addr: self.local_link_addr,
            local_ipv4_addr: self.local_ipv4_addr,
            active_migrations: self.active_migrations@.map_values(|m: ActiveMigration| m@),
            incoming_user_data: self.incoming_user_data@,
            self_udp_port: self.self_udp_port,
            application_state: self.application_state@,
            additional_mig_delay: self.additional_mig_delay,
        }
    }
}

impl TcpMigPeer {
    /// Creates a TCPMig peer.
    pub fn new(
        constants: TcpMigConstants,
        local_link_addr: MacAddress,
        local_ipv4_addr: Ipv4Addr,
        additional_mig_delay: u32,
    ) -> (peer: Self)
        ensures
            peer@ == TcpMigPeerView::fresh(
                constants,
                local_link_addr,
                local_ipv4_addr,
                additional_mig_delay,
            ),
    {
        let peer = TcpMigPeer {
            constants,
            local_link_addr,
            local_ipv4_addr,
            active_migrations: Table::new(),
            incoming_user_data: Table::new(),
            self_udp_port: constants.self_udp_port,
            application_state: Table::new(),
            additional_mig_delay,
        };
        assert(peer@.active_migrations =~= Map::empty());
        peer
    }

    /// Counts a segment. Is it one to migrate on?
    pub fn should_migrate(&self, pacer: &mut MigrationPacer) -> (migrate: bool)
        ensures
            migrate == self@.due(old(pacer)@),
            final(pacer)@ == self@.next_count(old(pacer)@),
            migrate <==> self@.additional_mig_delay == 0 && old(pacer)@ == 14,
    {
        if self.additional_mig_delay != 0 {
            return false;
        }
        pacer.tick()
    }

    /// Is a connection of `remote` being migrated?
    pub fn is_migrating(&self, remote: SocketAddrV4) -> (b: bool)
        ensures
            b == self@.migrating(remote),
    {
        self.active_migrations.contains_key(remote)
    }

    /// The migration of a connection of `remote`.
    pub fn migration(&self, remote: SocketAddrV4) -> (migration: Option<&ActiveMigration>)
        ensures
            migration is Some <==> self@.migrating(remote),
            migration matches Some(m) ==> m@ == self@.active_migrations[remote],
    {
        self.active_migrations.get(remote)
    }

    /// Begins to migrate the connection between `local` and `remote` out.
    /// Returns the request to transmit.
    pub fn initiate_migration(
        &mut self,
        socket: SharedTcpSocket,
        local: SocketAddrV4,
        remote: SocketAddrV4,
    ) -> (segment: TcpMigSegment)
        requires
            !old(self)@.migrating(remote),
        ensures
            final(self)@ == old(self)@.initiated(socket, local, remote),
            segment@ == old(self)@.request(socket, local, remote),
    {
        let dest_udp_port: u16 = if self.self_udp_port == 10001 {
            10000
        } else {
            10001
        };
        let mut active = ActiveMigration::new(
            self.constants,
            self.local_ipv4_addr,
            self.local_link_addr,
            self.constants.frontend_ip,
            self.constants.frontend_mac,
            self.self_udp_port,
            dest_udp_port,
            local,
            remote,
            Some(socket),
        );
        let segment = active.initiate_migration();
        self.active_migrations.insert(remote, active);
        assert(self@.active_migrations =~= old(self)@.initiated(
            socket,
            local,
            remote,
        ).active_migrations);
        segment
    }

    /// Takes a migration message. A request about a client without a migration
    /// here opens one. A request about a client that has one ends it, whoever sent
    /// it: it is taken for this backend's own, which the switch sends back when no
    /// other backend has less to do.
    pub fn receive(&mut self, message: Result<(TcpMigHeader, DemiBuffer), Fail>) -> (status: Result<
        TcpmigReceiveStatus,
        Fail,
    >)
        ensures
            message matches Ok((hdr, _)) ==> (hdr.stage != MigrationStage::PrepareMigration
                ==> final(self)@ == old(self)@ && status is Ok && status.unwrap() is Handled),
            match message {
                Err(fail) => status == Err::<TcpmigReceiveStatus, Fail>(fail) && final(self)@
                    == old(self)@,
                Ok((hdr, _)) => {
                    &&& final(self)@ == old(self)@.received(hdr)
                    &&& status == Ok::<TcpmigReceiveStatus, Fail>(
                        if old(self)@.returned(hdr) {
                            TcpmigReceiveStatus::ReturnedBySwitch(hdr.origin, hdr.client)
                        } else {
                            TcpmigReceiveStatus::Handled
                        },
                    )
                },
            },
    {
        let (hdr, _buf) = match message {
            Ok(parsed) => parsed,
            Err(fail) => {
                return Err(fail);
            },
        };
        let remote = hdr.client;

        // First packet that target receives.
        if hdr.stage == MigrationStage::PrepareMigration {
            let active = ActiveMigration::new(
                self.constants,
                self.local_ipv4_addr,
                self.local_link_addr,
                self.constants.frontend_ip,
                self.constants.frontend_mac,
                self.self_udp_port,
                hdr.origin.port,
                hdr.origin,
                hdr.client,
                None,
            );
            if self.active_migrations.insert(remote, active).is_some() {
                self.active_migrations.remove(remote);
                assert(self@.active_migrations =~= old(self)@.received(hdr).active_migrations);
                return Ok(TcpmigReceiveStatus::ReturnedBySwitch(hdr.origin, hdr.client));
            }
            assert(self@.active_migrations =~= old(self)@.received(hdr).active_migrations);
        }
        Ok(TcpmigReceiveStatus::Handled)
    }

    /// Puts a segment aside if a connection of its sender is being migrated,
    /// and hands it back if not.
    pub fn try_buffer_packet(
        &mut self,
        remote: SocketAddrV4,
        hdr: TcpHeader,
        data: DemiBuffer,
    ) -> (outcome: Result<(), (TcpHeader, DemiBuffer)>)
        ensures
            old(self)@.migrating(remote) ==> {
                &&& outcome is Ok
                &&& final(self)@ == old(self)@.buffered(remote, hdr, data)
            },
            !old(self)@.migrating(remote) ==> {
                &&& outcome == Err::<(), (TcpHeader, DemiBuffer)>((hdr, data))
                &&& final(self)@ == old(self)@
            },
    {
        match self.active_migrations.remove(remote) {
            Some(mut active) => {
                active.buffer_packet(hdr, data);
                self.active_migrations.insert(remote, active);
                assert(self@.active_migrations =~= old(self)@.buffered(
                    remote,
                    hdr,
                    data,
                ).active_migrations);
                Ok(())
            },
            None => {
                assert(self@.active_migrations =~= old(self)@.active_migrations);
                Err((hdr, data))
            },
        }
    }
}

impl TcpMigPeerView {
    /// Is `migration` one that this backend opened for `remote`, by asking for a
    /// target or because it was asked to be one?
    pub open spec fn owns(self, remote: SocketAddrV4, migration: ActiveMigrationView) -> bool {
        &&& migration.client == remote
        &&& migration.constants == self.constants
        &&& migration.local_ipv4_addr == self.local_ipv4_addr
        &&& migration.local_link_addr == self.local_link_addr
        &&& migration.remote_ipv4_addr == self.constants.frontend_ip
        &&& migration.remote_link_addr == self.constants.frontend_mac
        &&& migration.self_udp_port == self.self_udp_port
        &&& match migration.socket {
            Some(_) => migration.last_sent_stage == MigrationStage::PrepareMigration
                && migration.dest_udp_port == other_udp_port(self.self_udp_port),
            None => migration.last_sent_stage == MigrationStage::NotStarted
                && migration.dest_udp_port == migration.origin.port,
        }
    }

    /// Every migration stands under its client and is one that this backend
    /// opened. No application state has arrived.
    pub open spec fn consistent(self) -> bool {
        &&& forall|remote: SocketAddrV4| #[trigger]
            self.active_migrations.contains_key(remote) ==> self.owns(
                remote,
                self.active_migrations[remote],
            )
        &&& self.incoming_user_data == Map::<SocketAddrV4, DemiBuffer>::empty()
        &&& self.application_state == Map::<SocketAddrV4, MigratedApplicationState>::empty()
    }
}

/// A new peer is consistent.
pub proof fn law_fresh_is_consistent(
    constants: TcpMigConstants,
    local_link_addr: MacAddress,
    local_ipv4_addr: Ipv4Addr,
    additional_mig_delay: u32,
)
    ensures
        TcpMigPeerView::fresh(
            constants,
            local_link_addr,
            local_ipv4_addr,
            additional_mig_delay,
        ).consistent(),
{
}

/// Beginning a migration keeps the peer consistent.
pub proof fn law_initiate_keeps_consistent(
    peer: TcpMigPeerView,
    socket: SharedTcpSocket,
    local: SocketAddrV4,
    remote: SocketAddrV4,
)
    requires
        peer.consistent(),
    ensures
        peer.initiated(socket, local, remote).consistent(),
{
    let after = peer.initiated(socket, local, remote);
    assert forall|r: SocketAddrV4| #[trigger]
        after.active_migrations.contains_key(r) implies after.owns(
        r,
        after.active_migrations[r],
    ) by {
        if r != remote {
            assert(peer.active_migrations.contains_key(r));
        }
    }
}

/// Taking a message keeps the peer consistent.
pub proof fn law_receive_keeps_consistent(peer: TcpMigPeerView, hdr: TcpMigHeader)
    requires
        peer.consistent(),
    ensures
        peer.received(hdr).consistent(),
{
    let after = peer.received(hdr);
    assert forall|r: SocketAddrV4| #[trigger]
        after.active_migrations.contains_key(r) implies after.owns(
        r,
        after.active_migrations[r],
    ) by {
        if r != hdr.client {
            assert(peer.active_migrations.contains_key(r));
        }
    }
}

/// Putting a segment aside keeps the peer consistent.
pub proof fn law_buffer_keeps_consistent(
    peer: TcpMigPeerView,
    remote: SocketAddrV4,
    hdr: TcpHeader,
    data: DemiBuffer,
)
    requires
        peer.consistent(),
        peer.migrating(remote),
    ensures
        peer.buffered(remote, hdr, data).consistent(),
{
    let after = peer.buffered(remote, hdr, data);
    assert(peer.owns(remote, peer.active_migrations[remote]));
    assert forall|r: SocketAddrV4| #[trigger]
        after.active_migrations.contains_key(r) implies after.owns(
        r,
        after.active_migrations[r],
    ) by {
        if r != remote {
            assert(peer.active_migrations.contains_key(r));
        }
    }
}

/// A message changes nothing about the connections of other clients.
pub proof fn law_receive_is_local(peer: TcpMigPeerView, hdr: TcpMigHeader, other: SocketAddrV4)
    requires
        other != hdr.client,
    ensures
        peer.received(hdr).migrating(other) == peer.migrating(other),
        peer.migrating(other) ==> peer.received(hdr).active_migrations[other]
            == peer.active_migrations[other],
{
}

/// With a delay set, no segment is one to migrate on, and none is counted.
pub proof fn law_delay_switches_off(peer: TcpMigPeerView, count: int)
    requires
        peer.additional_mig_delay != 0,
    ensures
        !peer.due(count),
        peer.next_count(count) == count,
{
}

/// Without a delay, exactly every fifteenth segment that a new counter sees is
/// one to migrate on.
pub proof fn law_due_on_every_fifteenth(peer: TcpMigPeerView, n: nat)
    requires
        peer.additional_mig_delay == 0,
    ensures
        peer.next_count(count_after(n)) == count_after(n + 1),
        peer.due(count_after(n)) <==> (n + 1) % 15 == 0,
{
    law_period_ends_at_multiples(n + 1);
}

/// The answer of a target to a request goes back to where the request came
/// from, names the same connection, and asks for its state.
pub proof fn law_request_is_answered(
    peer: TcpMigPeerView,
    socket: SharedTcpSocket,
    local: SocketAddrV4,
    remote: SocketAddrV4,
)
    ensures
        ({
            let request = peer.request(socket, local, remote).tcpmig_hdr;
            let ack = ActiveMigrationView::ack_header(request);
            &&& ack.stage == MigrationStage::PrepareMigrationAck
            &&& ack.origin == local
            &&& ack.client == remote
            &&& ack.source_udp_port == request.dest_udp_port
            &&& ack.dest_udp_port == request.source_udp_port
            &&& ack.flag_load
        }),
{
}

/// A second request about one client undoes the first: the target that they came
/// to takes it for a returned one, and is as it was before.
pub proof fn law_second_request_undoes(
    peer: TcpMigPeerView,
    first: TcpMigHeader,
    second: TcpMigHeader,
)
    requires
        !peer.migrating(first.client),
        first.stage == MigrationStage::PrepareMigration,
        second.stage == MigrationStage::PrepareMigration,
        first.client == second.client,
    ensures
        !peer.returned(first),
        peer.received(first).returned(second),
        peer.received(first).received(second) == peer,
{
    assert(peer.received(first).received(second).active_migrations =~= peer.active_migrations);
}

/// A request that the switch sends back undoes its migration: its sender learns
/// which connection stays, and is as it was before.
pub proof fn law_returned_request_undoes(
    peer: TcpMigPeerView,
    socket: SharedTcpSocket,
    local: SocketAddrV4,
    remote: SocketAddrV4,
)
    requires
        !peer.migrating(remote),
    ensures
        ({
            let hdr = peer.request(socket, local, remote).tcpmig_hdr;
            let asking = peer.initiated(socket, local, remote);
            &&& hdr.origin == local
            &&& hdr.client == remote
            &&& asking.returned(hdr)
            &&& asking.received(hdr) == peer
        }),
{
    let hdr = peer.request(socket, local, remote).tcpmig_hdr;
    let asking = peer.initiated(socket, local, remote);
    assert(asking.received(hdr).active_migrations =~= peer.active_migrations);
}

} // verus!
