//! What each event does to the migrations of a backend, entry by entry.

use vstd::prelude::*;
use crate::address::{Ipv4Addr, MacAddress, SharedTcpSocket, SocketAddrV4};
use crate::buffer::DemiBuffer;
use crate::frame::{EtherType2, IpProtocol, TcpHeader};
use crate::tcpmig::active::ActiveMigrationView;
use crate::tcpmig::peer::{other_udp_port, TcpMigPeerView};
use crate::tcpmig::segment::{MigrationStage, TcpMigConstants, TcpMigHeader};

verus! {

/// A backend starts with its settings, without migrations, without data of
/// applications, and at the port of its deployment.
pub proof fn law_new_backend(
    constants: TcpMigConstants,
    link: MacAddress,
    ip: Ipv4Addr,
    delay: u32,
    remote: SocketAddrV4,
)
    ensures
        ({
            let peer = TcpMigPeerView::fresh(constants, link, ip, delay);
            &&& peer.constants == constants
            &&& peer.local_link_addr == link
            &&& peer.local_ipv4_addr == ip
            &&& peer.self_udp_port == constants.self_udp_port
            &&& peer.additional_mig_delay == delay
            &&& !peer.active_migrations.contains_key(remote)
            &&& !peer.incoming_user_data.contains_key(remote)
            &&& !peer.application_state.contains_key(remote)
        }),
{
}

/// A remote is being migrated exactly when there is an entry for it.
pub proof fn law_migrating_means_an_entry(peer: TcpMigPeerView, remote: SocketAddrV4)
    ensures
        peer.migrating(remote) <==> peer.active_migrations.contains_key(remote),
{
}

/// The backends of a pair have the ports 10000 and 10001; the one that has neither
/// turns to 10001.
pub proof fn law_ports_of_a_pair(port: u16)
    ensures
        other_udp_port(10001) == 10000,
        port != 10001 ==> other_udp_port(port) == 10001,
{
}

/// Beginning a migration adds one entry, of the remote: the connection goes out
/// from here through the switch, its socket is kept, and a request was sent. All
/// else stays.
pub proof fn law_initiate_adds_one_entry(
    peer: TcpMigPeerView,
    socket: SharedTcpSocket,
    local: SocketAddrV4,
    remote: SocketAddrV4,
    other: SocketAddrV4,
)
    ensures
        ({
            let after = peer.initiated(socket, local, remote);
            &&& after.active_migrations.contains_key(other) <==> other == remote
                || peer.active_migrations.contains_key(other)
            &&& other != remote && peer.active_migrations.contains_key(other)
                ==> after.active_migrations[other] == peer.active_migrations[other]
            &&& after.active_migrations[remote] == (ActiveMigrationView {
                constants: peer.constants,
                local_ipv4_addr: peer.local_ipv4_addr,
                local_link_addr: peer.local_link_addr,
                remote_ipv4_addr: peer.constants.frontend_ip,
                remote_link_addr: peer.constants.frontend_mac,
                self_udp_port: peer.self_udp_port,
                dest_udp_port: (if peer.self_udp_port == 10001 {
                    10000
                } else {
                    10001
                }),
                origin: local,
                client: remote,
                last_sent_stage: MigrationStage::PrepareMigration,
                socket: Some(socket),
                recv_queue: Seq::empty(),
            })
            &&& after == (TcpMigPeerView { active_migrations: after.active_migrations, ..peer })
        }),
{
}

/// The request of a migration goes from this backend to the switch, empty, and
/// names the connection.
pub proof fn law_request_goes_to_the_switch(
    peer: TcpMigPeerView,
    socket: SharedTcpSocket,
    local: SocketAddrV4,
    remote: SocketAddrV4,
)
    ensures
        ({
            let request = peer.request(socket, local, remote);
            &&& request.ethernet2_hdr.dst_addr == peer.constants.frontend_mac
            &&& request.ethernet2_hdr.src_addr == peer.local_link_addr
            &&& request.ethernet2_hdr.ether_type == EtherType2::Ipv4
            &&& request.ipv4_hdr.dest_addr == peer.constants.frontend_ip
            &&& request.ipv4_hdr.src_addr == peer.local_ipv4_addr
            &&& request.ipv4_hdr.protocol == IpProtocol::Udp
            &&& request.tcpmig_hdr == (TcpMigHeader {
                origin: local,
                client: remote,
                payload_length: 0,
                stage: MigrationStage::PrepareMigration,
                source_udp_port: peer.constants.origin_port,
                dest_udp_port: peer.constants.target_port,
                flag_load: false,
            })
            &&& request.data.len() == 0
        }),
{
}

/// A message that is no request leaves the backend as it was, also where there is
/// a migration of its client, and is never taken for a returned one.
pub proof fn law_only_requests_have_effect(peer: TcpMigPeerView, hdr: TcpMigHeader)
    requires
        hdr.stage != MigrationStage::PrepareMigration,
    ensures
        peer.received(hdr) == peer,
        !peer.returned(hdr),
{
}

/// A request about a client that has an entry takes that entry out, and no other.
/// It counts as returned.
pub proof fn law_known_client_is_struck_out(
    peer: TcpMigPeerView,
    hdr: TcpMigHeader,
    other: SocketAddrV4,
)
    requires
        hdr.stage == MigrationStage::PrepareMigration,
        peer.active_migrations.contains_key(hdr.client),
    ensures
        ({
            let after = peer.received(hdr);
            &&& peer.returned(hdr)
            &&& after.active_migrations.contains_key(other) <==> other != hdr.client
                && peer.active_migrations.contains_key(other)
            &&& after.active_migrations.contains_key(other) ==> after.active_migrations[other]
                == peer.active_migrations[other]
            &&& after == (TcpMigPeerView { active_migrations: after.active_migrations, ..peer })
        }),
{
}

/// A request about a client without an entry adds one, and no other: the connection
/// comes in through the switch, answers go to the port of the origin, there is no
/// socket yet, and nothing was sent. It does not count as returned.
pub proof fn law_new_client_is_entered(
    peer: TcpMigPeerView,
    hdr: TcpMigHeader,
    other: SocketAddrV4,
)
    requires
        hdr.stage == MigrationStage::PrepareMigration,
        !peer.active_migrations.contains_key(hdr.client),
    ensures
        ({
            let after = peer.received(hdr);
            &&& !peer.returned(hdr)
            &&& after.active_migrations.contains_key(other) <==> other == hdr.client
                || peer.active_migrations.contains_key(other)
            &&& peer.active_migrations.contains_key(other) ==> after.active_migrations[other]
                == peer.active_migrations[other]
            &&& after.active_migrations[hdr.client] == (ActiveMigrationView {
                constants: peer.constants,
                local_ipv4_addr: peer.local_ipv4_addr,
                local_link_addr: peer.local_link_addr,
                remote_ipv4_addr: peer.constants.frontend_ip,
                remote_link_addr: peer.constants.frontend_mac,
                self_udp_port: peer.self_udp_port,
                dest_udp_port: hdr.origin.port,
                origin: hdr.origin,
                client: hdr.client,
                last_sent_stage: MigrationStage::NotStarted,
                socket: None,
                recv_queue: Seq::empty(),
            })
            &&& after == (TcpMigPeerView { active_migrations: after.active_migrations, ..peer })
        }),
{
}

/// A segment that is put aside goes to the end of the queue of its sender, behind
/// all that were there. Nothing else of that migration changes, and no other does.
pub proof fn law_aside_goes_to_the_senders_queue(
    peer: TcpMigPeerView,
    remote: SocketAddrV4,
    hdr: TcpHeader,
    data: DemiBuffer,
    other: SocketAddrV4,
)
    requires
        peer.active_migrations.contains_key(remote),
    ensures
        ({
            let after = peer.buffered(remote, hdr, data);
            let queue = peer.active_migrations[remote].recv_queue;
            let longer = after.active_migrations[remote].recv_queue;
            &&& longer == queue.push((hdr, data))
            &&& after.active_migrations[remote] == (ActiveMigrationView {
                recv_queue: longer,
                ..peer.active_migrations[remote]
            })
            &&& after.active_migrations.contains_key(other)
                <==> peer.active_migrations.contains_key(other)
            &&& other != remote && peer.active_migrations.contains_key(other)
                ==> after.active_migrations[other] == peer.active_migrations[other]
            &&& after == (TcpMigPeerView { active_migrations: after.active_migrations, ..peer })
        }),
{
}

/// Without a delay each segment is counted, the count starts over after fifteen,
/// and the segment that makes it fifteen is the one to migrate on. With a delay
/// none is counted and none is.
pub proof fn law_counting(peer: TcpMigPeerView, count: int)
    requires
        0 <= count <= 15,
    ensures
        peer.additional_mig_delay == 0 ==> {
            &&& peer.next_count(count) == (if count == 15 {
                1
            } else {
                count + 1
            })
            &&& peer.due(count) <==> count == 14
        },
        peer.additional_mig_delay != 0 ==> peer.next_count(count) == count && !peer.due(count),
{
}

} // verus!
