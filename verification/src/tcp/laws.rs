//! Laws of the socket table.

use vstd::prelude::*;
use crate::address::{Ipv4Addr, MacAddress, SharedTcpSocket, SocketAddrV4, SocketId};
use crate::buffer::DemiBuffer;
use crate::fail::Fail;
use crate::frame::{Ipv4Header, TcpHeader};
use crate::tcp::peer::{
    fresh_tcpmig, freed_port, segment_local, segment_remote, Config, MigrationSettings, Route,
    TcpPeerView,
};
use crate::tcp::random::nth_nonce;
use crate::tcpmig::pacer::count_after;
use crate::tcpmig::peer::{
    law_buffer_keeps_consistent, law_due_on_every_fifteenth, law_initiate_keeps_consistent,
    law_receive_keeps_consistent, TcpMigPeerView, TcpmigReceiveStatus,
};
use crate::tcpmig::segment::{MigrationStage, TcpMigHeader};

verus! {

/// Peers that start from one seed have the same nonce for initial sequence
/// numbers, and hand out the same nonces to listening sockets, call by call: each
/// is the next one of the seed.
pub proof fn law_one_seed_one_row_of_nonces<C, O, D, P>(
    one: TcpPeerView<C, O>,
    two: TcpPeerView<D, P>,
    seed: Seq<u8>,
    n: nat,
)
    requires
        one.seeded_with(seed),
        two.seeded_with(seed),
    ensures
        one.isn_generator == two.isn_generator,
        one.after_listens(n).rng.nonce() == nth_nonce(seed, n + 1),
        two.after_listens(n).rng.nonce() == nth_nonce(seed, n + 1),
        one.after_listens(n).after_listens(1) == one.after_listens(n + 1),
        two.after_listens(n).after_listens(1) == two.after_listens(n + 1),
{
}

/// Nothing but a listen uses a nonce up.
pub proof fn law_only_listens_use_nonces<C, O>(
    peer: TcpPeerView<C, O>,
    id: SocketId,
    socket: SharedTcpSocket,
    bound: Option<SocketAddrV4>,
    local: SocketAddrV4,
    remote: SocketAddrV4,
    tcpmig: TcpMigPeerView,
)
    ensures
        peer.with_socket(id, socket).rng == peer.rng,
        peer.without_socket(id).rng == peer.rng,
        peer.connecting(socket, bound, local, remote).rng == peer.rng,
        peer.with_tcpmig(tcpmig).rng == peer.rng,
{
}

/// A bound socket takes the segments to its endpoint from every remote that
/// has no connection of its own there and is not being migrated.
pub proof fn law_bound_socket_receives<C, O>(
    peer: TcpPeerView<C, O>,
    socket: SharedTcpSocket,
    local: SocketAddrV4,
    remote: SocketAddrV4,
)
    requires
        !peer.registered(SocketId::Active(local, remote)),
        !peer.migrating(remote),
    ensures
        peer.with_socket(SocketId::Passive(local), socket).route(local, remote)
            == Route::ToSocket(socket),
{
}

/// A connected socket takes the segments of its connection, whatever socket is
/// bound to the local endpoint and whatever is being migrated.
pub proof fn law_connected_socket_receives<C, O>(
    peer: TcpPeerView<C, O>,
    socket: SharedTcpSocket,
    bound: Option<SocketAddrV4>,
    local: SocketAddrV4,
    remote: SocketAddrV4,
)
    ensures
        peer.with_socket(SocketId::Active(local, remote), socket).route(local, remote)
            == Route::ToSocket(socket),
        peer.connecting(socket, bound, local, remote).route(local, remote) == Route::ToSocket(
            socket,
        ),
{
}

/// Entering or striking out a connection changes no other route.
pub proof fn law_connection_is_local<C, O>(
    peer: TcpPeerView<C, O>,
    socket: SharedTcpSocket,
    local: SocketAddrV4,
    remote: SocketAddrV4,
    other_local: SocketAddrV4,
    other_remote: SocketAddrV4,
)
    requires
        (other_local, other_remote) != (local, remote),
    ensures
        peer.with_socket(SocketId::Active(local, remote), socket).route(other_local, other_remote)
            == peer.route(other_local, other_remote),
        peer.without_socket(SocketId::Active(local, remote)).route(other_local, other_remote)
            == peer.route(other_local, other_remote),
{
}

/// Binding or unbinding an endpoint changes no route to another endpoint, and
/// none of a connection.
pub proof fn law_binding_is_local<C, O>(
    peer: TcpPeerView<C, O>,
    socket: SharedTcpSocket,
    local: SocketAddrV4,
    other_local: SocketAddrV4,
    remote: SocketAddrV4,
)
    requires
        other_local != local || peer.registered(SocketId::Active(other_local, remote))
            || peer.migrating(remote),
    ensures
        peer.with_socket(SocketId::Passive(local), socket).route(other_local, remote) == peer.route(
            other_local,
            remote,
        ),
        peer.without_socket(SocketId::Passive(local)).route(other_local, remote) == peer.route(
            other_local,
            remote,
        ),
{
}

/// A failed connect of a socket that was not bound leaves the peer as it was.
pub proof fn law_failed_connect_rolls_back<C, O>(
    peer: TcpPeerView<C, O>,
    socket: SharedTcpSocket,
    local: SocketAddrV4,
    remote: SocketAddrV4,
)
    requires
        !peer.registered(SocketId::Active(local, remote)),
    ensures
        peer.connecting(socket, None, local, remote).without_socket(
            SocketId::Active(local, remote),
        ) == peer,
{
    assert(peer.connecting(socket, None, local, remote).without_socket(
        SocketId::Active(local, remote),
    ).addresses =~= peer.addresses);
}

/// A failed connect of a bound socket leaves the peer as it was, but for the
/// binding, which is gone.
pub proof fn law_failed_connect_unbinds<C, O>(
    peer: TcpPeerView<C, O>,
    socket: SharedTcpSocket,
    local: SocketAddrV4,
    remote: SocketAddrV4,
)
    requires
        !peer.registered(SocketId::Active(local, remote)),
    ensures
        peer.connecting(socket, Some(local), local, remote).without_socket(
            SocketId::Active(local, remote),
        ) == peer.without_socket(SocketId::Passive(local)),
{
    assert(peer.connecting(socket, Some(local), local, remote).without_socket(
        SocketId::Active(local, remote),
    ).addresses =~= peer.without_socket(SocketId::Passive(local)).addresses);
}

/// Closing a socket undoes its bind.
pub proof fn law_close_undoes_bind<C, O>(
    peer: TcpPeerView<C, O>,
    socket: SharedTcpSocket,
    local: SocketAddrV4,
)
    requires
        !peer.registered(SocketId::Passive(local)),
    ensures
        peer.with_socket(SocketId::Passive(local), socket).without_socket(SocketId::Passive(local))
            == peer,
{
    assert(peer.with_socket(SocketId::Passive(local), socket).without_socket(
        SocketId::Passive(local),
    ).addresses =~= peer.addresses);
}

/// A hard close ends as a close does: from the same peer and the same answer of
/// the socket, any two ways to end it come to the same outcome and the same peer,
/// and so to the same port to free.
pub proof fn law_hard_close_is_close<C, O>(
    peer: TcpPeerView<C, O>,
    closed: Result<Option<SocketId>, Fail>,
    close_outcome: Result<Option<u16>, Fail>,
    close_after: TcpPeerView<C, O>,
    hard_close_outcome: Result<Option<u16>, Fail>,
    hard_close_after: TcpPeerView<C, O>,
)
    requires
        peer.closes(closed, close_outcome, close_after),
        peer.closes(closed, hard_close_outcome, hard_close_after),
    ensures
        hard_close_outcome == close_outcome,
        hard_close_after == close_after,
{
}

/// Ending a close takes an entry out, and gives a port to free, only where the
/// socket received under a name: that entry, and the local port of that name.
pub proof fn law_close_strikes_only_the_name<C, O>(
    peer: TcpPeerView<C, O>,
    closed: Result<Option<SocketId>, Fail>,
    outcome: Result<Option<u16>, Fail>,
    after: TcpPeerView<C, O>,
    private: bool,
    id: SocketId,
)
    requires
        peer.closes(closed, outcome, after),
    ensures
        after.registered(id) <==> peer.registered(id) && closed != Ok::<Option<SocketId>, Fail>(
            Some(id),
        ),
        after.registered(id) ==> after.addresses[id] == peer.addresses[id],
        closed is Err <==> outcome is Err,
        closed matches Err(fail) ==> outcome == Err::<Option<u16>, Fail>(fail) && after == peer,
        outcome matches Ok(Some(port)) ==> {
            &&& closed matches Ok(Some(name))
            &&& freed_port(port, private) == (if private {
                Some(name.local().port)
            } else {
                None
            })
        },
{
}

/// A socket that was closed takes no segment any more, unless it receives under
/// another name too.
pub proof fn law_closed_socket_is_silent<C, O>(
    peer: TcpPeerView<C, O>,
    id: SocketId,
    socket: SharedTcpSocket,
    local: SocketAddrV4,
    remote: SocketAddrV4,
)
    requires
        forall|other: SocketId| #[trigger]
            peer.registered(other) && peer.addresses[other] == socket ==> other == id,
    ensures
        peer.without_socket(id).route(local, remote) != Route::ToSocket(socket),
{
    let connection = SocketId::Active(local, remote);
    let binding = SocketId::Passive(local);
    if peer.registered(connection) && peer.addresses[connection] == socket {
        assert(connection == id);
    }
    if peer.registered(binding) && peer.addresses[binding] == socket {
        assert(binding == id);
    }
}

impl<C, O> TcpPeerView<C, O> {
    /// Every bound endpoint has an address and a port.
    pub open spec fn bindings_concrete(self) -> bool {
        forall|local: SocketAddrV4| #[trigger]
            self.registered(SocketId::Passive(local)) ==> !local.ip.unspecified() && local.port
                != 0
    }
}

/// Bound endpoints stay concrete whatever happens: a bind brings a concrete one
/// in, and nothing else brings any.
pub proof fn law_bindings_stay_concrete<C, O>(
    peer: TcpPeerView<C, O>,
    socket: SharedTcpSocket,
    bound: Option<SocketAddrV4>,
    local: SocketAddrV4,
    remote: SocketAddrV4,
    id: SocketId,
)
    requires
        peer.bindings_concrete(),
    ensures
        !local.ip.unspecified() && local.port != 0 ==> peer.with_socket(
            SocketId::Passive(local),
            socket,
        ).bindings_concrete(),
        peer.with_socket(SocketId::Active(local, remote), socket).bindings_concrete(),
        peer.connecting(socket, bound, local, remote).bindings_concrete(),
        peer.without_socket(id).bindings_concrete(),
{
    let bind = peer.with_socket(SocketId::Passive(local), socket);
    let accept = peer.with_socket(SocketId::Active(local, remote), socket);
    let connect = peer.connecting(socket, bound, local, remote);
    let close = peer.without_socket(id);
    assert forall|l: SocketAddrV4| #[trigger]
        bind.registered(SocketId::Passive(l)) implies l == local || peer.registered(
        SocketId::Passive(l),
    ) by {}
    assert forall|l: SocketAddrV4| #[trigger] accept.registered(SocketId::Passive(l)) implies
        peer.registered(SocketId::Passive(l)) by {}
    assert forall|l: SocketAddrV4| #[trigger] connect.registered(SocketId::Passive(l)) implies
        peer.registered(SocketId::Passive(l)) by {}
    assert forall|l: SocketAddrV4| #[trigger] close.registered(SocketId::Passive(l)) implies
        peer.registered(SocketId::Passive(l)) by {}
}

impl<C, O> TcpPeerView<C, O> {
    /// The migrations are consistent and run from the peer's own addresses.
    pub open spec fn migrations_consistent(self) -> bool {
        self.tcpmig matches Some(tcpmig) ==> {
            &&& tcpmig.consistent()
            &&& tcpmig.local_ipv4_addr == self.local_ipv4_addr
            &&& tcpmig.local_link_addr == self.local_link_addr
        }
    }
}

/// Migrations stay consistent whatever happens: entering and striking out
/// sockets does not touch them, and neither beginning one, nor a message, nor a
/// segment that is put aside, breaks them.
pub proof fn law_migrations_stay_consistent<C, O>(
    peer: TcpPeerView<C, O>,
    id: SocketId,
    socket: SharedTcpSocket,
    local: SocketAddrV4,
    remote: SocketAddrV4,
    message: TcpMigHeader,
    tcp_hdr: TcpHeader,
    data: DemiBuffer,
)
    requires
        peer.migrations_consistent(),
    ensures
        peer.with_socket(id, socket).migrations_consistent(),
        peer.without_socket(id).migrations_consistent(),
        peer.tcpmig matches Some(tcpmig) ==> {
            &&& peer.with_tcpmig(tcpmig.initiated(socket, local, remote)).migrations_consistent()
            &&& peer.with_tcpmig(tcpmig.received(message)).migrations_consistent()
            &&& peer.migrating(remote) ==> peer.with_tcpmig(
                tcpmig.buffered(remote, tcp_hdr, data),
            ).migrations_consistent()
        },
{
    if let Some(tcpmig) = peer.tcpmig {
        law_initiate_keeps_consistent(tcpmig, socket, local, remote);
        law_receive_keeps_consistent(tcpmig, message);
        if peer.migrating(remote) {
            law_buffer_keeps_consistent(tcpmig, remote, tcp_hdr, data);
        }
    }
}

/// While a connection migrates out its socket takes its segments until the
/// target takes the connection over; from then on they are put aside, and none
/// reaches another socket.
pub proof fn law_migrating_out<C, O>(
    peer: TcpPeerView<C, O>,
    socket: SharedTcpSocket,
    local: SocketAddrV4,
    remote: SocketAddrV4,
)
    requires
        peer.tcpmig is Some,
        peer.registered(SocketId::Active(local, remote)),
        peer.addresses[SocketId::Active(local, remote)] == socket,
    ensures
        ({
            let asking = peer.with_tcpmig(
                peer.tcpmig.unwrap().initiated(socket, local, remote),
            );
            let given = asking.without_socket(SocketId::Active(local, remote));
            &&& asking.route(local, remote) == Route::ToSocket(socket)
            &&& given.route(local, remote) == Route::Aside
        }),
{
}

/// From the request of another backend on, a target puts the segments of the
/// client aside that are not of a connection it has.
pub proof fn law_migrating_in<C, O>(peer: TcpPeerView<C, O>, hdr: TcpMigHeader, local: SocketAddrV4)
    requires
        peer.tcpmig is Some,
        hdr.stage == MigrationStage::PrepareMigration,
        !peer.migrating(hdr.client),
        !peer.registered(SocketId::Active(local, hdr.client)),
    ensures
        peer.with_tcpmig(peer.tcpmig.unwrap().received(hdr)).route(local, hdr.client)
            == Route::Aside,
{
}

/// Putting a segment aside changes no route.
pub proof fn law_buffering_keeps_routes<C, O>(
    peer: TcpPeerView<C, O>,
    sender: SocketAddrV4,
    hdr: TcpHeader,
    data: DemiBuffer,
    local: SocketAddrV4,
    remote: SocketAddrV4,
)
    requires
        peer.migrating(sender),
    ensures
        peer.with_tcpmig(peer.tcpmig.unwrap().buffered(sender, hdr, data)).route(local, remote)
            == peer.route(local, remote),
{
}

/// Segments that are put aside are kept in the order in which they came.
pub proof fn law_buffering_keeps_order<C, O>(
    peer: TcpPeerView<C, O>,
    sender: SocketAddrV4,
    first: (TcpHeader, DemiBuffer),
    second: (TcpHeader, DemiBuffer),
)
    requires
        peer.migrating(sender),
    ensures
        ({
            let before = peer.tcpmig.unwrap();
            let after = before.buffered(sender, first.0, first.1).buffered(
                sender,
                second.0,
                second.1,
            );
            after.active_migrations[sender].recv_queue
                == before.active_migrations[sender].recv_queue + seq![first, second]
        }),
{
    let before = peer.tcpmig.unwrap();
    let after = before.buffered(sender, first.0, first.1).buffered(sender, second.0, second.1);
    assert(after.active_migrations[sender].recv_queue
        =~= before.active_migrations[sender].recv_queue + seq![first, second]);
}

/// A host that does not take part in migration puts nothing aside, counts
/// nothing and migrates nothing.
pub proof fn law_without_migration<C, O>(
    peer: TcpPeerView<C, O>,
    local: SocketAddrV4,
    remote: SocketAddrV4,
    count: int,
)
    requires
        peer.tcpmig is None,
    ensures
        peer.route(local, remote) != Route::Aside,
        peer.next_count(count) == count,
        !peer.due(count),
{
}

/// A socket receives under a name exactly when there is an entry for the name, and
/// a remote is being migrated exactly when the host takes part in migration and has
/// an entry for it.
pub proof fn law_what_entries_mean<C, O>(
    peer: TcpPeerView<C, O>,
    id: SocketId,
    remote: SocketAddrV4,
)
    ensures
        peer.registered(id) <==> peer.addresses.contains_key(id),
        peer.tcpmig is None ==> !peer.migrating(remote),
        peer.tcpmig matches Some(tcpmig) ==> (peer.migrating(remote)
            <==> tcpmig.active_migrations.contains_key(remote)),
{
}

/// Entering a socket adds or replaces the entry of its name, and changes nothing
/// else.
pub proof fn law_entering<C, O>(
    peer: TcpPeerView<C, O>,
    id: SocketId,
    socket: SharedTcpSocket,
    other: SocketId,
)
    ensures
        ({
            let after = peer.with_socket(id, socket);
            &&& after.addresses.contains_key(other) <==> other == id
                || peer.addresses.contains_key(other)
            &&& after.addresses[id] == socket
            &&& other != id && peer.addresses.contains_key(other) ==> after.addresses[other]
                == peer.addresses[other]
            &&& after == (TcpPeerView { addresses: after.addresses, ..peer })
        }),
{
}

/// Striking a name out takes its entry, and changes nothing else.
pub proof fn law_striking_out<C, O>(peer: TcpPeerView<C, O>, id: SocketId, other: SocketId)
    ensures
        ({
            let after = peer.without_socket(id);
            &&& after.addresses.contains_key(other) <==> other != id
                && peer.addresses.contains_key(other)
            &&& after.addresses.contains_key(other) ==> after.addresses[other]
                == peer.addresses[other]
            &&& after == (TcpPeerView { addresses: after.addresses, ..peer })
        }),
{
}

/// The migrations of a peer can be exchanged without touching anything else.
pub proof fn law_exchanging_migrations<C, O>(peer: TcpPeerView<C, O>, tcpmig: TcpMigPeerView)
    ensures
        peer.with_tcpmig(tcpmig) == (TcpPeerView { tcpmig: Some(tcpmig), ..peer }),
{
}

/// A connect enters the socket under its connection. It strikes the binding out
/// where the socket was bound, and nothing where it was not. All else stays.
pub proof fn law_connect_effect<C, O>(
    peer: TcpPeerView<C, O>,
    socket: SharedTcpSocket,
    bound: Option<SocketAddrV4>,
    local: SocketAddrV4,
    remote: SocketAddrV4,
    other: SocketId,
)
    ensures
        ({
            let after = peer.connecting(socket, bound, local, remote);
            let connection = SocketId::Active(local, remote);
            let unbound = bound matches Some(addr) && other == SocketId::Passive(addr);
            &&& after.addresses.contains_key(connection)
            &&& after.addresses[connection] == socket
            &&& other != connection ==> (after.addresses.contains_key(other) <==> !unbound
                && peer.addresses.contains_key(other))
            &&& other != connection && after.addresses.contains_key(other)
                ==> after.addresses[other] == peer.addresses[other]
            &&& after == (TcpPeerView { addresses: after.addresses, ..peer })
        }),
{
}

/// Where a segment goes, read off the entries: a connection between its endpoints
/// takes it; else it is put aside where its sender has a migration; else the socket
/// bound to its destination takes it; else nobody does.
pub proof fn law_routing<C, O>(
    peer: TcpPeerView<C, O>,
    local: SocketAddrV4,
    remote: SocketAddrV4,
)
    ensures
        ({
            let connection = SocketId::Active(local, remote);
            let binding = SocketId::Passive(local);
            let connected = peer.addresses.contains_key(connection);
            let bound = peer.addresses.contains_key(binding);
            let moving = peer.tcpmig matches Some(tcpmig)
                && tcpmig.active_migrations.contains_key(remote);
            let route = peer.route(local, remote);
            &&& connected ==> route == Route::ToSocket(peer.addresses[connection])
            &&& !connected && moving ==> route == Route::Aside
            &&& !connected && !moving && bound ==> route == Route::ToSocket(
                peer.addresses[binding],
            )
            &&& !connected && !moving && !bound ==> route == Route::Nowhere
        }),
{
}

/// A segment goes between the addresses of its packet and the ports of its header:
/// it came to the destination, from the source.
pub proof fn law_ends_of_a_segment(ip_hdr: Ipv4Header, tcp_hdr: TcpHeader)
    ensures
        segment_local(ip_hdr, tcp_hdr).ip == ip_hdr.dest_addr,
        segment_local(ip_hdr, tcp_hdr).port == tcp_hdr.dst_port,
        segment_remote(ip_hdr, tcp_hdr).ip == ip_hdr.src_addr,
        segment_remote(ip_hdr, tcp_hdr).port == tcp_hdr.src_port,
{
}

/// A host that takes part in migration without a delay counts each segment, starts
/// over after fifteen, and migrates on the segment that makes it fifteen. With a
/// delay it counts none and migrates on none.
pub proof fn law_host_counts<C, O>(peer: TcpPeerView<C, O>, count: int)
    requires
        peer.tcpmig is Some,
        0 <= count <= 15,
    ensures
        peer.tcpmig.unwrap().additional_mig_delay == 0 ==> {
            &&& peer.next_count(count) == (if count == 15 {
                1
            } else {
                count + 1
            })
            &&& peer.due(count) <==> count == 14
        },
        peer.tcpmig.unwrap().additional_mig_delay != 0 ==> peer.next_count(count) == count
            && !peer.due(count),
{
}

/// A host that takes part in migration without a delay migrates on exactly every
/// fifteenth segment of those that a new counter sees.
pub proof fn law_host_migrates_on_every_fifteenth<C, O>(peer: TcpPeerView<C, O>, n: nat)
    requires
        peer.tcpmig is Some,
        peer.tcpmig.unwrap().additional_mig_delay == 0,
    ensures
        count_after(0) == 0,
        peer.next_count(count_after(n)) == count_after(n + 1),
        peer.due(count_after(n)) <==> (n + 1) % 15 == 0,
{
    law_due_on_every_fifteenth(peer.tcpmig.unwrap(), n);
}

/// Ending a close under a name always gives the local port of the name, and takes
/// the entry of the name and no other. Without a name, and where the socket failed,
/// nothing changes, and no port but the failure comes out.
pub proof fn law_close_gives_the_port<C, O>(
    peer: TcpPeerView<C, O>,
    closed: Result<Option<SocketId>, Fail>,
    outcome: Result<Option<u16>, Fail>,
    after: TcpPeerView<C, O>,
    other: SocketId,
)
    requires
        peer.closes(closed, outcome, after),
    ensures
        closed matches Ok(Some(SocketId::Active(local, _))) ==> outcome == Ok::<Option<u16>, Fail>(
            Some(local.port),
        ),
        closed matches Ok(Some(SocketId::Passive(local))) ==> outcome == Ok::<Option<u16>, Fail>(
            Some(local.port),
        ),
        closed matches Ok(Some(name)) ==> {
            &&& after.addresses.contains_key(other) <==> other != name
                && peer.addresses.contains_key(other)
            &&& after.addresses.contains_key(other) ==> after.addresses[other]
                == peer.addresses[other]
            &&& after == (TcpPeerView { addresses: after.addresses, ..peer })
        },
        closed matches Ok(None) ==> outcome == Ok::<Option<u16>, Fail>(None) && after == peer,
        closed matches Err(fail) ==> outcome == Err::<Option<u16>, Fail>(fail) && after == peer,
{
}

/// A port is freed exactly when the runtime calls it private, and it is that port.
pub proof fn law_freed_ports(port: u16, private: bool)
    ensures
        private ==> freed_port(port, private) == Some(port),
        !private ==> freed_port(port, private) is None,
{
}

/// A host that lacks settings reports the first of them: link address, IPv4
/// address, TCP settings, socket options. One that lacks none reports none.
pub proof fn law_first_failure<C, O>(config: Config<C, O>)
    ensures
        config.local_link_addr matches Err(fail) ==> config.first_failure() == Some(fail),
        config.local_link_addr is Ok ==> {
            &&& config.local_ipv4_addr matches Err(fail) ==> config.first_failure() == Some(fail)
            &&& config.local_ipv4_addr is Ok ==> {
                &&& config.tcp_config matches Err(fail) ==> config.first_failure() == Some(fail)
                &&& config.tcp_config is Ok ==> {
                    &&& config.socket_options matches Err(fail) ==> config.first_failure() == Some(
                        fail,
                    )
                    &&& config.socket_options is Ok ==> config.first_failure() is None
                }
            }
        },
{
}

/// A host takes part in migration exactly when it has settings for it. It starts
/// with these, at its own addresses and without migrations.
pub proof fn law_fresh_migrations(
    migration: Option<MigrationSettings>,
    link: MacAddress,
    ip: Ipv4Addr,
    remote: SocketAddrV4,
)
    ensures
        fresh_tcpmig(migration, link, ip) is Some <==> migration is Some,
        migration matches Some(settings) ==> {
            let tcpmig = fresh_tcpmig(migration, link, ip).unwrap();
            &&& tcpmig.constants == settings.constants
            &&& tcpmig.additional_mig_delay == settings.additional_mig_delay
            &&& tcpmig.local_link_addr == link
            &&& tcpmig.local_ipv4_addr == ip
            &&& tcpmig.self_udp_port == settings.constants.self_udp_port
            &&& !tcpmig.active_migrations.contains_key(remote)
            &&& !tcpmig.incoming_user_data.contains_key(remote)
            &&& !tcpmig.application_state.contains_key(remote)
        },
{
}

/// What a migration message led to can be acted on, unless the switch returned a
/// request, or the table lacks the connection that a target takes or the binding
/// that is to take a connection in.
pub proof fn law_statuses_in_order<C, O>(peer: TcpPeerView<C, O>, status: TcpmigReceiveStatus)
    ensures
        status is Handled || status is SentReject || status is Rejected ==> peer.in_order(status),
        status is ReturnedBySwitch ==> !peer.in_order(status),
        status matches TcpmigReceiveStatus::PrepareMigrationAcked(local, remote) ==> (
        peer.in_order(status) <==> peer.addresses.contains_key(SocketId::Active(local, remote))),
        status matches TcpmigReceiveStatus::StateReceived(state) ==> (peer.in_order(status)
            <==> peer.addresses.contains_key(SocketId::Passive(state.cb@.local))),
{
}

/// A listen uses one nonce up and changes nothing else. A peer that starts from a
/// seed has its first nonce in use, and the second is the next.
pub proof fn law_listen_effect<C, O>(peer: TcpPeerView<C, O>, n: nat, seed: Seq<u8>)
    ensures
        peer.after_listens(n).rng.seed == peer.rng.seed,
        peer.after_listens(n).rng.drawn == peer.rng.drawn + n,
        peer.after_listens(n) == (TcpPeerView { rng: peer.after_listens(n).rng, ..peer }),
        peer.seeded_with(seed) <==> {
            &&& peer.isn_generator.nonce == nth_nonce(seed, 0)
            &&& peer.rng.seed == seed
            &&& peer.rng.drawn == 1
        },
{
}

} // verus!
