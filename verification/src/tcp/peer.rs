//! The socket table of a host and what happens to it.
//!
//! Sockets, the runtime and the wire belong to the driver. It makes the calls
//! that take effect there and hands their outcomes in; what to do next comes
//! back.

use futures::channel::mpsc::UnboundedSender;
use vstd::prelude::*;
use crate::address::{
    Ipv4Addr, MacAddress, QDesc, SharedTcpSocket, SocketAddrV4, SocketId,
};
use crate::buffer::DemiBuffer;
use crate::fail::Fail;
use crate::frame::{Ipv4Header, TcpHeader};
use crate::table::Table;
use crate::tcp::random::{nth_nonce, NonceSource, NonceSourceView};
use crate::tcp::state::TcpState;
use crate::tcpmig::pacer::MigrationPacer;
use crate::tcpmig::peer::{TcpMigPeer, TcpMigPeerView, TcpmigReceiveStatus};
use crate::tcpmig::segment::{TcpMigConstants, TcpMigHeader, TcpMigSegment};

verus! {

/// The TCP settings of a host. `C` is the type of those that only sockets read.
#[derive(Debug, PartialEq, Eq)]
pub struct TcpConfig<C> {
    /// The network card verifies the checksums of incoming segments.
    pub rx_checksum_offload: bool,
    /// What sockets read.
    pub parameters: C,
}

/// What reading each setting of the host gave. `C` is the type of the TCP
/// settings that only sockets read, `O` that of the options they start with.
pub struct Config<C, O> {
    pub local_link_addr: Result<MacAddress, Fail>,
    pub local_ipv4_addr: Result<Ipv4Addr, Fail>,
    pub tcp_config: Result<TcpConfig<C>, Fail>,
    pub socket_options: Result<O, Fail>,
}

impl<C, O> Config<C, O> {
    /// The first setting that could not be read, in the order of the fields.
    pub open spec fn first_failure(self) -> Option<Fail> {
        if self.local_link_addr is Err {
            Some(self.local_link_addr->Err_0)
        } else if self.local_ipv4_addr is Err {
            Some(self.local_ipv4_addr->Err_0)
        } else if self.tcp_config is Err {
            Some(self.tcp_config->Err_0)
        } else if self.socket_options is Err {
            Some(self.socket_options->Err_0)
        } else {
            None
        }
    }
}

/// How a host takes part in migration.
#[derive(Clone, Copy, Debug)]
pub struct MigrationSettings {
    pub constants: TcpMigConstants,
    /// For testing: a delay other than zero switches migration off.
    pub additional_mig_delay: u32,
}

/// Where initial sequence numbers come from.
#[derive(Clone, Copy, Debug, PartialEq, Eq, Structural)]
pub struct IsnGenerator {
    pub nonce: u32,
}

/// What a new socket is made from.
pub struct SocketParameters<'a, C, O> {
    pub local_link_addr: MacAddress,
    pub tcp_config: &'a TcpConfig<C>,
    pub default_socket_options: &'a O,
    pub dead_socket_tx: &'a UnboundedSender<QDesc>,
}

/// What a socket is told when it begins to listen.
#[derive(Clone, Copy, Debug, PartialEq, Eq, Structural)]
pub struct ListenRequest {
    pub backlog: usize,
    pub nonce: u32,
}

/// What to do next about a connect.
#[derive(Clone, Copy, Debug, PartialEq, Eq, Structural)]
pub enum ConnectStep {
    /// Connect the socket from this local endpoint.
    Connect(SocketAddrV4),
    /// Allocate an ephemeral port first.
    AllocatePort,
}

/// A segment on its way to a socket.
#[derive(Debug)]
pub struct Delivery {
    pub socket: SharedTcpSocket,
    pub ip_hdr: Ipv4Header,
    pub tcp_hdr: TcpHeader,
    pub data: DemiBuffer,
    /// Migrate the connection once the socket has taken the segment.
    pub migrate: bool,
}

/// What becomes of an incoming segment.
#[derive(Debug)]
pub enum Verdict {
    /// It is dropped: its header could not be read.
    InvalidHeader(Fail),
    /// It is dropped: no host sends from this address.
    InvalidRemote(Ipv4Addr),
    /// It is put aside until a migration is over.
    Buffered,
    /// It is dropped: no socket takes segments of this address.
    NoSocket(Ipv4Addr),
    /// A socket takes it.
    Deliver(Delivery),
}

/// What to do next about a migration.
#[derive(Debug)]
pub enum MigrationStep {
    /// Nothing.
    Idle,
    /// Take the state out of this socket and send it to the target.
    SendState(SharedTcpSocket),
    /// Let this socket take the connection in.
    MigrateIn(SharedTcpSocket, TcpState),
}

/// Where the segments of a connection go.
pub enum Route {
    ToSocket(SharedTcpSocket),
    Aside,
    Nowhere,
}

/// What a [`TcpPeer`] stands for.
#[verifier::ext_equal]
pub struct TcpPeerView<C, O> {
    pub isn_generator: IsnGenerator,
    pub local_link_addr: MacAddress,
    pub local_ipv4_addr: Ipv4Addr,
    pub tcp_config: TcpConfig<C>,
    pub default_socket_options: O,
    /// Where later nonces come from.
    pub rng: NonceSourceView,
    pub dead_socket_tx: UnboundedSender<QDesc>,
    /// The sockets, by the names under which they receive.
    pub addresses: Map<SocketId, SharedTcpSocket>,
    /// The migrations, where the host takes part in migration.
    pub tcpmig: Option<TcpMigPeerView>,
}

impl<C, O> TcpPeerView<C, O> {
    /// Does a socket receive under `id`?
    pub open spec fn registered(self, id: SocketId) -> bool {
        self.addresses.contains_key(id)
    }

    /// The peer after `socket` was entered under `id`.
    pub open spec fn with_socket(self, id: SocketId, socket: SharedTcpSocket) -> TcpPeerView<C, O> {
        TcpPeerView { addresses: self.addresses.insert(id, socket), ..self }
    }

    /// The peer after the entry under `id` was struck out.
    pub open spec fn without_socket(self, id: SocketId) -> TcpPeerView<C, O> {
        TcpPeerView { addresses: self.addresses.remove(id), ..self }
    }

    /// The peer with the migrations `tcpmig`.
    pub open spec fn with_tcpmig(self, tcpmig: TcpMigPeerView) -> TcpPeerView<C, O> {
        TcpPeerView { tcpmig: Some(tcpmig), ..self }
    }

    /// The peer after `n` sockets began to listen.
    pub open spec fn after_listens(self, n: nat) -> TcpPeerView<C, O> {
        TcpPeerView { rng: self.rng.advanced(n), ..self }
    }

    /// Does the peer stand where one that was seeded with `seed` starts: with
    /// the first nonce in use, and the rest to come?
    pub open spec fn seeded_with(self, seed: Seq<u8>) -> bool {
        &&& self.isn_generator.nonce == nth_nonce(seed, 0)
        &&& self.rng == (NonceSourceView { seed, drawn: 1 })
    }

    /// The peer after a connect from `local` to `remote` began. A socket that
    /// was bound no longer takes segments from other remotes.
    pub open spec fn connecting(
        self,
        socket: SharedTcpSocket,
        bound: Option<SocketAddrV4>,
        local: SocketAddrV4,
        remote: SocketAddrV4,
    ) -> TcpPeerView<C, O> {
        match bound {
            Some(addr) => self.without_socket(SocketId::Passive(addr)),
            None => self,
        }.with_socket(SocketId::Active(local, remote), socket)
    }

    /// Is a connection of `remote` being migrated?
    pub open spec fn migrating(self, remote: SocketAddrV4) -> bool {
        self.tcpmig matches Some(tcpmig) && tcpmig.migrating(remote)
    }

    /// Where segments from `remote` to `local` go: to the connection, else
    /// aside while a connection of the remote is being migrated, else to the
    /// socket that is bound to the local endpoint.
    pub open spec fn route(self, local: SocketAddrV4, remote: SocketAddrV4) -> Route {
        if self.registered(SocketId::Active(local, remote)) {
            Route::ToSocket(self.addresses[SocketId::Active(local, remote)])
        } else if self.migrating(remote) {
            Route::Aside
        } else if self.registered(SocketId::Passive(local)) {
            Route::ToSocket(self.addresses[SocketId::Passive(local)])
        } else {
            Route::Nowhere
        }
    }

    /// The count of segments after one more.
    pub open spec fn next_count(self, count: int) -> int {
        match self.tcpmig {
            Some(tcpmig) => tcpmig.next_count(count),
            None => count,
        }
    }

    /// Is the next segment, at `count`, one to migrate on?
    pub open spec fn due(self, count: int) -> bool {
        self.tcpmig matches Some(tcpmig) && tcpmig.due(count)
    }

    /// Does ending a close, of which the socket said `closed`, lead from this
    /// peer to `after` with `outcome`? A socket that received under a name loses
    /// it, and the local port of the name comes out. Otherwise nothing changes.
    pub open spec fn closes(
        self,
        closed: Result<Option<SocketId>, Fail>,
        outcome: Result<Option<u16>, Fail>,
        after: TcpPeerView<C, O>,
    ) -> bool {
        match closed {
            Ok(Some(id)) => {
                &&& outcome == Ok::<Option<u16>, Fail>(Some(id.local().port))
                &&& after == self.without_socket(id)
            },
            Ok(None) => {
                &&& outcome == Ok::<Option<u16>, Fail>(None)
                &&& after == self
            },
            Err(fail) => {
                &&& outcome == Err::<Option<u16>, Fail>(fail)
                &&& after == self
            },
        }
    }

    /// Is `status` one that the peer can act on? The switch returns no request,
    /// a connection that a target takes is in the table, and so is the socket
    /// that is to take an arriving connection in.
    pub open spec fn in_order(self, status: TcpmigReceiveStatus) -> bool {
        match status {
            TcpmigReceiveStatus::ReturnedBySwitch(_, _) => false,
            TcpmigReceiveStatus::PrepareMigrationAcked(local, remote) => self.registered(
                SocketId::Active(local, remote),
            ),
            TcpmigReceiveStatus::StateReceived(state) => self.registered(
                SocketId::Passive(state.cb@.local),
            ),
            _ => true,
        }
    }
}

/// The port to free: the local port of a closed socket, where it is one of the
/// runtime's private ephemeral ports.
pub open spec fn freed_port(port: u16, private: bool) -> Option<u16> {
    if private {
        Some(port)
    } else {
        None
    }
}

/// The endpoint that a segment came to.
pub open spec fn segment_local(ip_hdr: Ipv4Header, tcp_hdr: TcpHeader) -> SocketAddrV4 {
    SocketAddrV4 { ip: ip_hdr.dest_addr, port: tcp_hdr.dst_port }
}

/// The endpoint that a segment came from.
pub open spec fn segment_remote(ip_hdr: Ipv4Header, tcp_hdr: TcpHeader) -> SocketAddrV4 {
    SocketAddrV4 { ip: ip_hdr.src_addr, port: tcp_hdr.src_port }
}

/// The TCP side of a host.
pub struct TcpPeer<C, O> {
    isn_generator: IsnGenerator,
    local_link_addr: MacAddress,
    local_ipv4_addr: Ipv4Addr,
    tcp_config: TcpConfig<C>,
    default_socket_options: O,
    rng: NonceSource,
    dead_socket_tx: UnboundedSender<QDesc>,
    addresses: Table<SocketId, SharedTcpSocket>,
    tcpmig: Option<TcpMigPeer>,
}

impl<C, O> View for TcpPeer<C, O> {
    type V = TcpPeerView<C, O>;

    closed spec fn view(&self) -> TcpPeerView<C, O> {
        TcpPeerView {
            isn_generator: self.isn_generator,
            local_link_addr: self.local_link_addr,
            local_ipv4_addr: self.local_ipv4_addr,
            tcp_config: self.tcp_config,
            default_socket_options: self.default_socket_options,
            rng: self.rng@,
            dead_socket_tx: self.dead_socket_tx,
            addresses: self.addresses@,
            tcpmig: match self.tcpmig {
                Some(tcpmig) => Some(tcpmig@),
                None => None,
            },
        }
    }
}

/// The migrations of a host that has just started.
pub open spec fn fresh_tcpmig(
    migration: Option<MigrationSettings>,
    local_link_addr: MacAddress,
    local_ipv4_addr: Ipv4Addr,
) -> Option<TcpMigPeerView> {
    match migration {
        Some(settings) => Some(
            TcpMigPeerView::fresh(
                settings.constants,
                local_link_addr,
                local_ipv4_addr,
                settings.additional_mig_delay,
            ),
        ),
        None => None,
    }
}

impl<C, O> TcpPeer<C, O> {
    /// A peer without sockets. Initial sequence numbers come from `nonce`,
    /// later nonces from `rng`.
    pub fn new(
        local_link_addr: MacAddress,
        local_ipv4_addr: Ipv4Addr,
        tcp_config: TcpConfig<C>,
        default_socket_options: O,
        migration: Option<MigrationSettings>,
        nonce: u32,
        rng: NonceSource,
        dead_socket_tx: UnboundedSender<QDesc>,
    ) -> (peer: Self)
        ensures
            peer@ == (TcpPeerView {
                isn_generator: IsnGenerator { nonce },
                local_link_addr,
                local_ipv4_addr,
                tcp_config,
                default_socket_options,
                rng: rng@,
                dead_socket_tx,
                addresses: Map::empty(),
                tcpmig: fresh_tcpmig(migration, local_link_addr, local_ipv4_addr),
            }),
    {
        let tcpmig: Option<TcpMigPeer> = match migration {
            Some(settings) => Some(
                TcpMigPeer::new(
                    settings.constants,
                    local_link_addr,
                    local_ipv4_addr,
                    settings.additional_mig_delay,
                ),
            ),
            None => None,
        };
        TcpPeer {
            isn_generator: IsnGenerator { nonce },
            local_link_addr,
            local_ipv4_addr,
            tcp_config,
            default_socket_options,
            rng,
            dead_socket_tx,
            addresses: Table::new(),
            tcpmig,
        }
    }

    /// Where initial sequence numbers come from.
    pub fn isn_generator(&self) -> (generator: IsnGenerator)
        ensures
            generator == self@.isn_generator,
    {
        self.isn_generator
    }

    /// The address of the host.
    pub fn local_ipv4_addr(&self) -> (addr: Ipv4Addr)
        ensures
            addr == self@.local_ipv4_addr,
    {
        self.local_ipv4_addr
    }

    /// Does the network card verify the checksums of incoming segments?
    pub fn rx_checksum_offload(&self) -> (offload: bool)
        ensures
            offload == self@.tcp_config.rx_checksum_offload,
    {
        self.tcp_config.rx_checksum_offload
    }

    /// Does a socket receive under `id`?
    pub fn is_registered(&self, id: SocketId) -> (b: bool)
        ensures
            b == self@.registered(id),
    {
        self.addresses.contains_key(id)
    }

    /// The socket that receives under `id`.
    pub fn socket_at(&self, id: SocketId) -> (socket: Option<SharedTcpSocket>)
        ensures
            socket == (if self@.registered(id) {
                Some(self@.addresses[id])
            } else {
                None
            }),
    {
        match self.addresses.get(id) {
            Some(socket) => Some(*socket),
            None => None,
        }
    }

    /// The migrations, where the host takes part in migration.
    pub fn tcpmig(&self) -> (tcpmig: Option<&TcpMigPeer>)
        ensures
            tcpmig is Some <==> self@.tcpmig is Some,
            tcpmig matches Some(t) ==> self@.tcpmig == Some(t@),
    {
        match &self.tcpmig {
            Some(tcpmig) => Some(tcpmig),
            None => None,
        }
    }

    /// Is a connection of `remote` being migrated?
    pub fn is_migrating(&self, remote: SocketAddrV4) -> (b: bool)
        ensures
            b == self@.migrating(remote),
    {
        match &self.tcpmig {
            Some(tcpmig) => tcpmig.is_migrating(remote),
            None => false,
        }
    }
}

/// The TCP peer that all parts of a host share.
pub struct SharedTcpPeer<C, O> {
    peer: TcpPeer<C, O>,
}

impl<C, O> View for SharedTcpPeer<C, O> {
    type V = TcpPeerView<C, O>;

    closed spec fn view(&self) -> TcpPeerView<C, O> {
        self.peer@
    }
}

impl<C, O> SharedTcpPeer<C, O> {
    /// Creates a TCP peer, or says which setting is missing.
    ///
    /// Initial sequence numbers come from the first nonce of `rng_seed`, and later
    /// nonces are the next ones.
    pub fn new(
        config: Config<C, O>,
        migration: Option<MigrationSettings>,
        rng_seed: [u8; 32],
    ) -> (outcome: Result<Self, Fail>)
        ensures
            match config.first_failure() {
                Some(fail) => outcome == Err::<Self, Fail>(fail),
                None => {
                    &&& outcome matches Ok(peer)
                    &&& peer@.seeded_with(rng_seed@)
                    &&& peer@ == (TcpPeerView {
                        isn_generator: IsnGenerator {
                            nonce: NonceSourceView::start(rng_seed@).nonce(),
                        },
                        local_link_addr: config.local_link_addr->Ok_0,
                        local_ipv4_addr: config.local_ipv4_addr->Ok_0,
                        tcp_config: config.tcp_config->Ok_0,
                        default_socket_options: config.socket_options->Ok_0,
                        rng: NonceSourceView::start(rng_seed@).advanced(1),
                        dead_socket_tx: peer@.dead_socket_tx,
                        addresses: Map::empty(),
                        tcpmig: fresh_tcpmig(
                            migration,
                            config.local_link_addr->Ok_0,
                            config.local_ipv4_addr->Ok_0,
                        ),
                    })
                },
            },
    {
        let mut rng = NonceSource::new(rng_seed);
        let nonce: u32 = rng.give();
        let (tx, _) = futures::channel::mpsc::unbounded();

        let local_link_addr = match config.local_link_addr {
            Ok(addr) => addr,
            Err(fail) => {
                return Err(fail);
            },
        };
        let local_ipv4_addr = match config.local_ipv4_addr {
            Ok(addr) => addr,
            Err(fail) => {
                return Err(fail);
            },
        };
        let tcp_config = match config.tcp_config {
            Ok(tcp_config) => tcp_config,
            Err(fail) => {
                return Err(fail);
            },
        };
        let socket_options = match config.socket_options {
            Ok(options) => options,
            Err(fail) => {
                return Err(fail);
            },
        };
        let peer = TcpPeer::new(
            local_link_addr,
            local_ipv4_addr,
            tcp_config,
            socket_options,
            migration,
            nonce,
            rng,
            tx,
        );
        Ok(SharedTcpPeer { peer })
    }

    /// The peer.
    pub fn deref(&self) -> (peer: &TcpPeer<C, O>)
        ensures
            peer@ == self@,
    {
        &self.peer
    }

    /// The peer, to be changed.
    pub fn deref_mut(&mut self) -> (peer: &mut TcpPeer<C, O>)
        ensures
            peer@ == old(self)@,
            final(self)@ == final(peer)@,
    {
        &mut self.peer
    }

    /// What a new TCP socket is made from.
    pub fn socket(&self) -> (outcome: Result<SocketParameters<'_, C, O>, Fail>)
        ensures
            outcome matches Ok(parameters) && {
                &&& parameters.local_link_addr == self@.local_link_addr
                &&& *parameters.tcp_config == self@.tcp_config
                &&& *parameters.default_socket_options == self@.default_socket_options
                &&& *parameters.dead_socket_tx == self@.dead_socket_tx
            },
    {
        Ok(
            SocketParameters {
                local_link_addr: self.peer.local_link_addr,
                tcp_config: &self.peer.tcp_config,
                default_socket_options: &self.peer.default_socket_options,
                dead_socket_tx: &self.peer.dead_socket_tx,
            },
        )
    }

    /// Enters a socket under the local endpoint that it was bound to. `issued`
    /// is what the socket made of the bind.
    pub fn bind(
        &mut self,
        socket: SharedTcpSocket,
        local: SocketAddrV4,
        issued: Result<(), Fail>,
    ) -> (outcome: Result<(), Fail>)
        requires
            !local.ip.unspecified(),
            local.port != 0,
            !old(self)@.registered(SocketId::Passive(local)),
        ensures
            outcome == issued,
            final(self)@ == (match issued {
                Ok(_) => old(self)@.with_socket(SocketId::Passive(local), socket),
                Err(_) => old(self)@,
            }),
    {
        if issued.is_ok() {
            self.peer.addresses.insert(SocketId::Passive(local), socket);
        }
        issued
    }

    /// What a socket that is bound to `local` is told when it is marked as
    /// passive: the backlog and the next nonce.
    pub fn listen(&mut self, local: Option<SocketAddrV4>, backlog: usize) -> (request:
        ListenRequest)
        requires
            local is Some,
        ensures
            request == (ListenRequest { backlog, nonce: old(self)@.rng.nonce() }),
            final(self)@ == old(self)@.after_listens(1),
    {
        let nonce: u32 = self.peer.rng.give();
        Self::listen_request(backlog, nonce)
    }

    /// The order to listen with `backlog` and `nonce`.
    pub fn listen_request(backlog: usize, nonce: u32) -> (request: ListenRequest)
        ensures
            request == (ListenRequest { backlog, nonce }),
    {
        ListenRequest { backlog, nonce }
    }

    /// Enters a connection that a socket accepted between a local and a remote
    /// endpoint.
    pub fn accept(
        &mut self,
        accepted: Result<(SharedTcpSocket, SocketAddrV4, SocketAddrV4), Fail>,
    ) -> (outcome: Result<SharedTcpSocket, Fail>)
        ensures
            match accepted {
                Ok((socket, local, remote)) => {
                    &&& outcome == Ok::<SharedTcpSocket, Fail>(socket)
                    &&& final(self)@ == old(self)@.with_socket(
                        SocketId::Active(local, remote),
                        socket,
                    )
                },
                Err(fail) => {
                    &&& outcome == Err::<SharedTcpSocket, Fail>(fail)
                    &&& final(self)@ == old(self)@
                },
            },
    {
        match accepted {
            Ok((socket, local, remote)) => {
                self.peer.addresses.insert(SocketId::Active(local, remote), socket);
                Ok(socket)
            },
            Err(fail) => Err(fail),
        }
    }

    /// Begins to connect `socket`, which is bound to `bound` or not bound, to
    /// `remote`.
    pub fn connect(
        &mut self,
        socket: SharedTcpSocket,
        bound: Option<SocketAddrV4>,
        remote: SocketAddrV4,
    ) -> (step: ConnectStep)
        requires
            bound matches Some(local) ==> !old(self)@.registered(SocketId::Active(local, remote)),
        ensures
            match bound {
                Some(local) => {
                    &&& step == ConnectStep::Connect(local)
                    &&& final(self)@ == old(self)@.connecting(socket, bound, local, remote)
                },
                None => {
                    &&& step == ConnectStep::AllocatePort
                    &&& final(self)@ == old(self)@
                },
            },
    {
        match bound {
            Some(local) => {
                // Use the local address but remove the old binding.
                self.peer.addresses.remove(SocketId::Passive(local));
                self.peer.addresses.insert(SocketId::Active(local, remote), socket);
                ConnectStep::Connect(local)
            },
            None => ConnectStep::AllocatePort,
        }
    }

    /// Goes on to connect `socket`, which is not bound, to `remote`, once the
    /// runtime has answered the call for an ephemeral port. Returns the local
    /// endpoint to connect from.
    pub fn connect_with_port(
        &mut self,
        socket: SharedTcpSocket,
        port: Result<u16, Fail>,
        remote: SocketAddrV4,
    ) -> (outcome: Result<SocketAddrV4, Fail>)
        requires
            port matches Ok(p) ==> !old(self)@.registered(
                SocketId::Active(SocketAddrV4 { ip: old(self)@.local_ipv4_addr, port: p }, remote),
            ),
        ensures
            match port {
                Ok(p) => {
                    let local = SocketAddrV4 { ip: old(self)@.local_ipv4_addr, port: p };
                    &&& outcome == Ok::<SocketAddrV4, Fail>(local)
                    &&& final(self)@ == old(self)@.connecting(socket, None, local, remote)
                },
                Err(fail) => {
                    &&& outcome == Err::<SocketAddrV4, Fail>(fail)
                    &&& final(self)@ == old(self)@
                },
            },
    {
        let local_port: u16 = match port {
            Ok(p) => p,
            Err(fail) => {
                return Err(fail);
            },
        };
        let local = SocketAddrV4::new(self.peer.local_ipv4_addr, local_port);
        self.peer.addresses.insert(SocketId::Active(local, remote), socket);
        Ok(local)
    }

    /// Ends a connect from `local` to `remote`: one that failed leaves no entry.
    pub fn connect_completed(
        &mut self,
        local: SocketAddrV4,
        remote: SocketAddrV4,
        connected: Result<(), Fail>,
    ) -> (outcome: Result<(), Fail>)
        ensures
            outcome == connected,
            final(self)@ == (match connected {
                Ok(_) => old(self)@,
                Err(_) => old(self)@.without_socket(SocketId::Active(local, remote)),
            }),
    {
        if connected.is_err() {
            self.peer.addresses.remove(SocketId::Active(local, remote));
        }
        connected
    }

    /// Ends a push: data that the socket took leaves the buffer.
    pub fn push(&self, pushed: Result<(), Fail>, buf: &mut DemiBuffer) -> (outcome: Result<
        (),
        Fail,
    >)
        ensures
            outcome == pushed,
            final(buf)@ == (match pushed {
                Ok(_) => Seq::empty(),
                Err(_) => old(buf)@,
            }),
    {
        if pushed.is_ok() {
            let len: usize = buf.len();
            buf.trim(len);
            assert(buf@ =~= Seq::empty());
        }
        pushed
    }

    /// Ends a pop: data of a connection comes without the address of its sender.
    pub fn pop(&self, popped: Result<DemiBuffer, Fail>) -> (outcome: Result<
        (Option<SocketAddrV4>, DemiBuffer),
        Fail,
    >)
        ensures
            outcome == (match popped {
                Ok(incoming) => Ok::<(Option<SocketAddrV4>, DemiBuffer), Fail>((None, incoming)),
                Err(fail) => Err(fail),
            }),
    {
        match popped {
            Ok(incoming) => Ok((None, incoming)),
            Err(fail) => Err(fail),
        }
    }

    /// The ephemeral port (if any) to free once the local port of a closed socket
    /// came out. `private` is the runtime's answer whether `port` is one of its
    /// private ephemeral ports.
    pub fn free_ephemeral_port(port: u16, private: bool) -> (freed: Option<u16>)
        ensures
            freed == freed_port(port, private),
    {
        if private {
            Some(port)
        } else {
            None
        }
    }

    /// Ends a close. `closed` holds the name under which the socket received,
    /// if it had one. Returns the local port of that name, for
    /// [`SharedTcpPeer::free_ephemeral_port`].
    pub fn close(&mut self, closed: Result<Option<SocketId>, Fail>) -> (outcome: Result<
        Option<u16>,
        Fail,
    >)
        ensures
            old(self)@.closes(closed, outcome, final(self)@),
            closed matches Ok(Some(SocketId::Active(local, _))) ==> outcome == Ok::<
                Option<u16>,
                Fail,
            >(Some(local.port)),
            closed matches Ok(Some(SocketId::Passive(local))) ==> outcome == Ok::<
                Option<u16>,
                Fail,
            >(Some(local.port)),
    {
        match closed {
            Ok(Some(socket_id)) => {
                self.peer.addresses.remove(socket_id);
                Ok(Some(socket_id.get_local().port))
            },
            Ok(None) => Ok(None),
            Err(fail) => Err(fail),
        }
    }

    /// Ends a close that did not wait for the remote, in the same way as
    /// [`SharedTcpPeer::close`].
    pub fn hard_close(&mut self, closed: Result<Option<SocketId>, Fail>) -> (outcome: Result<
        Option<u16>,
        Fail,
    >)
        ensures
            old(self)@.closes(closed, outcome, final(self)@),
            closed matches Ok(Some(SocketId::Active(local, _))) ==> outcome == Ok::<
                Option<u16>,
                Fail,
            >(Some(local.port)),
            closed matches Ok(Some(SocketId::Passive(local))) ==> outcome == Ok::<
                Option<u16>,
                Fail,
            >(Some(local.port)),
    {
        self.close(closed)
    }

    /// Decides about an incoming TCP segment, whose header and data were read
    /// or not. Every segment from a valid address is counted by `pacer`, where
    /// the host takes part in migration.
    pub fn receive(
        &mut self,
        pacer: &mut MigrationPacer,
        ip_hdr: Ipv4Header,
        segment: Result<(TcpHeader, DemiBuffer), Fail>,
    ) -> (verdict: Verdict)
        ensures
            segment matches Ok((tcp_hdr, _)) ==> (verdict is InvalidRemote <==> {
                let ip = ip_hdr.src_addr;
                ||| ip.a == 0 && ip.b == 0 && ip.c == 0 && ip.d == 0
                ||| ip.a == 255 && ip.b == 255 && ip.c == 255 && ip.d == 255
                ||| 224 <= ip.a <= 239
            }),
            match segment {
                Err(fail) => {
                    &&& verdict == Verdict::InvalidHeader(fail)
                    &&& final(self)@ == old(self)@
                    &&& final(pacer)@ == old(pacer)@
                },
                Ok((tcp_hdr, data)) => {
                    let local = segment_local(ip_hdr, tcp_hdr);
                    let remote = segment_remote(ip_hdr, tcp_hdr);
                    if remote.ip.invalid_source() {
                        &&& verdict == Verdict::InvalidRemote(remote.ip)
                        &&& final(self)@ == old(self)@
                        &&& final(pacer)@ == old(pacer)@
                    } else {
                        &&& final(pacer)@ == old(self)@.next_count(old(pacer)@)
                        &&& match old(self)@.route(local, remote) {
                            Route::ToSocket(socket) => {
                                &&& verdict == Verdict::Deliver(
                                    (Delivery {
                                        socket,
                                        ip_hdr,
                                        tcp_hdr,
                                        data,
                                        migrate: old(self)@.due(old(pacer)@),
                                    }),
                                )
                                &&& final(self)@ == old(self)@
                            },
                            Route::Aside => {
                                &&& verdict == Verdict::Buffered
                                &&& final(self)@ == old(self)@.with_tcpmig(
                                    old(self)@.tcpmig.unwrap().buffered(remote, tcp_hdr, data),
                                )
                            },
                            Route::Nowhere => {
                                &&& verdict == Verdict::NoSocket(remote.ip)
                                &&& final(self)@ == old(self)@
                            },
                        }
                    }
                },
            },
    {
        let (tcp_hdr, data) = match segment {
            Ok(parsed) => parsed,
            Err(fail) => {
                return Verdict::InvalidHeader(fail);
            },
        };
        let local = SocketAddrV4::new(ip_hdr.dest_addr, tcp_hdr.dst_port);
        let remote = SocketAddrV4::new(ip_hdr.src_addr, tcp_hdr.src_port);

        if remote.ip.is_broadcast() || remote.ip.is_multicast() || remote.ip.is_unspecified() {
            return Verdict::InvalidRemote(remote.ip);
        }
        let migrate: bool = match &self.peer.tcpmig {
            Some(tcpmig) => tcpmig.should_migrate(pacer),
            None => false,
        };

        // Retrieve the socket based on the incoming segment.
        if let Some(socket) = self.peer.socket_at(SocketId::Active(local, remote)) {
            return Verdict::Deliver(Delivery { socket, ip_hdr, tcp_hdr, data, migrate });
        }
        // Check if the connection is being migrated.
        let (tcp_hdr, data) = match &mut self.peer.tcpmig {
            Some(tcpmig) => match tcpmig.try_buffer_packet(remote, tcp_hdr, data) {
                Ok(()) => {
                    return Verdict::Buffered;
                },
                Err(segment) => segment,
            },
            None => (tcp_hdr, data),
        };
        match self.peer.socket_at(SocketId::Passive(local)) {
            Some(socket) => Verdict::Deliver(
                Delivery { socket, ip_hdr, tcp_hdr, data, migrate },
            ),
            None => Verdict::NoSocket(remote.ip),
        }
    }

    /// Ends the delivery of a segment to `socket`, which now connects `local`
    /// and `remote`. Where the segment was one to migrate on, the connection
    /// begins to migrate: returns the request to transmit.
    pub fn delivered(
        &mut self,
        socket: SharedTcpSocket,
        migrate: bool,
        local: Option<SocketAddrV4>,
        remote: Option<SocketAddrV4>,
    ) -> (segment: Option<TcpMigSegment>)
        requires
            migrate ==> {
                &&& old(self)@.tcpmig is Some
                &&& local is Some
                &&& remote matches Some(r) && !old(self)@.migrating(r)
            },
        ensures
            !migrate ==> segment is None && final(self)@ == old(self)@,
            migrate ==> {
                let tcpmig = old(self)@.tcpmig.unwrap();
                &&& segment matches Some(request)
                &&& request@ == tcpmig.request(socket, local.unwrap(), remote.unwrap())
                &&& final(self)@ == old(self)@.with_tcpmig(
                    tcpmig.initiated(socket, local.unwrap(), remote.unwrap()),
                )
            },
    {
        if !migrate {
            return None;
        }
        match (&mut self.peer.tcpmig, local, remote) {
            (Some(tcpmig), Some(local), Some(remote)) => Some(
                tcpmig.initiate_migration(socket, local, remote),
            ),
            _ => {
                assert(false);
                None
            },
        }
    }

    /// Takes a migration message, whose header and payload were read or not.
    /// Returns what to do next.
    pub fn receive_tcpmig(
        &mut self,
        message: Result<(TcpMigHeader, DemiBuffer), Fail>,
    ) -> (outcome: Result<MigrationStep, Fail>)
        requires
            old(self)@.tcpmig is Some,
            message matches Ok((hdr, _)) ==> !old(self)@.tcpmig.unwrap().returned(hdr),
        ensures
            match message {
                Ok((hdr, _)) => {
                    &&& outcome == Ok::<MigrationStep, Fail>(MigrationStep::Idle)
                    &&& final(self)@ == old(self)@.with_tcpmig(
                        old(self)@.tcpmig.unwrap().received(hdr),
                    )
                },
                Err(fail) => {
                    &&& outcome == Err::<MigrationStep, Fail>(fail)
                    &&& final(self)@ == old(self)@
                },
            },
    {
        let received: Result<TcpmigReceiveStatus, Fail> = match &mut self.peer.tcpmig {
            Some(tcpmig) => tcpmig.receive(message),
            None => {
                assert(false);
                Ok(TcpmigReceiveStatus::Handled)
            },
        };
        match received {
            Ok(status) => Ok(self.apply_status(status)),
            Err(fail) => Err(fail),
        }
    }

    /// Acts on what a migration message led to. A connection that a target
    /// takes leaves the table, and its state is to be sent; one that arrives
    /// goes to the socket that is bound to its local endpoint.
    pub fn apply_status(&mut self, status: TcpmigReceiveStatus) -> (step: MigrationStep)
        requires
            old(self)@.in_order(status),
        ensures
            match status {
                TcpmigReceiveStatus::PrepareMigrationAcked(local, remote) => {
                    let id = SocketId::Active(local, remote);
                    &&& step == MigrationStep::SendState(old(self)@.addresses[id])
                    &&& final(self)@ == old(self)@.without_socket(id)
                },
                TcpmigReceiveStatus::StateReceived(state) => {
                    let id = SocketId::Passive(state.cb@.local);
                    &&& step == MigrationStep::MigrateIn(old(self)@.addresses[id], state)
                    &&& final(self)@ == old(self)@
                },
                _ => step is Idle && final(self)@ == old(self)@,
            },
    {
        match status {
            TcpmigReceiveStatus::Handled => MigrationStep::Idle,
            TcpmigReceiveStatus::SentReject => MigrationStep::Idle,
            TcpmigReceiveStatus::Rejected(_, _) => MigrationStep::Idle,
            TcpmigReceiveStatus::ReturnedBySwitch(_, _) => {
                assert(false);
                MigrationStep::Idle
            },
            TcpmigReceiveStatus::PrepareMigrationAcked(local, remote) => {
                let socket = self.peer.addresses.remove(SocketId::Active(local, remote)).unwrap();
                MigrationStep::SendState(socket)
            },
            TcpmigReceiveStatus::StateReceived(state) => {
                let (socket, state) = self.migrate_in_connection(state);
                MigrationStep::MigrateIn(socket, state)
            },
        }
    }

    /// The socket that takes an arriving connection in: the one that is bound
    /// to the connection's local endpoint.
    pub fn migrate_in_connection(&self, state: TcpState) -> (taken: (SharedTcpSocket, TcpState))
        requires
            self@.registered(SocketId::Passive(state.cb@.local)),
        ensures
            taken == (self@.addresses[SocketId::Passive(state.cb@.local)], state),
    {
        let local = state.cb.local();
        let socket = *self.peer.addresses.get(SocketId::Passive(local)).unwrap();
        (socket, state)
    }
}

} // verus!
