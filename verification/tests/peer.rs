use rand::rngs::SmallRng;
use rand::{Rng, SeedableRng};
use tcpmig::address::{Ipv4Addr, MacAddress, QDesc, SharedTcpSocket, SocketAddrV4, SocketId};
use tcpmig::buffer::DemiBuffer;
use tcpmig::fail::{Errno, Fail};
use tcpmig::frame::{IpProtocol, Ipv4Header, TcpHeader};
use tcpmig::tcp::peer::{
    Config, ConnectStep, Delivery, ListenRequest, MigrationSettings, MigrationStep,
    SharedTcpPeer, TcpConfig, TcpPeer, Verdict,
};
use tcpmig::tcp::random::NonceSource;
use tcpmig::tcp::state::{ControlBlockState, TcpState};
use tcpmig::tcpmig::pacer::MigrationPacer;
use tcpmig::tcpmig::peer::TcpmigReceiveStatus;
use tcpmig::tcpmig::segment::{
    FragmentSize, MigrationStage, TcpMigConstants, TcpMigHeader,
};

const SEED: [u8; 32] = [7; 32];

fn mac(last: u8) -> MacAddress {
    MacAddress { octets: [2, 0, 0, 0, 0, last] }
}

fn ip(d: u8) -> Ipv4Addr {
    Ipv4Addr::new(10, 0, 1, d)
}

fn addr(d: u8, port: u16) -> SocketAddrV4 {
    SocketAddrV4::new(ip(d), port)
}

fn socket(number: u32) -> SharedTcpSocket {
    SharedTcpSocket { qd: QDesc { number } }
}

fn fail(number: i32) -> Fail {
    Fail::new(Errno::Os(number), "no")
}

fn settings(delay: u32) -> MigrationSettings {
    MigrationSettings {
        constants: TcpMigConstants {
            frontend_ip: ip(100),
            frontend_mac: mac(100),
            self_udp_port: 10000,
            origin_port: 10000,
            target_port: 10001,
            max_fragment_size: FragmentSize::new(1024).unwrap(),
        },
        additional_mig_delay: delay,
    }
}

fn config() -> Config<u16, &'static str> {
    Config {
        local_link_addr: Ok(mac(8)),
        local_ipv4_addr: Ok(ip(8)),
        tcp_config: Ok(TcpConfig { rx_checksum_offload: true, parameters: 1460 }),
        socket_options: Ok("nodelay"),
    }
}

fn peer(migration: Option<MigrationSettings>) -> SharedTcpPeer<u16, &'static str> {
    SharedTcpPeer::new(config(), migration, SEED).ok().unwrap()
}

fn segment(
    peer: &mut SharedTcpPeer<u16, &'static str>,
    pacer: &mut MigrationPacer,
    local: SocketAddrV4,
    remote: SocketAddrV4,
    mark: u8,
) -> Verdict {
    let ip_hdr = Ipv4Header::new(remote.ip, local.ip, IpProtocol::Tcp);
    let tcp_hdr = TcpHeader { src_port: remote.port, dst_port: local.port, rest: vec![mark] };
    peer.receive(pacer, ip_hdr, Ok((tcp_hdr, DemiBuffer::from_vec(vec![mark]))))
}

fn delivered_to(verdict: &Verdict) -> Option<SharedTcpSocket> {
    match verdict {
        Verdict::Deliver(delivery) => Some(delivery.socket),
        _ => None,
    }
}

#[test]
fn new_peer_has_its_settings() {
    let peer = peer(Some(settings(0)));
    let parameters = peer.socket().ok().unwrap();
    assert_eq!(parameters.local_link_addr, mac(8));
    assert_eq!(*parameters.tcp_config, TcpConfig { rx_checksum_offload: true, parameters: 1460 });
    assert_eq!(*parameters.default_socket_options, "nodelay");
    // Nobody listens at the other end.
    assert!(parameters.dead_socket_tx.is_closed());
    assert!(peer.deref().rx_checksum_offload());
    assert!(peer.deref().tcpmig().is_some());
    assert!(!peer.deref().is_registered(SocketId::Passive(addr(8, 80))));
}

#[test]
fn nonces_come_from_the_seed() {
    let mut rng = SmallRng::from_seed(SEED);
    let first: u32 = rng.gen();
    let second: u32 = rng.gen();
    let mut peer = peer(None);
    assert_eq!(peer.deref().isn_generator().nonce, first);
    let request = peer.listen(Some(addr(8, 80)), 16);
    assert_eq!(request, ListenRequest { backlog: 16, nonce: second });
    assert_eq!(
        SharedTcpPeer::<u8, u8>::listen_request(3, 4),
        ListenRequest { backlog: 3, nonce: 4 }
    );
}

#[test]
fn nonces_come_in_a_row() {
    let mut rng = SmallRng::from_seed(SEED);
    let mut source = NonceSource::new(SEED);
    let mut other = NonceSource::new([8; 32]);
    let row: Vec<u32> = (0..20).map(|_| source.give()).collect();
    let expected: Vec<u32> = (0..20).map(|_| rng.gen()).collect();
    assert_eq!(row, expected);
    assert_ne!(row[0], other.give());
}

#[test]
fn known_nonces_of_a_seed() {
    // State words 1, 2, 3 and 4: the upper halves of the first numbers of xoshiro256++.
    let mut seed = [0u8; 32];
    seed[0] = 1;
    seed[8] = 2;
    seed[16] = 3;
    seed[24] = 4;
    let mut source = NonceSource::new(seed);
    let expected: [u64; 4] = [41943041, 58720359, 3588806011781223, 3591011842654386];
    for number in expected {
        assert_eq!(source.give() as u64, number >> 32);
    }
}

#[test]
fn assembled_peer_keeps_its_nonce() {
    let (tx, _rx) = futures::channel::mpsc::unbounded();
    let peer = TcpPeer::new(
        mac(1),
        ip(1),
        TcpConfig { rx_checksum_offload: false, parameters: () },
        5u8,
        None,
        77,
        NonceSource::new(SEED),
        tx,
    );
    assert_eq!(peer.isn_generator().nonce, 77);
    assert!(!peer.rx_checksum_offload());
    assert!(peer.tcpmig().is_none());
    assert!(!peer.is_migrating(addr(20, 1)));
}

#[test]
fn first_missing_setting_is_reported() {
    let mut c = config();
    c.socket_options = Err(fail(4));
    assert_eq!(SharedTcpPeer::new(c, None, SEED).err().unwrap().errno(), 4);
    let mut c = config();
    c.socket_options = Err(fail(4));
    c.tcp_config = Err(fail(3));
    assert_eq!(SharedTcpPeer::new(c, None, SEED).err().unwrap().errno(), 3);
    let mut c = config();
    c.tcp_config = Err(fail(3));
    c.local_ipv4_addr = Err(fail(2));
    assert_eq!(SharedTcpPeer::new(c, None, SEED).err().unwrap().errno(), 2);
    let mut c = config();
    c.local_ipv4_addr = Err(fail(2));
    c.local_link_addr = Err(fail(1));
    assert_eq!(SharedTcpPeer::new(c, Some(settings(0)), SEED).err().unwrap().errno(), 1);
}

#[test]
fn bound_socket_receives() {
    let mut peer = peer(None);
    let mut pacer = MigrationPacer::new();
    assert!(peer.bind(socket(1), addr(8, 80), Ok(())).is_ok());
    assert_eq!(peer.deref().socket_at(SocketId::Passive(addr(8, 80))), Some(socket(1)));
    let v = segment(&mut peer, &mut pacer, addr(8, 80), addr(20, 4000), 5);
    match v {
        Verdict::Deliver(Delivery { socket: s, ip_hdr, tcp_hdr, data, migrate }) => {
            assert_eq!(s, socket(1));
            assert_eq!(ip_hdr, Ipv4Header::new(ip(20), ip(8), IpProtocol::Tcp));
            assert_eq!((tcp_hdr.src_port, tcp_hdr.dst_port), (4000, 80));
            assert_eq!(tcp_hdr.rest, vec![5]);
            assert_eq!(data.as_slice(), &[5][..]);
            assert!(!migrate);
        },
        other => panic!("{:?}", other),
    }
}

#[test]
fn failed_bind_leaves_no_entry() {
    let mut peer = peer(None);
    assert_eq!(peer.bind(socket(1), addr(8, 80), Err(fail(98))).err().unwrap().errno(), 98);
    assert!(!peer.deref().is_registered(SocketId::Passive(addr(8, 80))));
}

#[test]
fn connection_comes_before_binding() {
    let mut peer = peer(None);
    let mut pacer = MigrationPacer::new();
    peer.bind(socket(1), addr(8, 80), Ok(())).unwrap();
    let accepted = peer.accept(Ok((socket(2), addr(8, 80), addr(20, 4000))));
    assert_eq!(accepted.ok(), Some(socket(2)));
    let v = segment(&mut peer, &mut pacer, addr(8, 80), addr(20, 4000), 0);
    assert_eq!(delivered_to(&v), Some(socket(2)));
    let v = segment(&mut peer, &mut pacer, addr(8, 80), addr(20, 4001), 0);
    assert_eq!(delivered_to(&v), Some(socket(1)));
    let v = segment(&mut peer, &mut pacer, addr(8, 81), addr(20, 4000), 0);
    assert!(matches!(v, Verdict::NoSocket(a) if a == ip(20)));
}

#[test]
fn failed_accept_leaves_no_entry() {
    let mut peer = peer(None);
    assert_eq!(peer.accept(Err(fail(103))).err().unwrap().errno(), 103);
    assert!(!peer.deref().is_registered(SocketId::Active(addr(8, 80), addr(20, 4000))));
}

#[test]
fn bound_socket_connects_from_its_endpoint() {
    let mut peer = peer(None);
    let mut pacer = MigrationPacer::new();
    let (local, remote) = (addr(8, 5000), addr(20, 80));
    peer.bind(socket(1), local, Ok(())).unwrap();
    assert_eq!(peer.connect(socket(1), Some(local), remote), ConnectStep::Connect(local));
    assert!(!peer.deref().is_registered(SocketId::Passive(local)));
    let v = segment(&mut peer, &mut pacer, local, remote, 0);
    assert_eq!(delivered_to(&v), Some(socket(1)));
    assert!(peer.connect_completed(local, remote, Ok(())).is_ok());
    assert!(peer.deref().is_registered(SocketId::Active(local, remote)));
}

#[test]
fn failed_connect_unbinds() {
    let mut peer = peer(None);
    let (local, remote) = (addr(8, 5000), addr(20, 80));
    peer.bind(socket(1), local, Ok(())).unwrap();
    peer.connect(socket(1), Some(local), remote);
    let outcome = peer.connect_completed(local, remote, Err(fail(111)));
    assert_eq!(outcome.err().unwrap().errno(), 111);
    assert!(!peer.deref().is_registered(SocketId::Active(local, remote)));
    assert!(!peer.deref().is_registered(SocketId::Passive(local)));
}

#[test]
fn unbound_socket_connects_from_an_ephemeral_port() {
    let mut peer = peer(None);
    let remote = addr(20, 80);
    assert_eq!(peer.connect(socket(1), None, remote), ConnectStep::AllocatePort);
    let local = peer.connect_with_port(socket(1), Ok(49200), remote).ok().unwrap();
    assert_eq!(local, addr(8, 49200));
    assert_eq!(peer.deref().socket_at(SocketId::Active(local, remote)), Some(socket(1)));
    peer.connect_completed(local, remote, Err(fail(110))).err().unwrap();
    assert!(!peer.deref().is_registered(SocketId::Active(local, remote)));
}

#[test]
fn no_port_no_connection() {
    let mut peer = peer(None);
    let outcome = peer.connect_with_port(socket(1), Err(fail(99)), addr(20, 80));
    assert_eq!(outcome.err().unwrap().errno(), 99);
}

#[test]
fn pushed_data_leaves_the_buffer() {
    let peer = peer(None);
    let mut buf = DemiBuffer::from_vec(vec![1, 2, 3]);
    assert!(peer.push(Err(fail(32)), &mut buf).is_err());
    assert_eq!(buf.as_slice(), &[1, 2, 3][..]);
    assert!(peer.push(Ok(()), &mut buf).is_ok());
    assert_eq!(buf.len(), 0);
}

#[test]
fn popped_data_has_no_sender() {
    let peer = peer(None);
    let (from, data) = peer.pop(Ok(DemiBuffer::from_vec(vec![4]))).ok().unwrap();
    assert_eq!(from, None);
    assert_eq!(data.as_slice(), &[4][..]);
    assert_eq!(peer.pop(Err(fail(9))).err().unwrap().errno(), 9);
}

#[test]
fn close_gives_the_local_port() {
    let mut peer = peer(None);
    let remote = addr(20, 80);
    let local = peer.connect_with_port(socket(1), Ok(49152), remote).ok().unwrap();
    let id = SocketId::Active(local, remote);
    assert_eq!(peer.close(Ok(Some(id))).ok(), Some(Some(49152)));
    assert!(!peer.deref().is_registered(id));

    peer.bind(socket(2), addr(8, 80), Ok(())).unwrap();
    let id = SocketId::Passive(addr(8, 80));
    assert_eq!(peer.close(Ok(Some(id))).ok(), Some(Some(80)));
    assert!(!peer.deref().is_registered(id));
}

#[test]
fn private_ports_are_freed() {
    assert_eq!(SharedTcpPeer::<u8, u8>::free_ephemeral_port(49152, true), Some(49152));
    assert_eq!(SharedTcpPeer::<u8, u8>::free_ephemeral_port(80, false), None);
}

#[test]
fn hard_close_ends_as_close_does() {
    let id = SocketId::Passive(addr(8, 80));
    for case in 0..3 {
        let closed = || match case {
            0 => Ok(Some(id)),
            1 => Ok(None),
            _ => Err(fail(9)),
        };
        let (mut one, mut two) = (peer(None), peer(None));
        one.bind(socket(2), addr(8, 80), Ok(())).unwrap();
        two.bind(socket(2), addr(8, 80), Ok(())).unwrap();
        match (one.close(closed()), two.hard_close(closed())) {
            (Ok(a), Ok(b)) => assert_eq!(a, b),
            (Err(a), Err(b)) => assert_eq!((a.code, a.cause), (b.code, b.cause)),
            _ => panic!("one failed and one did not"),
        }
        assert_eq!(one.deref().is_registered(id), case != 0);
        assert_eq!(two.deref().is_registered(id), case != 0);
    }
}

#[test]
fn close_without_name_changes_nothing() {
    let mut peer = peer(None);
    peer.bind(socket(2), addr(8, 80), Ok(())).unwrap();
    assert_eq!(peer.close(Ok(None)).ok(), Some(None));
    assert_eq!(peer.close(Err(fail(9))).err().unwrap().errno(), 9);
    assert_eq!(peer.hard_close(Err(fail(8))).err().unwrap().errno(), 8);
    assert!(peer.deref().is_registered(SocketId::Passive(addr(8, 80))));
}

#[test]
fn one_seed_one_row_of_nonces() {
    let (mut one, mut two) = (peer(None), peer(Some(settings(0))));
    assert_eq!(one.deref().isn_generator(), two.deref().isn_generator());
    // What happens in between does not touch the generator.
    two.bind(socket(1), addr(8, 80), Ok(())).unwrap();
    two.accept(Ok((socket(2), addr(8, 80), addr(20, 4000)))).ok().unwrap();
    for backlog in 0..5 {
        assert_eq!(one.listen(Some(addr(8, 80)), backlog), two.listen(Some(addr(8, 80)), backlog));
    }
}

#[test]
fn closed_connection_falls_back_to_the_binding() {
    let mut peer = peer(None);
    let mut pacer = MigrationPacer::new();
    peer.bind(socket(1), addr(8, 80), Ok(())).unwrap();
    peer.accept(Ok((socket(2), addr(8, 80), addr(20, 4000)))).ok().unwrap();
    peer.close(Ok(Some(SocketId::Active(addr(8, 80), addr(20, 4000))))).ok().unwrap();
    let v = segment(&mut peer, &mut pacer, addr(8, 80), addr(20, 4000), 0);
    assert_eq!(delivered_to(&v), Some(socket(1)));
}

#[test]
fn bad_segments_are_dropped_and_not_counted() {
    let mut peer = peer(Some(settings(0)));
    let mut pacer = MigrationPacer::new();
    peer.bind(socket(1), addr(8, 80), Ok(())).unwrap();
    let bad = [
        Ipv4Addr::new(0, 0, 0, 0),
        Ipv4Addr::new(255, 255, 255, 255),
        Ipv4Addr::new(224, 0, 0, 1),
    ];
    for source in bad {
        let v = segment(&mut peer, &mut pacer, addr(8, 80), SocketAddrV4::new(source, 1), 0);
        assert!(matches!(v, Verdict::InvalidRemote(a) if a == source));
    }
    let hdr = Ipv4Header::new(ip(20), ip(8), IpProtocol::Tcp);
    let v = peer.receive(&mut pacer, hdr, Err(fail(74)));
    assert!(matches!(v, Verdict::InvalidHeader(f) if f.errno() == 74));
    for n in 1..=15 {
        match segment(&mut peer, &mut pacer, addr(8, 80), addr(20, 4000), 0) {
            Verdict::Deliver(delivery) => assert_eq!(delivery.migrate, n == 15),
            other => panic!("{:?}", other),
        }
    }
}

#[test]
fn segments_to_nowhere_are_counted() {
    let mut peer = peer(Some(settings(0)));
    let mut pacer = MigrationPacer::new();
    for _ in 0..14 {
        let v = segment(&mut peer, &mut pacer, addr(8, 80), addr(20, 4000), 0);
        assert!(matches!(v, Verdict::NoSocket(_)));
    }
    peer.bind(socket(1), addr(8, 80), Ok(())).unwrap();
    let v = segment(&mut peer, &mut pacer, addr(8, 80), addr(20, 4000), 0);
    assert!(matches!(v, Verdict::Deliver(d) if d.migrate));
}

#[test]
fn connection_migrates_out() {
    let mut peer = peer(Some(settings(0)));
    let mut pacer = MigrationPacer::new();
    let (local, remote) = (addr(8, 80), addr(20, 4000));
    peer.bind(socket(1), local, Ok(())).unwrap();
    peer.accept(Ok((socket(2), local, remote))).ok().unwrap();
    for _ in 0..14 {
        segment(&mut peer, &mut pacer, local, remote, 0);
    }
    let delivery = match segment(&mut peer, &mut pacer, local, remote, 0) {
        Verdict::Deliver(delivery) => delivery,
        other => panic!("{:?}", other),
    };
    assert!(delivery.migrate);
    let request =
        peer.delivered(delivery.socket, delivery.migrate, Some(local), Some(remote)).unwrap();
    assert_eq!(request.tcpmig_hdr.stage, MigrationStage::PrepareMigration);
    assert_eq!((request.tcpmig_hdr.origin, request.tcpmig_hdr.client), (local, remote));
    assert!(peer.deref().is_migrating(remote));

    // Until the target takes over, the socket goes on.
    let v = segment(&mut peer, &mut pacer, local, remote, 0);
    assert_eq!(delivered_to(&v), Some(socket(2)));

    let step = peer.apply_status(TcpmigReceiveStatus::PrepareMigrationAcked(local, remote));
    assert!(matches!(step, MigrationStep::SendState(s) if s == socket(2)));
    assert!(!peer.deref().is_registered(SocketId::Active(local, remote)));
    assert!(matches!(segment(&mut peer, &mut pacer, local, remote, 1), Verdict::Buffered));
    assert!(matches!(segment(&mut peer, &mut pacer, local, remote, 2), Verdict::Buffered));
    let queue = peer.deref().tcpmig().unwrap().migration(remote).unwrap().recv_queue();
    assert_eq!(queue.len(), 2);
    assert_eq!((queue[0].0.rest[0], queue[1].0.rest[0]), (1, 2));
}

#[test]
fn ordinary_delivery_asks_for_nothing() {
    let mut peer = peer(Some(settings(0)));
    assert!(peer.delivered(socket(1), false, None, None).is_none());
    assert!(!peer.deref().is_migrating(addr(20, 4000)));
}

#[test]
fn connection_migrates_in() {
    let mut peer = peer(Some(settings(0)));
    let mut pacer = MigrationPacer::new();
    let (local, remote) = (addr(8, 80), addr(20, 4000));
    peer.bind(socket(1), local, Ok(())).unwrap();
    let hdr = TcpMigHeader::new(
        addr(9, 7000),
        remote,
        0,
        MigrationStage::PrepareMigration,
        10000,
        10001,
    );
    let step = peer.receive_tcpmig(Ok((hdr, DemiBuffer::new(0)))).ok().unwrap();
    assert!(matches!(step, MigrationStep::Idle));
    assert!(peer.deref().is_migrating(remote));
    assert!(matches!(segment(&mut peer, &mut pacer, local, remote, 0), Verdict::Buffered));
    // Other clients are not affected.
    let v = segment(&mut peer, &mut pacer, local, addr(21, 4000), 0);
    assert_eq!(delivered_to(&v), Some(socket(1)));

    let state = TcpState::new(ControlBlockState::new(local, remote, vec![1, 2]));
    match peer.apply_status(TcpmigReceiveStatus::StateReceived(state)) {
        MigrationStep::MigrateIn(s, state) => {
            assert_eq!(s, socket(1));
            assert_eq!(state.connection(), (local, remote));
        },
        other => panic!("{:?}", other),
    }
}

#[test]
fn other_statuses_ask_for_nothing() {
    let mut peer = peer(Some(settings(0)));
    for status in [
        TcpmigReceiveStatus::Handled,
        TcpmigReceiveStatus::SentReject,
        TcpmigReceiveStatus::Rejected(addr(8, 80), addr(20, 4000)),
    ] {
        assert!(matches!(peer.apply_status(status), MigrationStep::Idle));
    }
}

#[test]
fn unreadable_migration_message_is_passed_on() {
    let mut peer = peer(Some(settings(0)));
    assert_eq!(peer.receive_tcpmig(Err(fail(22))).err().unwrap().errno(), 22);
}

#[test]
fn without_migration_nothing_is_counted() {
    let mut peer = peer(None);
    let mut pacer = MigrationPacer::new();
    peer.bind(socket(1), addr(8, 80), Ok(())).unwrap();
    for _ in 0..40 {
        let v = segment(&mut peer, &mut pacer, addr(8, 80), addr(20, 4000), 0);
        assert!(matches!(v, Verdict::Deliver(d) if !d.migrate));
    }
    for _ in 0..14 {
        assert!(!pacer.tick());
    }
    assert!(pacer.tick());
}

#[test]
fn bindings_do_not_disturb_each_other() {
    let mut peer = peer(None);
    let mut pacer = MigrationPacer::new();
    peer.bind(socket(1), addr(8, 80), Ok(())).unwrap();
    peer.bind(socket(2), addr(8, 81), Ok(())).unwrap();
    let v = segment(&mut peer, &mut pacer, addr(8, 80), addr(20, 4000), 0);
    assert_eq!(delivered_to(&v), Some(socket(1)));
    peer.close(Ok(Some(SocketId::Passive(addr(8, 80))))).ok().unwrap();
    let v = segment(&mut peer, &mut pacer, addr(8, 81), addr(20, 4000), 0);
    assert_eq!(delivered_to(&v), Some(socket(2)));
    let v = segment(&mut peer, &mut pacer, addr(8, 80), addr(20, 4000), 0);
    assert!(matches!(v, Verdict::NoSocket(_)));
    // The endpoint is free again.
    peer.bind(socket(3), addr(8, 80), Ok(())).unwrap();
    assert_eq!(
        peer.deref_mut().socket_at(SocketId::Passive(addr(8, 80))),
        Some(socket(3))
    );
    assert_eq!(peer.deref().local_ipv4_addr(), ip(8));
}

#[test]
fn putting_aside_keeps_other_routes() {
    let mut peer = peer(Some(settings(0)));
    let mut pacer = MigrationPacer::new();
    let (local, remote) = (addr(8, 80), addr(20, 4000));
    peer.bind(socket(1), local, Ok(())).unwrap();
    peer.accept(Ok((socket(2), addr(8, 81), remote))).ok().unwrap();
    let hdr = TcpMigHeader::new(
        addr(9, 7000),
        remote,
        0,
        MigrationStage::PrepareMigration,
        10000,
        10001,
    );
    peer.receive_tcpmig(Ok((hdr, DemiBuffer::new(0)))).ok().unwrap();
    for _ in 0..3 {
        assert!(matches!(segment(&mut peer, &mut pacer, local, remote, 0), Verdict::Buffered));
        // A connection that is here goes on.
        let v = segment(&mut peer, &mut pacer, addr(8, 81), remote, 0);
        assert_eq!(delivered_to(&v), Some(socket(2)));
    }
}
