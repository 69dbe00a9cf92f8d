use tcpmig::address::{Ipv4Addr, MacAddress, QDesc, SharedTcpSocket, SocketAddrV4};
use tcpmig::buffer::DemiBuffer;
use tcpmig::fail::{Errno, Fail};
use tcpmig::frame::{EtherType2, IpProtocol, Ipv4Header, TcpHeader};
use tcpmig::tcpmig::active::ActiveMigration;
use tcpmig::tcpmig::delay::parse_mig_delay;
use tcpmig::tcpmig::pacer::MigrationPacer;
use tcpmig::tcpmig::peer::{
    ApplicationStateId, MigratedApplicationState, TcpMigPeer, TcpmigReceiveStatus,
};
use tcpmig::tcpmig::segment::{
    FragmentSize, MigrationStage, TcpMigConstants, TcpMigHeader,
};

fn mac(last: u8) -> MacAddress {
    MacAddress { octets: [2, 0, 0, 0, 0, last] }
}

fn ip(d: u8) -> Ipv4Addr {
    Ipv4Addr::new(10, 0, 1, d)
}

fn addr(d: u8, port: u16) -> SocketAddrV4 {
    SocketAddrV4::new(ip(d), port)
}

fn socket(number: u32) -> SharedTcpSocket {
    SharedTcpSocket { qd: QDesc { number } }
}

fn constants(self_udp_port: u16) -> TcpMigConstants {
    TcpMigConstants {
        frontend_ip: ip(100),
        frontend_mac: mac(100),
        self_udp_port,
        origin_port: 10000,
        target_port: 10001,
        max_fragment_size: FragmentSize::new(1024).unwrap(),
    }
}

fn peer(self_udp_port: u16, delay: u32) -> TcpMigPeer {
    TcpMigPeer::new(constants(self_udp_port), mac(8), ip(8), delay)
}

fn header(stage: MigrationStage) -> TcpMigHeader {
    TcpMigHeader::new(addr(9, 7000), addr(20, 4000), 0, stage, 10000, 10001)
}

fn message(hdr: TcpMigHeader) -> Result<(TcpMigHeader, DemiBuffer), Fail> {
    Ok((hdr, DemiBuffer::new(0)))
}

fn tcp_header(mark: u8) -> TcpHeader {
    TcpHeader { src_port: 4000, dst_port: 80, rest: vec![mark] }
}

fn ip_header() -> Ipv4Header {
    Ipv4Header::new(ip(9), ip(8), IpProtocol::Udp)
}

fn fresh_migration() -> ActiveMigration {
    ActiveMigration::new(
        constants(10000),
        ip(8),
        mac(8),
        ip(100),
        mac(100),
        10000,
        7000,
        addr(9, 7000),
        addr(20, 4000),
        None,
    )
}

#[test]
fn fragment_sizes_are_positive() {
    assert!(FragmentSize::new(0).is_none());
    assert_eq!(FragmentSize::new(1).unwrap().get(), 1);
    assert_eq!(FragmentSize::new(1500).unwrap().get(), 1500);
}

#[test]
fn ports_swap_and_swap_back() {
    let mut hdr = header(MigrationStage::PrepareMigration);
    hdr.swap_src_dst_port();
    assert_eq!((hdr.source_udp_port, hdr.dest_udp_port), (10001, 10000));
    hdr.swap_src_dst_port();
    assert_eq!(hdr, header(MigrationStage::PrepareMigration));
    assert!(!hdr.flag_load);
}

#[test]
fn initiate_sends_a_request_through_the_switch() {
    let mut peer = peer(10000, 0);
    let segment = peer.initiate_migration(socket(3), addr(8, 80), addr(20, 4000));
    assert_eq!(segment.ethernet2_hdr.dst_addr, mac(100));
    assert_eq!(segment.ethernet2_hdr.src_addr, mac(8));
    assert_eq!(segment.ethernet2_hdr.ether_type, EtherType2::Ipv4);
    assert_eq!(segment.ipv4_hdr, Ipv4Header::new(ip(8), ip(100), IpProtocol::Udp));
    assert_eq!(
        segment.tcpmig_hdr,
        TcpMigHeader::new(
            addr(8, 80),
            addr(20, 4000),
            0,
            MigrationStage::PrepareMigration,
            10000,
            10001
        )
    );
    assert_eq!(segment.data.len(), 0);
    let active = peer.migration(addr(20, 4000)).unwrap();
    assert_eq!(active.last_sent_stage(), MigrationStage::PrepareMigration);
    assert_eq!(active.socket(), Some(socket(3)));
}

#[test]
fn returned_request_undoes_the_migration() {
    let mut peer = peer(10000, 0);
    let segment = peer.initiate_migration(socket(3), addr(8, 80), addr(20, 4000));
    assert!(peer.is_migrating(addr(20, 4000)));
    let status = peer.receive(message(segment.tcpmig_hdr)).unwrap();
    assert!(matches!(
        status,
        TcpmigReceiveStatus::ReturnedBySwitch(l, r) if l == addr(8, 80) && r == addr(20, 4000)
    ));
    assert!(!peer.is_migrating(addr(20, 4000)));
    assert!(peer.migration(addr(20, 4000)).is_none());
    // It can be asked for again.
    peer.initiate_migration(socket(3), addr(8, 80), addr(20, 4000));
}

#[test]
fn request_of_another_backend_opens_a_migration() {
    let mut peer = peer(10001, 0);
    let status = peer.receive(message(header(MigrationStage::PrepareMigration))).unwrap();
    assert!(matches!(status, TcpmigReceiveStatus::Handled));
    let active = peer.migration(addr(20, 4000)).unwrap();
    assert_eq!(active.last_sent_stage(), MigrationStage::NotStarted);
    assert_eq!(active.socket(), None);
    assert_eq!(active.recv_queue().len(), 0);
    assert!(!peer.is_migrating(addr(20, 4001)));
}

#[test]
fn second_request_undoes_the_first() {
    let mut peer = peer(10001, 0);
    peer.receive(message(header(MigrationStage::PrepareMigration))).unwrap();
    let mut second = header(MigrationStage::PrepareMigration);
    second.origin = addr(7, 7001);
    let status = peer.receive(message(second)).unwrap();
    assert!(matches!(
        status,
        TcpmigReceiveStatus::ReturnedBySwitch(l, r) if l == addr(7, 7001) && r == addr(20, 4000)
    ));
    assert!(!peer.is_migrating(addr(20, 4000)));
}

#[test]
fn other_messages_change_nothing() {
    for stage in [
        MigrationStage::NotStarted,
        MigrationStage::PrepareMigrationAck,
        MigrationStage::Rejected,
    ] {
        let mut peer = peer(10001, 0);
        let status = peer.receive(message(header(stage))).unwrap();
        assert!(matches!(status, TcpmigReceiveStatus::Handled));
        assert!(!peer.is_migrating(addr(20, 4000)));
    }
}

#[test]
fn unreadable_message_is_passed_on() {
    let mut peer = peer(10001, 0);
    let fail = peer.receive(Err(Fail::new(Errno::Os(22), "short"))).err().unwrap();
    assert_eq!(fail.code, Errno::Os(22));
    assert_eq!(fail.cause, "short");
    assert_eq!(fail.errno(), 22);
}

#[test]
fn target_acknowledges_a_request() {
    let mut active = fresh_migration();
    let hdr = header(MigrationStage::PrepareMigration);
    let (status, reply) =
        active.process_packet(&ip_header(), hdr, DemiBuffer::new(0)).unwrap();
    assert!(matches!(status, TcpmigReceiveStatus::Handled));
    let reply = reply.unwrap();
    assert_eq!(reply.tcpmig_hdr.stage, MigrationStage::PrepareMigrationAck);
    assert!(reply.tcpmig_hdr.flag_load);
    assert_eq!(reply.tcpmig_hdr.source_udp_port, 10001);
    assert_eq!(reply.tcpmig_hdr.dest_udp_port, 10000);
    assert_eq!(reply.tcpmig_hdr.origin, hdr.origin);
    assert_eq!(reply.tcpmig_hdr.client, hdr.client);
    assert_eq!(reply.ipv4_hdr, Ipv4Header::new(ip(8), ip(100), IpProtocol::Udp));
    assert_eq!(reply.data.len(), 0);
    assert_eq!(active.last_sent_stage(), MigrationStage::PrepareMigrationAck);
    // A second request is taken without an answer.
    let (status, reply) =
        active.process_packet(&ip_header(), hdr, DemiBuffer::new(0)).unwrap();
    assert!(matches!(status, TcpmigReceiveStatus::Handled));
    assert!(reply.is_none());
}

#[test]
fn first_message_has_to_be_a_request() {
    for stage in [
        MigrationStage::NotStarted,
        MigrationStage::PrepareMigrationAck,
        MigrationStage::Rejected,
    ] {
        let mut active = fresh_migration();
        let fail = active
            .process_packet(&ip_header(), header(stage), DemiBuffer::new(0))
            .err()
            .unwrap();
        assert_eq!(fail.code, Errno::BadMessage);
        assert_eq!(fail.errno(), libc::EBADMSG);
        assert_eq!(fail.cause, "expected PREPARE_MIGRATION");
        assert_eq!(active.last_sent_stage(), MigrationStage::NotStarted);
    }
}

#[test]
fn origin_takes_messages_without_an_answer() {
    let mut active = fresh_migration();
    active.initiate_migration();
    for stage in [MigrationStage::PrepareMigrationAck, MigrationStage::Rejected] {
        let (status, reply) = active
            .process_packet(&ip_header(), header(stage), DemiBuffer::new(0))
            .unwrap();
        assert!(matches!(status, TcpmigReceiveStatus::Handled));
        assert!(reply.is_none());
        assert_eq!(active.last_sent_stage(), MigrationStage::PrepareMigration);
    }
}

#[test]
fn payload_is_framed_as_it_is() {
    let active = fresh_migration();
    let hdr = header(MigrationStage::PrepareMigrationAck);
    let segment = active.send(hdr, DemiBuffer::from_vec(vec![1, 2, 3]));
    assert_eq!(segment.tcpmig_hdr, hdr);
    assert_eq!(segment.data.as_slice(), &[1, 2, 3][..]);
    assert_eq!(segment.ethernet2_hdr.dst_addr, mac(100));
}

#[test]
fn segments_are_put_aside_in_order() {
    let mut peer = peer(10001, 0);
    let back = peer.try_buffer_packet(addr(20, 4000), tcp_header(1), DemiBuffer::new(1));
    let (hdr, data) = back.err().unwrap();
    assert_eq!((hdr.rest, data.len()), (vec![1], 1));

    peer.receive(message(header(MigrationStage::PrepareMigration))).unwrap();
    for mark in [1u8, 2, 3] {
        let data = DemiBuffer::from_vec(vec![mark]);
        assert!(peer.try_buffer_packet(addr(20, 4000), tcp_header(mark), data).is_ok());
    }
    assert!(peer.try_buffer_packet(addr(20, 4001), tcp_header(9), DemiBuffer::new(0)).is_err());
    let queue = peer.migration(addr(20, 4000)).unwrap().recv_queue();
    let marks: Vec<u8> = queue.iter().map(|(h, _)| h.rest[0]).collect();
    assert_eq!(marks, vec![1, 2, 3]);
    let bytes: Vec<u8> = queue.iter().map(|(_, d)| d.as_slice()[0]).collect();
    assert_eq!(bytes, vec![1, 2, 3]);
}

#[test]
fn every_fifteenth_segment_is_due() {
    let peer = peer(10000, 0);
    let mut pacer = MigrationPacer::new();
    for n in 1..=100 {
        assert_eq!(peer.should_migrate(&mut pacer), n % 15 == 0, "segment {}", n);
    }
}

#[test]
fn one_of_any_fifteen_segments_ends_a_period() {
    for lead in 0..15 {
        let mut pacer = MigrationPacer::new();
        for _ in 0..lead {
            pacer.tick();
        }
        let mut ended: u32 = 0;
        for _ in 0..15 {
            if pacer.tick() {
                ended += 1;
            }
        }
        assert_eq!(ended, 1);
    }
}

#[test]
fn peers_share_a_count() {
    let one = peer(10000, 0);
    let two = peer(10001, 0);
    let mut pacer = MigrationPacer::new();
    for _ in 0..14 {
        assert!(!one.should_migrate(&mut pacer));
    }
    assert!(two.should_migrate(&mut pacer));
}

#[test]
fn a_delay_switches_migration_off() {
    let off = peer(10000, 1);
    let on = peer(10000, 0);
    let mut pacer = MigrationPacer::new();
    for _ in 0..40 {
        assert!(!off.should_migrate(&mut pacer));
    }
    // None of them counted.
    for _ in 0..14 {
        assert!(!on.should_migrate(&mut pacer));
    }
    assert!(on.should_migrate(&mut pacer));
}

#[test]
fn delays_are_read_as_std_reads_them() {
    let samples = [
        "0", "7", "+7", "007", "4294967295", "4294967296", "42949672950", "", "+", "-1", "-0",
        "++1", " 1", "1 ", "1_000", "0x10", "12a", "\u{0661}", "00000000000000000001",
        "99999999999999999999",
    ];
    for s in samples {
        assert_eq!(parse_mig_delay(Some(s)), s.parse::<u32>().ok(), "{:?}", s);
    }
    assert_eq!(parse_mig_delay(Some("4294967295")), Some(4294967295));
    assert_eq!(parse_mig_delay(Some("4294967296")), None);
    assert_eq!(parse_mig_delay(None), Some(0));
}

#[test]
fn application_state_is_absent_at_first() {
    assert!(matches!(MigratedApplicationState::default(), MigratedApplicationState::Absent));
    let registered = MigratedApplicationState::Registered(ApplicationStateId { number: 4 });
    assert!(matches!(registered, MigratedApplicationState::Registered(id) if id.number == 4));
}
