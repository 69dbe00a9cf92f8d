use tcpmig::address::{Ipv4Addr, SocketAddrV4};
use tcpmig::buffer::DemiBuffer;
use tcpmig::tcp::state::{ControlBlockState, Deserialize, Serialize, TcpState};

fn local() -> SocketAddrV4 {
    SocketAddrV4::new(Ipv4Addr::new(10, 0, 1, 8), 10000)
}

fn remote() -> SocketAddrV4 {
    SocketAddrV4::new(Ipv4Addr::new(192, 168, 7, 1), 65535)
}

fn state(transmission: Vec<u8>) -> TcpState {
    TcpState::new(ControlBlockState::new(local(), remote(), transmission))
}

#[test]
fn serialized_bytes() {
    let s = state(vec![7, 8, 9]);
    assert_eq!(s.serialized_size(), 17);
    let buf = s.serialize();
    assert_eq!(
        buf.as_slice(),
        &[10, 0, 1, 8, 0x27, 0x10, 192, 168, 7, 1, 0xff, 0xff, 0, 3, 7, 8, 9][..]
    );
}

#[test]
fn state_comes_back() {
    for len in [0usize, 1, 255, 256, 300, 65521] {
        let transmission: Vec<u8> = (0..len).map(|i| (i % 251) as u8).collect();
        let buf = state(transmission.clone()).serialize();
        assert_eq!(buf.len(), 14 + len);
        let back = TcpState::deserialize(buf);
        assert_eq!(back.connection(), (local(), remote()));
        assert_eq!(back.remote(), remote());
        assert_eq!(back.cb.transmission(), &transmission[..]);
    }
}

#[test]
fn unused_part_stays() {
    let cb = ControlBlockState::new(local(), remote(), vec![1]);
    let mut bytes = vec![0xaau8; 18];
    let unused = cb.serialize_into(&mut bytes[..]);
    assert_eq!(unused, &[0xaa, 0xaa, 0xaa][..]);
    unused[0] = 0xbb;
    assert_eq!(&bytes[14..], &[1, 0xbb, 0xaa, 0xaa][..]);
}

#[test]
fn deserialised_part_leaves_the_buffer() {
    let mut bytes: Vec<u8> = state(vec![1, 2]).serialize().as_slice().to_vec();
    bytes.extend_from_slice(&[9, 9, 9]);
    assert!(ControlBlockState::is_encoded(&bytes));
    let mut buf = DemiBuffer::from_vec(bytes);
    let cb = ControlBlockState::deserialize_from(&mut buf);
    assert_eq!(cb.endpoints(), (local(), remote()));
    assert_eq!(cb.transmission(), &[1, 2][..]);
    assert_eq!(buf.as_slice(), &[9, 9, 9][..]);
}

#[test]
fn read_and_written_again_is_the_same() {
    let bytes: Vec<u8> = vec![1, 2, 3, 4, 5, 6, 7, 8, 9, 10, 11, 12, 0, 2, 13, 14];
    let back = TcpState::deserialize(DemiBuffer::from_vec(bytes.clone())).serialize();
    assert_eq!(back.as_slice(), &bytes[..]);
}

#[test]
fn incomplete_bytes_are_no_state() {
    let bytes = state(vec![1, 2, 3]).serialize().as_slice().to_vec();
    for len in 0..bytes.len() {
        assert!(!ControlBlockState::is_encoded(&bytes[..len]));
    }
    assert!(ControlBlockState::is_encoded(&bytes));
}

#[test]
fn set_local_moves_only_the_local_end() {
    let mut s = state(vec![5]);
    let target = SocketAddrV4::new(Ipv4Addr::new(10, 0, 1, 9), 10001);
    s.set_local(target);
    assert_eq!(s.connection(), (target, remote()));
    assert_eq!(s.cb.local(), target);
    assert_eq!(s.cb.transmission(), &[5][..]);
}

#[test]
fn buffers_shrink_from_both_ends() {
    let mut buf = DemiBuffer::from_vec(vec![1, 2, 3, 4, 5]);
    buf.adjust(2);
    assert_eq!(buf.as_slice(), &[3, 4, 5][..]);
    buf.trim(1);
    assert_eq!(buf.as_slice(), &[3, 4][..]);
    buf.trim(2);
    assert_eq!(buf.len(), 0);
    assert_eq!(DemiBuffer::new(4).as_slice(), &[0, 0, 0, 0][..]);
    let mut buf = DemiBuffer::new(2);
    buf.as_mut_slice()[1] = 7;
    assert_eq!(buf.as_slice(), &[0, 7][..]);
}
