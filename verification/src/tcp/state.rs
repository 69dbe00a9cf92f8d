//! The state of a TCP connection, as it travels between backends.

use vstd::prelude::*;
use crate::address::{Ipv4Addr, SocketAddrV4};
use crate::buffer::DemiBuffer;

verus! {

/// Values that can be written to a byte buffer.
pub trait Serialize {
    /// The bytes that stand for the value.
    spec fn encoding(&self) -> Seq<u8>;

    /// Can the value be written?
    spec fn encodable(&self) -> bool;

    /// Serializes into the buffer and returns its unused part.
    fn serialize_into<'buf>(&self, buf: &'buf mut [u8]) -> (unused: &'buf mut [u8])
        requires
            self.encodable(),
            self.encoding().len() <= old(buf)@.len(),
        ensures
            unused@ == old(buf)@.skip(self.encoding().len() as int),
            final(buf)@ == self.encoding() + final(unused)@,
    ;
}

/// Values that can be read from a byte buffer.
pub trait Deserialize: Sized + View {
    /// The value at the front of `bytes` and the bytes after it, if there is
    /// one.
    spec fn decoding(bytes: Seq<u8>) -> Option<(Self::V, Seq<u8>)>;

    /// Deserializes and removes the deserialised part from the buffer.
    fn deserialize_from(buf: &mut DemiBuffer) -> (value: Self)
        requires
            Self::decoding(old(buf)@) is Some,
        ensures
            Self::decoding(old(buf)@) == Some((value@, final(buf)@)),
    ;
}

/// The two bytes of `n`, the high one in front.
pub open spec fn u16_bytes(n: u16) -> Seq<u8> {
    seq![(n / 0x100) as u8, (n % 0x100) as u8]
}

/// The number that two bytes stand for.
pub open spec fn u16_of_bytes(high: u8, low: u8) -> u16 {
    (high * 0x100 + low) as u16
}

/// The six bytes of an endpoint: the octets of the address, then the port.
pub open spec fn endpoint_bytes(addr: SocketAddrV4) -> Seq<u8> {
    seq![addr.ip.a, addr.ip.b, addr.ip.c, addr.ip.d] + u16_bytes(addr.port)
}

/// The endpoint that six bytes stand for.
pub open spec fn endpoint_of_bytes(b: Seq<u8>) -> SocketAddrV4 {
    SocketAddrV4 {
        ip: Ipv4Addr { a: b[0], b: b[1], c: b[2], d: b[3] },
        port: u16_of_bytes(b[4], b[5]),
    }
}

/// The bytes in front of the transmission state: two endpoints and a length.
pub const CONTROL_BLOCK_HEADER: usize = 14;

/// The control block of an established connection.
///
/// On the wire: the local endpoint, the remote endpoint, the length of the
/// transmission state in two bytes, and the transmission state.
#[derive(Debug)]
pub struct ControlBlockState {
    local: SocketAddrV4,
    remote: SocketAddrV4,
    transmission: Vec<u8>,
}

/// What a [`ControlBlockState`] says.
#[verifier::ext_equal]
pub struct ControlBlockView {
    pub local: SocketAddrV4,
    pub remote: SocketAddrV4,
    /// Sequence numbers, windows and queues. Only the socket reads them.
    pub transmission: Seq<u8>,
}

impl ControlBlockView {
    /// The control block on the wire.
    pub open spec fn bytes(self) -> Seq<u8> {
        endpoint_bytes(self.local) + endpoint_bytes(self.remote) + u16_bytes(
            self.transmission.len() as u16,
        ) + self.transmission
    }

    /// The length of the transmission state fits its two bytes.
    pub open spec fn fits(self) -> bool {
        self.transmission.len() <= u16::MAX
    }

    /// The control block at the front of `bytes`, and the bytes after it.
    pub open spec fn of_bytes(bytes: Seq<u8>) -> Option<(ControlBlockView, Seq<u8>)> {
        if bytes.len() < CONTROL_BLOCK_HEADER {
            None
        } else {
            let end = CONTROL_BLOCK_HEADER + u16_of_bytes(bytes[12], bytes[13]);
            if bytes.len() < end {
                None
            } else {
                let cb = ControlBlockView {
                    local: endpoint_of_bytes(bytes.subrange(0, 6)),
                    remote: endpoint_of_bytes(bytes.subrange(6, 12)),
                    transmission: bytes.subrange(CONTROL_BLOCK_HEADER as int, end),
                };
                Some((cb, bytes.skip(end)))
            }
        }
    }
}

impl View for ControlBlockState {
    type V = ControlBlockView;

    closed spec fn view(&self) -> ControlBlockView {
        ControlBlockView {
            local: self.local,
            remote: self.remote,
            transmission: self.transmission@,
        }
    }
}

proof fn lemma_u16_bytes(n: u16)
    ensures
        u16_of_bytes(u16_bytes(n)[0], u16_bytes(n)[1]) == n,
{
}

/// What is read back from a written control block is the control block, and
/// the bytes written after it are left over.
pub proof fn law_control_block_round_trip(cb: ControlBlockView, after: Seq<u8>)
    requires
        cb.fits(),
    ensures
        ControlBlockView::of_bytes(cb.bytes() + after) == Some((cb, after)),
{
    let bytes = cb.bytes() + after;
    let n = cb.transmission.len() as u16;
    lemma_u16_bytes(n);
    lemma_u16_bytes(cb.local.port);
    lemma_u16_bytes(cb.remote.port);
    assert(bytes[12] == u16_bytes(n)[0]);
    assert(bytes[13] == u16_bytes(n)[1]);
    assert(bytes.subrange(0, 6) =~= endpoint_bytes(cb.local));
    assert(bytes.subrange(6, 12) =~= endpoint_bytes(cb.remote));
    assert(bytes.subrange(14, 14 + n) =~= cb.transmission);
    assert(bytes.skip(14 + n) =~= after);
}

/// A state that was serialized and deserialized again is the state it was.
pub proof fn law_state_round_trip(state: TcpState)
    requires
        state.cb@.bytes().len() <= u16::MAX,
    ensures
        ControlBlockView::of_bytes(state.cb@.bytes()) == Some((state.cb@, Seq::<u8>::empty())),
{
    law_control_block_round_trip(state.cb@, Seq::empty());
    assert(state.cb@.bytes() + Seq::empty() =~= state.cb@.bytes());
}

/// Writing a control block that was read gives back the bytes it was read
/// from.
pub proof fn law_control_block_canonical(bytes: Seq<u8>)
    requires
        ControlBlockView::of_bytes(bytes) is Some,
    ensures
        ({
            let (cb, after) = ControlBlockView::of_bytes(bytes).unwrap();
            cb.fits() && cb.bytes() + after == bytes
        }),
{
    let (cb, after) = ControlBlockView::of_bytes(bytes).unwrap();
    assert(cb.bytes() + after =~= bytes);
}

impl ControlBlockState {
    /// The control block of the connection between `local` and `remote`.
    pub fn new(local: SocketAddrV4, remote: SocketAddrV4, transmission: Vec<u8>) -> (cb: Self)
        ensures
            cb@ == (ControlBlockView { local, remote, transmission: transmission@ }),
    {
        ControlBlockState { local, remote, transmission }
    }

    /// The local endpoint.
    pub fn local(&self) -> (addr: SocketAddrV4)
        ensures
            addr == self@.local,
    {
        self.local
    }

    /// The remote endpoint.
    pub fn remote(&self) -> (addr: SocketAddrV4)
        ensures
            addr == self@.remote,
    {
        self.remote
    }

    /// The local and the remote endpoint.
    pub fn endpoints(&self) -> (pair: (SocketAddrV4, SocketAddrV4))
        ensures
            pair == (self@.local, self@.remote),
    {
        (self.local, self.remote)
    }

    /// The transmission state.
    pub fn transmission(&self) -> (bytes: &[u8])
        ensures
            bytes@ == self@.transmission,
    {
        self.transmission.as_slice()
    }

    /// Moves the connection to another local endpoint.
    pub fn set_local(&mut self, local: SocketAddrV4)
        ensures
            final(self)@ == (ControlBlockView { local, ..old(self)@ }),
    {
        self.local = local;
    }

    /// The number of bytes on the wire.
    pub fn serialized_size(&self) -> (size: usize)
        requires
            self@.bytes().len() <= usize::MAX,
        ensures
            size == self@.bytes().len(),
    {
        CONTROL_BLOCK_HEADER + self.transmission.len()
    }

    /// Is there a control block at the front of `bytes`?
    pub fn is_encoded(bytes: &[u8]) -> (b: bool)
        ensures
            b == (ControlBlockView::of_bytes(bytes@) is Some),
    {
        if bytes.len() < CONTROL_BLOCK_HEADER {
            return false;
        }
        let len: usize = (bytes[12] as usize) * 0x100 + (bytes[13] as usize);
        bytes.len() - CONTROL_BLOCK_HEADER >= len
    }
}

fn write_endpoint<'buf>(addr: SocketAddrV4, buf: &'buf mut [u8]) -> (unused: &'buf mut [u8])
    requires
        old(buf)@.len() >= 6,
    ensures
        unused@ == old(buf)@.skip(6),
        final(buf)@ == endpoint_bytes(addr) + final(unused)@,
{
    let (head, unused) = buf.split_at_mut(6);
    head[0] = addr.ip.a;
    head[1] = addr.ip.b;
    head[2] = addr.ip.c;
    head[3] = addr.ip.d;
    head[4] = (addr.port / 0x100) as u8;
    head[5] = (addr.port % 0x100) as u8;
    assert(head@ =~= endpoint_bytes(addr));
    unused
}

fn write_bytes<'buf>(bytes: &[u8], buf: &'buf mut [u8]) -> (unused: &'buf mut [u8])
    requires
        old(buf)@.len() >= bytes@.len(),
    ensures
        unused@ == old(buf)@.skip(bytes@.len() as int),
        final(buf)@ == bytes@ + final(unused)@,
{
    let len: usize = bytes.len();
    let (head, unused) = buf.split_at_mut(len);
    let mut i: usize = 0;
    while i < len
        invariant
            i <= len,
            len == bytes@.len(),
            head@.len() == len,
            forall|j: int| 0 <= j < i ==> head@[j] == bytes@[j],
        decreases len - i,
    {
        head[i] = bytes[i];
        i += 1;
    }
    assert(head@ =~= bytes@);
    unused
}

impl Serialize for ControlBlockState {
    open spec fn encoding(&self) -> Seq<u8> {
        self@.bytes()
    }

    open spec fn encodable(&self) -> bool {
        self@.fits()
    }

    fn serialize_into<'buf>(&self, buf: &'buf mut [u8]) -> (unused: &'buf mut [u8]) {
        let len: u16 = self.transmission.len() as u16;
        let unused = write_endpoint(self.local, buf);
        let unused = write_endpoint(self.remote, unused);
        let (size, unused) = unused.split_at_mut(2);
        size[0] = (len / 0x100) as u8;
        size[1] = (len % 0x100) as u8;
        assert(size@ =~= u16_bytes(len));
        write_bytes(self.transmission.as_slice(), unused)
    }
}

fn read_endpoint(bytes: &[u8]) -> (addr: SocketAddrV4)
    requires
        bytes@.len() >= 6,
    ensures
        addr == endpoint_of_bytes(bytes@),
{
    let port: u16 = (bytes[4] as u16) * 0x100 + (bytes[5] as u16);
    SocketAddrV4::new(Ipv4Addr::new(bytes[0], bytes[1], bytes[2], bytes[3]), port)
}

impl Deserialize for ControlBlockState {
    open spec fn decoding(bytes: Seq<u8>) -> Option<(ControlBlockView, Seq<u8>)> {
        ControlBlockView::of_bytes(bytes)
    }

    fn deserialize_from(buf: &mut DemiBuffer) -> (value: Self) {
        let bytes = buf.as_slice();
        let (local_bytes, rest) = bytes.split_at(6);
        let (remote_bytes, rest) = rest.split_at(6);
        let local = read_endpoint(local_bytes);
        let remote = read_endpoint(remote_bytes);
        let (size, body) = rest.split_at(2);
        let len: usize = (size[0] as usize) * 0x100 + (size[1] as usize);
        let mut transmission: Vec<u8> = Vec::new();
        let mut i: usize = 0;
        while i < len
            invariant
                i <= len,
                len <= body@.len(),
                transmission@ == body@.take(i as int),
            decreases len - i,
        {
            transmission.push(body[i]);
            i += 1;
        }
        buf.adjust(CONTROL_BLOCK_HEADER + len);
        ControlBlockState { local, remote, transmission }
    }
}

/// The state of a connection that moves to another backend.
#[derive(Debug)]
pub struct TcpState {
    pub cb: ControlBlockState,
}

impl TcpState {
    /// The state with control block `cb`.
    pub fn new(cb: ControlBlockState) -> (state: Self)
        ensures
            state.cb == cb,
    {
        TcpState { cb }
    }

    /// The remote endpoint of the connection.
    pub fn remote(&self) -> (addr: SocketAddrV4)
        ensures
            addr == self.cb@.remote,
    {
        self.cb.remote()
    }

    /// The state as bytes.
    pub fn serialize(&self) -> (buf: DemiBuffer)
        requires
            self.cb@.bytes().len() <= u16::MAX,
        ensures
            buf@ == self.cb@.bytes(),
    {
        let mut buf = DemiBuffer::new(self.serialized_size() as u16);
        let _unused = self.cb.serialize_into(buf.as_mut_slice());
        assert(buf@ =~= self.cb@.bytes());
        buf
    }

    /// The number of bytes of the state.
    pub fn serialized_size(&self) -> (size: usize)
        requires
            self.cb@.bytes().len() <= usize::MAX,
        ensures
            size == self.cb@.bytes().len(),
    {
        self.cb.serialized_size()
    }

    /// The state that `buf` holds.
    pub fn deserialize(buf: DemiBuffer) -> (state: Self)
        requires
            ControlBlockView::of_bytes(buf@) is Some,
        ensures
            state.cb@ == ControlBlockView::of_bytes(buf@).unwrap().0,
    {
        let mut buf = buf;
        let cb = ControlBlockState::deserialize_from(&mut buf);
        TcpState { cb }
    }

    /// Moves the connection to another local endpoint.
    pub fn set_local(&mut self, local: SocketAddrV4)
        ensures
            final(self).cb@ == (ControlBlockView { local, ..old(self).cb@ }),
    {
        self.cb.set_local(local)
    }

    /// The local and the remote endpoint of the connection.
    pub fn connection(&self) -> (pair: (SocketAddrV4, SocketAddrV4))
        ensures
            pair == (self.cb@.local, self.cb@.remote),
    {
        self.cb.endpoints()
    }
}

/// Where each part of a control block stands among its bytes: the octets of the
/// local address, its port with the high byte in front, the same of the remote, the
/// length of the transmission state, and that state.
pub proof fn law_control_block_layout(cb: ControlBlockView)
    requires
        cb.transmission.len() <= 65535,
    ensures
        ({
            let b = cb.bytes();
            let n = cb.transmission.len();
            &&& cb.fits()
            &&& b.len() == 14 + n
            &&& (b[0], b[1], b[2], b[3]) == (cb.local.ip.a, cb.local.ip.b, cb.local.ip.c, cb.local.ip.d)
            &&& b[4] * 256 + b[5] == cb.local.port
            &&& (b[6], b[7], b[8], b[9]) == (
                cb.remote.ip.a,
                cb.remote.ip.b,
                cb.remote.ip.c,
                cb.remote.ip.d,
            )
            &&& b[10] * 256 + b[11] == cb.remote.port
            &&& b[12] * 256 + b[13] == n
            &&& forall|i: int| 0 <= i < n ==> #[trigger] b[14 + i] == cb.transmission[i]
        }),
{
}

/// Bytes hold a control block exactly when they go as far as the length in them
/// says, and what they hold is read off them place by place.
pub proof fn law_control_block_reading(b: Seq<u8>)
    ensures
        ControlBlockView::of_bytes(b) is Some <==> b.len() >= 14 && b.len() >= 14 + b[12] * 256
            + b[13],
        ControlBlockView::of_bytes(b) matches Some((cb, after)) ==> {
            let n = b[12] * 256 + b[13];
            &&& (cb.local.ip.a, cb.local.ip.b, cb.local.ip.c, cb.local.ip.d) == (b[0], b[1], b[2], b[3])
            &&& cb.local.port == b[4] * 256 + b[5]
            &&& (cb.remote.ip.a, cb.remote.ip.b, cb.remote.ip.c, cb.remote.ip.d) == (
                b[6],
                b[7],
                b[8],
                b[9],
            )
            &&& cb.remote.port == b[10] * 256 + b[11]
            &&& cb.transmission == b.subrange(14, 14 + n)
            &&& after == b.subrange(14 + n, b.len() as int)
        },
{
}

/// Only a transmission state of more than 65535 bytes cannot be written.
pub proof fn law_what_fits(cb: ControlBlockView)
    ensures
        cb.fits() <==> cb.transmission.len() <= 65535,
{
}

/// A control block is written as its bytes and read from them, and it can be
/// written exactly when its transmission state has at most 65535 bytes.
pub proof fn law_control_block_traits(cb: ControlBlockState, bytes: Seq<u8>)
    ensures
        cb.encoding() == cb@.bytes(),
        cb.encodable() <==> cb@.transmission.len() <= 65535,
        <ControlBlockState as Deserialize>::decoding(bytes) == ControlBlockView::of_bytes(bytes),
{
}

} // verus!
