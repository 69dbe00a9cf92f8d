//! Packet buffers.

use vstd::prelude::*;

verus! {

/// A buffer of bytes that shrinks from either end.
#[derive(Debug)]
pub struct DemiBuffer {
    data: Vec<u8>,
}

impl View for DemiBuffer {
    type V = Seq<u8>;

    closed spec fn view(&self) -> Seq<u8> {
        self.data@
    }
}

impl DemiBuffer {
    /// A buffer of `len` zero bytes.
    pub fn new(len: u16) -> (buf: Self)
        ensures
            buf@ == Seq::new(len as nat, |i: int| 0u8),
    {
        let data: Vec<u8> = vec![0; len as usize];
        assert(data@ =~= Seq::new(len as nat, |i: int| 0u8));
        DemiBuffer { data }
    }

    /// A buffer that holds `data`.
    pub fn from_vec(data: Vec<u8>) -> (buf: Self)
        ensures
            buf@ == data@,
    {
        DemiBuffer { data }
    }

    /// The number of bytes.
    pub fn len(&self) -> (len: usize)
        ensures
            len == self@.len(),
    {
        self.data.len()
    }

    /// The bytes.
    pub fn as_slice(&self) -> (bytes: &[u8])
        ensures
            bytes@ == self@,
    {
        self.data.as_slice()
    }

    /// The bytes, to be written.
    pub fn as_mut_slice(&mut self) -> (bytes: &mut [u8])
        ensures
            bytes@ == old(self)@,
            final(self)@ == final(bytes)@,
    {
        self.data.as_mut_slice()
    }

    /// Removes the first `nbytes` bytes.
    pub fn adjust(&mut self, nbytes: usize)
        requires
            nbytes <= old(self)@.len(),
        ensures
            final(self)@ == old(self)@.skip(nbytes as int),
    {
        let rest = self.data.split_off(nbytes);
        self.data = rest;
        assert(self@ =~= old(self)@.skip(nbytes as int));
    }

    /// Removes the last `nbytes` bytes.
    pub fn trim(&mut self, nbytes: usize)
        requires
            nbytes <= old(self)@.len(),
        ensures
            final(self)@ == old(self)@.take(old(self)@.len() - nbytes),
    {
        let keep: usize = self.data.len() - nbytes;
        self.data.truncate(keep);
        assert(self@ =~= old(self)@.take(old(self)@.len() - nbytes));
    }
}

} // verus!
