//! A byte buffer that stays where it is, with an active length of its own.

use vstd::prelude::*;
use vstd::slice::slice_subrange;

verus! {

/// The largest number of bytes that one operation can hand to the operating
/// system.
pub const MAX_IO_LEN: usize = 0xffff_ffff;

/// The first `len` bytes of `bytes`, to change in place: `&mut bytes[..len]`,
/// which is `IndexMut::index_mut` of `Vec` with a range that ends at `len`.
/// Not proved: the slice holds those bytes, it keeps its length whatever is
/// written to it, and what is written to it is written to the vector, whose
/// other bytes stay. With `len` within the vector the call does not panic.
#[verifier::external_body]
fn prefix_mut(bytes: &mut Vec<u8>, len: usize) -> (prefix: &mut [u8])
    requires
        len <= old(bytes)@.len(),
    ensures
        prefix@ == old(bytes)@.subrange(0, len as int),
        final(prefix)@.len() == len,
        final(bytes)@ == final(prefix)@ + old(bytes)@.subrange(
            len as int,
            old(bytes)@.len() as int,
        ),
    no_unwind
{
    &mut bytes[..len]
}

/// A region of bytes of fixed size, of which a prefix is active: an operation
/// reads from or writes to that prefix, and its completion sets the active
/// length to the number of bytes transferred. The bytes live on the heap and
/// do not move when the buffer does.
#[derive(Debug)]
pub struct PinnedBuffer {
    data: Vec<u8>,
    len: usize,
}

impl PinnedBuffer {
    #[verifier::type_invariant]
    spec fn within_capacity(self) -> bool {
        self.len <= self.data@.len()
    }

    /// All the bytes of the region, active or not.
    pub closed spec fn bytes(&self) -> Seq<u8> {
        self.data@
    }

    /// The active length.
    pub closed spec fn spec_len(&self) -> nat {
        self.len as nat
    }

    /// The size of the region.
    pub open spec fn spec_capacity(&self) -> nat {
        self.bytes().len()
    }

    /// The active prefix.
    pub open spec fn active(&self) -> Seq<u8> {
        self.bytes().subrange(0, self.spec_len() as int)
    }

    /// The same region with the active length `len`.
    pub closed spec fn with_len(self, len: usize) -> PinnedBuffer {
        PinnedBuffer { data: self.data, len }
    }

    /// This buffer is `before` after a write to its active region and
    /// nothing else: it has the size and the active length of `before`, and
    /// the bytes behind the active region are those of `before`.
    pub open spec fn keeps_region_of(&self, before: PinnedBuffer) -> bool {
        &&& self.spec_capacity() == before.spec_capacity()
        &&& self.spec_len() == before.spec_len()
        &&& self.bytes().subrange(before.spec_len() as int, before.spec_capacity() as int)
            =~= before.bytes().subrange(before.spec_len() as int, before.spec_capacity() as int)
    }

    /// The same region, its active length cut down to what one operation can
    /// transfer.
    pub open spec fn clamped(self) -> PinnedBuffer {
        if self.spec_len() > MAX_IO_LEN {
            self.with_len(MAX_IO_LEN)
        } else {
            self
        }
    }

    /// Changing the active length changes nothing else, and setting the
    /// length that is there changes nothing.
    pub proof fn with_len_keeps_region(self, len: usize)
        ensures
            self.with_len(len).bytes() == self.bytes(),
            self.with_len(len).spec_len() == len,
            self.with_len(self.spec_len() as usize) == self,
            forall|other: usize| self.with_len(len).with_len(other) == self.with_len(other),
    {
    }

    /// A zeroed buffer of `capacity` bytes, all of them active.
    pub fn new(capacity: usize) -> (buffer: Self)
        ensures
            buffer.bytes() == Seq::new(capacity as nat, |i: int| 0u8),
            buffer.spec_len() == capacity,
    {
        let mut data: Vec<u8> = Vec::new();
        while data.len() < capacity
            invariant
                data@.len() <= capacity,
                forall|i: int| 0 <= i < data@.len() ==> data@[i] == 0u8,
            decreases capacity - data@.len(),
        {
            data.push(0u8);
        }
        PinnedBuffer { data, len: capacity }
    }

    /// A buffer over the bytes of `data`, all of them active.
    pub fn from_vec(data: Vec<u8>) -> (buffer: Self)
        ensures
            buffer.bytes() == data@,
            buffer.spec_len() == data@.len(),
    {
        let len = data.len();
        PinnedBuffer { data, len }
    }

    pub fn capacity(&self) -> (capacity: usize)
        ensures
            capacity == self.spec_capacity(),
    {
        self.data.len()
    }

    /// The active length, which never exceeds the capacity.
    pub fn len(&self) -> (len: usize)
        ensures
            len == self.spec_len(),
            len <= self.spec_capacity(),
    {
        proof {
            use_type_invariant(self);
        }
        self.len
    }

    /// Sets the active length.
    pub fn set_len(&mut self, len: usize)
        requires
            len <= old(self).spec_capacity(),
        ensures
            *final(self) == old(self).with_len(len),
            final(self).bytes() == old(self).bytes(),
            final(self).spec_len() == len,
    {
        self.len = len;
    }

    /// The active prefix.
    pub fn as_slice(&self) -> (active: &[u8])
        ensures
            active@ == self.active(),
    {
        proof {
            use_type_invariant(self);
        }
        slice_subrange(self.data.as_slice(), 0, self.len)
    }

    /// The active prefix, to read into or to fill. The region keeps its
    /// size and its active length, and the bytes behind the prefix stay.
    pub fn as_mut_slice(&mut self) -> (active: &mut [u8])
        ensures
            active@ == old(self).active(),
            final(active)@.len() == old(self).spec_len(),
            final(self).spec_len() == old(self).spec_len(),
            final(self).spec_capacity() == old(self).spec_capacity(),
            final(self).active() == final(active)@,
            final(self).bytes() == final(active)@ + old(self).bytes().subrange(
                old(self).spec_len() as int,
                old(self).spec_capacity() as int,
            ),
            final(self).keeps_region_of(*old(self)),
    {
        proof {
            use_type_invariant(&*self);
        }
        let len = self.len;
        let active = prefix_mut(&mut self.data, len);
        proof {
            let behind = old(self).bytes().subrange(len as int, old(self).spec_capacity() as int);
            assert((final(active)@ + behind).subrange(
                len as int,
                old(self).spec_capacity() as int,
            ) =~= behind);
        }
        active
    }

    /// Writes one byte of the active prefix.
    pub fn write(&mut self, index: usize, byte: u8)
        requires
            index < old(self).spec_len(),
        ensures
            final(self).bytes() == old(self).bytes().update(index as int, byte),
            final(self).spec_len() == old(self).spec_len(),
            final(self).keeps_region_of(*old(self)),
    {
        proof {
            use_type_invariant(&*self);
        }
        self.data[index] = byte;
    }
}

} // verus!
