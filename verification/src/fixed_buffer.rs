//! A byte buffer of fixed capacity.

use vstd::prelude::*;
use vstd::slice::slice_subrange;

verus! {

/// A byte buffer that never holds more than `N` bytes. Its value is the
/// sequence of the bytes it holds.
#[derive(Debug)]
pub struct FixedBuffer<const N: usize> {
    bytes: Vec<u8>,
}

impl<const N: usize> View for FixedBuffer<N> {
    type V = Seq<u8>;

    closed spec fn view(&self) -> Seq<u8> {
        self.bytes@
    }
}

impl<const N: usize> FixedBuffer<N> {
    #[verifier::type_invariant]
    spec fn within_capacity(self) -> bool {
        self.bytes@.len() <= N
    }

    /// An empty buffer.
    pub fn new() -> (buffer: Self)
        ensures
            buffer@ == Seq::<u8>::empty(),
    {
        FixedBuffer { bytes: Vec::new() }
    }

    /// The number of bytes that the buffer can hold.
    pub fn capacity(&self) -> (capacity: usize)
        ensures
            capacity == N,
    {
        N
    }

    /// The number of bytes that the buffer holds.
    pub fn len(&self) -> (len: usize)
        ensures
            len == self@.len(),
            len <= N,
    {
        proof {
            use_type_invariant(self);
        }
        self.bytes.len()
    }

    /// The bytes that the buffer holds.
    pub fn as_slice(&self) -> (bytes: &[u8])
        ensures
            bytes@ == self@,
            bytes@.len() <= N,
    {
        proof {
            use_type_invariant(self);
        }
        self.bytes.as_slice()
    }

    /// Appends `other` where all of it fits; where it does not, nothing is
    /// appended.
    pub fn extend_from_slice(&mut self, other: &[u8]) -> (r: Result<(), ()>)
        ensures
            r is Ok <==> old(self)@.len() + other@.len() <= N,
            r is Ok ==> final(self)@ == old(self)@ + other@,
            r is Err ==> final(self)@ == old(self)@,
    {
        proof {
            use_type_invariant(&*self);
        }
        if other.len() > N - self.bytes.len() {
            Err(())
        } else {
            let mut grown: Vec<u8> = Vec::new();
            grown.extend_from_slice(self.bytes.as_slice());
            grown.extend_from_slice(other);
            assert(grown@ =~= old(self).bytes@ + other@);
            self.bytes = grown;
            Ok(())
        }
    }

    /// Drops the first `cnt` bytes and keeps the rest in order.
    pub fn advance(&mut self, cnt: usize)
        requires
            cnt <= old(self)@.len(),
        ensures
            final(self)@ == old(self)@.skip(cnt as int),
    {
        proof {
            use_type_invariant(&*self);
        }
        let mut rest: Vec<u8> = Vec::new();
        rest.extend_from_slice(slice_subrange(self.bytes.as_slice(), cnt, self.bytes.len()));
        assert(rest@ =~= old(self).bytes@.skip(cnt as int));
        self.bytes = rest;
    }
}

} // verus!
