use crate::poolable::release_spare;
use vstd::prelude::*;

verus! {

/// `n` zero bytes: what a fresh buffer holds, and what growth appends.
pub open spec fn zeros(n: nat) -> Seq<u8> {
    Seq::new(n, |i: int| 0u8)
}

/// The contents of a buffer of contents `s` after it is resized to `n` bytes:
/// growth keeps `s` and appends zeros, shrinking keeps the first `n` bytes.
pub open spec fn resized(s: Seq<u8>, n: nat) -> Seq<u8> {
    if n <= s.len() {
        s.subrange(0, n as int)
    } else {
        s + zeros((n - s.len()) as nat)
    }
}

/// Resizing keeps the bytes in front: growth keeps all of them, shrinking the
/// first `n`, and the result has exactly `n` bytes.
pub proof fn lemma_resize_keeps_prefix(s: Seq<u8>, n: nat)
    ensures
        resized(s, n).len() == n,
        forall|i: int| 0 <= i < n && i < s.len() ==> #[trigger] resized(s, n)[i] == s[i],
{
}

/// A heap buffer of bytes, the unit of memory that a pool keeps and reuses.
#[derive(Debug)]
pub struct RawBlock {
    data: Vec<u8>,
}

impl View for RawBlock {
    type V = Seq<u8>;

    closed spec fn view(&self) -> Seq<u8> {
        self.data@
    }
}

/// Relies on `Vec::new`: an empty vector, made without allocating.
#[verifier::external_body]
fn no_bytes() -> (r: Vec<u8>)
    ensures
        r@.len() == 0,
    opens_invariants none
    no_unwind
{
    Vec::new()
}

impl RawBlock {
    /// A buffer of no bytes, which holds no memory.
    pub fn empty() -> (r: RawBlock)
        ensures
            r@.len() == 0,
        opens_invariants none
        no_unwind
    {
        RawBlock { data: no_bytes() }
    }

    /// A fresh buffer of `size` zero bytes.
    pub fn zeroed(size: usize) -> (r: RawBlock)
        requires
            size > 0,
        ensures
            r@ == zeros(size as nat),
    {
        let data = vec![0u8; size];
        let r = RawBlock { data };
        assert(r@ =~= zeros(size as nat));
        r
    }

    /// Number of bytes in the buffer.
    pub fn size(&self) -> (r: usize)
        ensures
            r == self@.len(),
    {
        self.data.len()
    }

    /// Grows the buffer to `new_size` bytes; the old bytes stay in front and
    /// the new tail is zeroed.
    pub fn grow(&mut self, new_size: usize)
        requires
            old(self)@.len() < new_size,
        ensures
            final(self)@ == resized(old(self)@, new_size as nat),
    {
        let ghost before = self@;
        self.data.resize(new_size, 0u8);
        assert(self@ =~= resized(before, new_size as nat));
    }

    /// Shrinks the buffer to its first `new_size` bytes and releases the
    /// storage of the rest.
    pub fn shrink(&mut self, new_size: usize)
        requires
            0 < new_size < old(self)@.len(),
        ensures
            final(self)@ == resized(old(self)@, new_size as nat),
    {
        self.data.truncate(new_size);
        release_spare(&mut self.data);
    }

    /// Resizes the buffer to `new_size` bytes.
    pub fn realloc(&mut self, new_size: usize)
        requires
            new_size > 0,
        ensures
            final(self)@ == resized(old(self)@, new_size as nat),
    {
        let size = self.size();
        if new_size > size {
            self.grow(new_size);
        } else if new_size < size {
            self.shrink(new_size);
        } else {
            assert(self@ =~= resized(self@, new_size as nat));
        }
    }

    /// The bytes of the buffer.
    pub fn as_slice(&self) -> (r: &[u8])
        ensures
            r@ == self@,
    {
        self.data.as_slice()
    }

    /// The bytes of the buffer, for writing; the buffer keeps its size.
    pub fn as_mut_slice(&mut self) -> (r: &mut [u8])
        ensures
            r@ == old(self)@,
            final(self)@ == final(r)@,
    {
        self.data.as_mut_slice()
    }
}

impl std::ops::Deref for RawBlock {
    type Target = [u8];

    fn deref(&self) -> (r: &[u8])
        ensures
            r@ == self@,
    {
        self.as_slice()
    }
}

impl std::ops::DerefMut for RawBlock {
    fn deref_mut(&mut self) -> (r: &mut [u8])
        ensures
            r@ == old(self)@,
            final(self)@ == final(r)@,
    {
        self.as_mut_slice()
    }
}

} // verus!
