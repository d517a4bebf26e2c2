use crate::raw_block::RawBlock;
use vstd::prelude::*;

verus! {

/// Where the recency window of a list of `len` entries begins: the last
/// `window` entries are scanned, or all of them when there are fewer.
pub open spec fn window_start(len: int, window: int) -> int {
    if len > window {
        len - window
    } else {
        0
    }
}

/// The first index from `i` on whose entry has exactly `size` bytes.
pub open spec fn first_fit(s: Seq<Seq<u8>>, size: nat, i: int) -> Option<int>
    decreases s.len() - i,
{
    if i < 0 || i >= s.len() {
        None
    } else if s[i].len() == size {
        Some(i)
    } else {
        first_fit(s, size, i + 1)
    }
}

/// The index of the entry that a request for `size` bytes reuses: the first
/// entry of exactly that size inside the recency window, if there is one.
pub open spec fn reuse_index(s: Seq<Seq<u8>>, size: nat, window: nat) -> Option<int> {
    first_fit(s, size, window_start(s.len() as int, window as int))
}

/// What `first_fit` finds has the size asked for, and nothing before it does.
pub proof fn lemma_first_fit(s: Seq<Seq<u8>>, size: nat, i: int)
    requires
        0 <= i,
    ensures
        match first_fit(s, size, i) {
            Some(k) => i <= k < s.len() && s[k].len() == size && forall|j: int|
                i <= j < k ==> (#[trigger] s[j]).len() != size,
            None => forall|j: int| i <= j < s.len() ==> (#[trigger] s[j]).len() != size,
        },
    decreases s.len() - i,
{
    if i < s.len() && s[i].len() != size {
        lemma_first_fit(s, size, i + 1);
    }
}

/// The free list after a request for `size` bytes: the reused entry, if
/// any, is gone.
pub open spec fn after_request(s: Seq<Seq<u8>>, size: nat, window: nat) -> Seq<Seq<u8>> {
    match reuse_index(s, size, window) {
        Some(i) => s.remove(i),
        None => s,
    }
}

/// When every idle buffer has the size asked for and the window is not
/// empty, a request reuses a buffer exactly when there is one.
pub proof fn lemma_uniform_reuse(s: Seq<Seq<u8>>, size: nat, window: nat)
    requires
        window > 0,
        forall|i: int| 0 <= i < s.len() ==> (#[trigger] s[i]).len() == size,
    ensures
        reuse_index(s, size, window) is Some <==> s.len() > 0,
        s.len() > 0 ==> after_request(s, size, window).len() == s.len() - 1,
{
    let start = window_start(s.len() as int, window as int);
    lemma_first_fit(s, size, start);
    if s.len() > 0 {
        assert(start < s.len());
        assert(s[start].len() == size);
    }
}

/// Threads that each check a buffer of one size out and give it back keep
/// no more buffers idle than there are threads. With every idle buffer of
/// that size, `live` of them checked out and idle plus live at most
/// `threads`: a request by a thread that holds none keeps the bound (it
/// reuses an idle buffer when there is one), and so does a release.
pub proof fn lemma_bounded_idle(
    s: Seq<Seq<u8>>,
    size: nat,
    window: nat,
    live: nat,
    threads: nat,
    released: Seq<u8>,
)
    requires
        window > 0,
        forall|i: int| 0 <= i < s.len() ==> (#[trigger] s[i]).len() == size,
        s.len() + live <= threads,
    ensures
        live < threads ==> after_request(s, size, window).len() + live + 1 <= threads,
        live > 0 ==> s.push(released).len() + live - 1 <= threads,
        forall|i: int|
            0 <= i < after_request(s, size, window).len() ==> (#[trigger] after_request(
                s,
                size,
                window,
            )[i]).len() == size,
        released.len() == size ==> forall|i: int|
            0 <= i < s.len() + 1 ==> (#[trigger] s.push(released)[i]).len() == size,
{
    lemma_uniform_reuse(s, size, window);
    let t = after_request(s, size, window);
    assert forall|i: int| 0 <= i < t.len() implies (#[trigger] t[i]).len() == size by {
        match reuse_index(s, size, window) {
            Some(k) => {
                if i >= k {
                    assert(t[i] == s[i + 1]);
                }
            },
            None => {},
        }
    }
    if released.len() == size {
        assert forall|i: int| 0 <= i < s.len() + 1 implies (#[trigger] s.push(released)[i]).len()
            == size by {
            if i < s.len() {
                assert(s.push(released)[i] == s[i]);
            }
        }
    }
}

/// Relies on `Vec::push`: appends `b`. It panics only when the new capacity
/// would pass `isize::MAX` bytes, more memory than a process can hold; a
/// failed allocation aborts instead of unwinding.
#[verifier::external_body]
fn append_block(v: &mut Vec<RawBlock>, b: RawBlock)
    ensures
        final(v)@ == old(v)@.push(b),
    opens_invariants none
    no_unwind
{
    v.push(b)
}

/// The idle buffers of a pool, oldest first.
#[derive(Debug)]
pub struct FreeList {
    blocks: Vec<RawBlock>,
}

impl View for FreeList {
    type V = Seq<Seq<u8>>;

    closed spec fn view(&self) -> Seq<Seq<u8>> {
        self.blocks@.map_values(|b: RawBlock| b@)
    }
}

impl FreeList {
    /// An empty list.
    pub fn new() -> (r: FreeList)
        ensures
            r@ == Seq::<Seq<u8>>::empty(),
    {
        let r = FreeList { blocks: Vec::new() };
        assert(r@ =~= Seq::<Seq<u8>>::empty());
        r
    }

    /// Number of idle buffers.
    pub fn len(&self) -> (r: usize)
        ensures
            r == self@.len(),
    {
        self.blocks.len()
    }

    /// Puts a released buffer at the end of the list.
    pub fn push(&mut self, block: RawBlock)
        ensures
            final(self)@ == old(self)@.push(block@),
            final(self)@.len() == old(self)@.len() + 1,
        opens_invariants none
        no_unwind
    {
        let ghost before = self@;
        append_block(&mut self.blocks, block);
        assert(self@ =~= before.push(block@));
    }

    /// Takes out the first buffer of exactly `size` bytes among the last
    /// `window` entries; the list is left as it was when there is none.
    pub fn take(&mut self, size: usize, window: usize) -> (r: Option<RawBlock>)
        ensures
            match reuse_index(old(self)@, size as nat, window as nat) {
                Some(i) => r is Some && r->0@ == old(self)@[i] && final(self)@ == old(
                    self,
                )@.remove(i),
                None => r is None && final(self)@ == old(self)@,
            },
    {
        let ghost s = self@;
        let end = self.blocks.len();
        let start: usize = if end > window {
            end - window
        } else {
            0
        };
        let mut i: usize = start;
        while i < end
            invariant
                start == window_start(s.len() as int, window as int),
                end == s.len(),
                start <= i <= end,
                self@ == s,
                s == old(self)@,
                first_fit(s, size as nat, start as int) == first_fit(s, size as nat, i as int),
            decreases end - i,
        {
            if self.blocks[i].size() == size {
                let b = self.blocks.remove(i);
                assert(self@ =~= s.remove(i as int));
                let r = Some(b);
                return r;
            }
            i += 1;
        }
        None
    }
}

} // verus!
