//! A pool of byte buffers that reuses memory.
//!
//! `BytePool::allocate` hands out a `Block`: an exclusive, fixed-size byte
//! buffer. When the block goes out of scope its buffer returns to the pool,
//! where a later request of the same size can pick it up again.
//!
//! Shrinking a block with `Block::realloc` releases the freed tail storage
//! eagerly.
use vstd::prelude::*;

pub mod free_list;
pub mod poolable;
pub mod raw_block;

pub use free_list::FreeList;
pub use poolable::{Poolable, Realloc};
pub use raw_block::RawBlock;

use crate::free_list::{lemma_first_fit, window_start};
use crate::raw_block::resized;
use std::sync::{Mutex, MutexGuard};

verus! {

#[verifier::external_type_specification]
#[verifier::external_body]
#[verifier::reject_recursive_types(T)]
pub struct ExMutex<T: ?Sized>(Mutex<T>);

#[verifier::external_type_specification]
#[verifier::external_body]
#[verifier::reject_recursive_types(T)]
pub struct ExMutexGuard<'a, T: ?Sized + 'a>(MutexGuard<'a, T>);

/// Relies on `Mutex::new`: a lock that owns `list`.
#[verifier::external_body]
fn new_lock(list: FreeList) -> Mutex<FreeList> {
    Mutex::new(list)
}

/// Relies on `Mutex::lock`: waits until this thread holds the lock. `None`
/// when the lock is poisoned, that is when a thread panicked while it held it.
#[verifier::external_body]
fn lock_list(m: &Mutex<FreeList>) -> Option<MutexGuard<'_, FreeList>>
    opens_invariants none
    no_unwind
{
    m.lock().ok()
}

/// Relies on `MutexGuard`'s `DerefMut`: the list behind a held lock. What it
/// holds is whatever the pool's users left there.
#[verifier::external_body]
fn guarded<'a, 'b>(g: &'a mut MutexGuard<'b, FreeList>) -> &'a mut FreeList
    opens_invariants none
    no_unwind
{
    &mut *g
}

/// Number of most recently released buffers that a request looks through
/// when the pool is made with `BytePool::new`.
pub const DEFAULT_WINDOW: usize = 4;

/// A pool of byte buffers that reuses memory. It can be shared by threads.
///
/// A request scans the last few released buffers (the recency window) for
/// one of exactly the size asked for, and allocates a fresh buffer when there
/// is none. When the pool is dropped, the idle buffers are freed; a `Block`
/// borrows its pool, so the pool outlives every block it handed out.
///
/// A thread that panics while it holds the pool's lock leaves the free list
/// unusable: from then on requests always allocate, and returned buffers are
/// freed at once.
#[derive(Debug)]
pub struct BytePool {
    list: Mutex<FreeList>,
    window: usize,
}

impl BytePool {
    /// How many of the most recently released buffers a request scans.
    pub closed spec fn recency_window(&self) -> usize {
        self.window
    }

    /// An empty pool with the default recency window.
    pub fn new() -> (r: BytePool)
        ensures
            r.recency_window() == DEFAULT_WINDOW,
    {
        BytePool::with_window(DEFAULT_WINDOW)
    }

    /// An empty pool whose requests scan the last `window` released buffers.
    /// A window of zero turns reuse off.
    pub fn with_window(window: usize) -> (r: BytePool)
        ensures
            r.recency_window() == window,
    {
        BytePool { list: new_lock(FreeList::new()), window }
    }

    /// Hands out a block of exactly `size` bytes: an idle buffer of that size
    /// from the recency window when there is one, else a fresh zeroed buffer.
    pub fn allocate(&self, size: usize) -> (r: Block<'_>)
        requires
            size > 0,
        ensures
            r@.len() == size,
            r.pool() == self,
    {
        let reused = match lock_list(&self.list) {
            Some(mut guard) => {
                let list = guarded(&mut guard);
                let ghost before = list@;
                let r = list.take(size, self.window);
                proof {
                    lemma_first_fit(
                        before,
                        size as nat,
                        window_start(before.len() as int, self.window as int),
                    );
                }
                r
            },
            None => None,
        };
        match reused {
            Some(data) => Block::new(data, self),
            None => Block::new(RawBlock::zeroed(size), self),
        }
    }

    /// Takes back a released buffer: it goes to the end of the free list.
    fn push_raw_block(&self, block: RawBlock)
        opens_invariants none
        no_unwind
    {
        match lock_list(&self.list) {
            Some(mut guard) => guarded(&mut guard).push(block),
            None => {},
        }
    }

    /// Number of idle buffers at the time of the call. Other threads may
    /// change it as soon as the call returns.
    pub fn idle_count(&self) -> usize {
        match lock_list(&self.list) {
            Some(mut guard) => guarded(&mut guard).len(),
            None => 0,
        }
    }
}

impl Default for BytePool {
    fn default() -> (r: BytePool)
        ensures
            r.recency_window() == DEFAULT_WINDOW,
    {
        BytePool::new()
    }
}

/// A byte buffer checked out of a `BytePool`. The block owns the buffer
/// alone; when it is dropped the buffer goes back to the pool.
#[derive(Debug)]
pub struct Block<'a> {
    data: RawBlock,
    pool: &'a BytePool,
}

impl<'a> View for Block<'a> {
    type V = Seq<u8>;

    closed spec fn view(&self) -> Seq<u8> {
        self.data@
    }
}

impl<'a> Block<'a> {
    /// The pool that the block goes back to.
    pub closed spec fn pool(&self) -> &'a BytePool {
        self.pool
    }

    fn new(data: RawBlock, pool: &'a BytePool) -> (r: Block<'a>)
        ensures
            r@ == data@,
            r.pool() == pool,
    {
        Block { data, pool }
    }

    /// Resizes the block to `new_size` bytes. Growing keeps the bytes and
    /// zeroes the new tail; shrinking keeps the first `new_size` bytes and
    /// gives the rest of the storage back to the allocator.
    pub fn realloc(&mut self, new_size: usize)
        requires
            new_size > 0,
        ensures
            final(self)@ == resized(old(self)@, new_size as nat),
            final(self).pool() == old(self).pool(),
    {
        self.data.realloc(new_size);
    }

    /// Number of bytes in the block.
    pub fn size(&self) -> (r: usize)
        ensures
            r == self@.len(),
    {
        self.data.size()
    }

    /// Number of bytes in the block; the same as `size`.
    pub fn capacity(&self) -> (r: usize)
        ensures
            r == self@.len(),
    {
        self.data.size()
    }
}

impl<'a> std::ops::Deref for Block<'a> {
    type Target = [u8];

    fn deref(&self) -> (r: &[u8])
        ensures
            r@ == self@,
    {
        self.data.as_slice()
    }
}

impl<'a> std::ops::DerefMut for Block<'a> {
    fn deref_mut(&mut self) -> (r: &mut [u8])
        ensures
            r@ == old(self)@,
            final(self)@ == final(r)@,
            final(self).pool() == old(self).pool(),
    {
        self.data.as_mut_slice()
    }
}

impl<'a> Drop for Block<'a> {
    /// Moves the buffer out of the block, leaving an empty one behind, and
    /// hands it to the pool: the buffer is released exactly once, and only
    /// the empty placeholder is freed with the block.
    fn drop(&mut self)
        opens_invariants none
        no_unwind
    {
        let mut data = RawBlock::empty();
        std::mem::swap(&mut data, &mut self.data);
        self.pool.push_raw_block(data);
    }
}

} // verus!
