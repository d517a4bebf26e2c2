use byte_pool::{Block, BytePool, FreeList, Poolable, RawBlock, Realloc};
use std::collections::HashMap;
use std::ops::{Deref, DerefMut};

#[test]
fn basics() {
    let pool = BytePool::new();

    for i in 0..100 {
        let mut block_1k = pool.allocate(1 * 1024);
        let mut block_4k = pool.allocate(4 * 1024);

        for el in block_1k.deref_mut() {
            *el = i as u8;
        }

        for el in block_4k.deref_mut() {
            *el = i as u8;
        }

        for el in block_1k.deref() {
            assert_eq!(*el, i as u8);
        }

        for el in block_4k.deref() {
            assert_eq!(*el, i as u8);
        }
    }
}

#[test]
fn realloc() {
    let pool = BytePool::new();

    let mut buf = pool.allocate(10);
    assert_eq!(buf.len(), 10);
    for el in buf.iter_mut() {
        *el = 1;
    }

    buf.realloc(512);
    assert_eq!(buf.len(), 512);
    for el in buf.iter().take(10) {
        assert_eq!(*el, 1);
    }

    buf.realloc(5);
    assert_eq!(buf.len(), 5);
    for el in buf.iter() {
        assert_eq!(*el, 1);
    }
}

#[test]
fn realloc_vec() {
    let mut v: Vec<u8> = Poolable::allocate(100);

    for i in 1..100 {
        let new_size = Poolable::capacity(&v) + i;
        v.realloc(new_size);
        assert_eq!(Poolable::capacity(&v), new_size);
    }
}

#[test]
fn reuse_after_drop_keeps_size() {
    let pool = BytePool::new();
    let mut block = pool.allocate(1024);
    for (i, el) in block.iter_mut().enumerate() {
        *el = (i % 256) as u8;
    }
    drop(block);
    assert_eq!(pool.idle_count(), 1);

    let again = pool.allocate(1024);
    assert_eq!(again.capacity(), 1024);
    assert_eq!(again.size(), 1024);
    assert_eq!(pool.idle_count(), 0);
    // the buffer came back from the pool, with what was written into it
    assert_eq!(again[255], 255);
    assert_eq!(again[256], 0);
    assert_eq!(again[1023], 255);
}

#[test]
fn fresh_block_is_zeroed() {
    let pool = BytePool::new();
    let block = pool.allocate(33);
    assert_eq!(block.capacity(), 33);
    assert!(block.iter().all(|b| *b == 0));
}

#[test]
fn capacity_matches_request() {
    let pool = BytePool::new();
    for size in [1usize, 2, 7, 64, 1000, 4096] {
        let block = pool.allocate(size);
        assert_eq!(block.capacity(), size);
        assert_eq!(block.size(), size);
    }
}

#[test]
fn grow_keeps_bytes_and_zeroes_tail() {
    let pool = BytePool::new();
    let mut buf = pool.allocate(10);
    for el in buf.iter_mut() {
        *el = 1;
    }
    buf.realloc(512);
    assert_eq!(buf.capacity(), 512);
    assert!(buf[..10].iter().all(|b| *b == 1));
    assert!(buf[10..].iter().all(|b| *b == 0));
}

#[test]
fn shrink_keeps_front_bytes() {
    let pool = BytePool::new();
    let mut buf = pool.allocate(10);
    for (i, el) in buf.iter_mut().enumerate() {
        *el = i as u8 + 1;
    }
    buf.realloc(512);
    buf.realloc(5);
    assert_eq!(buf.capacity(), 5);
    assert_eq!(&buf[..], &[1u8, 2, 3, 4, 5][..]);
}

#[test]
fn realloc_to_same_size_changes_nothing() {
    let pool = BytePool::new();
    let mut buf = pool.allocate(4);
    buf[0] = 9;
    buf[3] = 7;
    buf.realloc(4);
    assert_eq!(&buf[..], &[9u8, 0, 0, 7][..]);
}

#[test]
fn resized_block_returns_to_pool_with_new_size() {
    let pool = BytePool::new();
    let mut buf = pool.allocate(10);
    buf.realloc(20);
    drop(buf);
    assert_eq!(pool.idle_count(), 1);
    let other = pool.allocate(10);
    assert_eq!(other.capacity(), 10);
    assert_eq!(pool.idle_count(), 1);
    let same = pool.allocate(20);
    assert_eq!(same.capacity(), 20);
    assert_eq!(pool.idle_count(), 0);
}

#[test]
fn each_drop_adds_one_idle_buffer() {
    let pool = BytePool::new();
    let a = pool.allocate(8);
    let b = pool.allocate(8);
    let c = pool.allocate(16);
    assert_eq!(pool.idle_count(), 0);
    drop(a);
    assert_eq!(pool.idle_count(), 1);
    drop(b);
    assert_eq!(pool.idle_count(), 2);
    drop(c);
    assert_eq!(pool.idle_count(), 3);
    let _d = pool.allocate(8);
    assert_eq!(pool.idle_count(), 2);
}

#[test]
fn live_blocks_do_not_share_memory() {
    let pool = BytePool::new();
    let mut a = pool.allocate(64);
    let mut b = pool.allocate(64);
    a[0] = 1;
    b[0] = 2;
    assert_eq!(a[0], 1);
    assert_eq!(b[0], 2);
    assert_ne!(a.as_ptr(), b.as_ptr());
}

#[test]
fn interleaved_users_keep_idle_count_bounded() {
    let pool = BytePool::new();
    for i in 0..100 {
        let mut first = pool.allocate(64);
        first[0] = i as u8;
        let mut second = pool.allocate(64);
        second[0] = i as u8;
        drop(first);
        drop(second);
        assert!(pool.idle_count() <= 2);
    }
    assert!(pool.idle_count() <= 2);
}

#[test]
fn request_only_scans_recency_window() {
    let pool = BytePool::new();
    let blocks: Vec<Block> = (1..=5).map(|s| pool.allocate(s)).collect();
    drop(blocks);
    assert_eq!(pool.idle_count(), 5);
    // size 1 is the oldest of five idle buffers: outside a window of four
    let one = pool.allocate(1);
    assert_eq!(one.capacity(), 1);
    assert_eq!(pool.idle_count(), 5);
    // size 2 is inside the window
    let two = pool.allocate(2);
    assert_eq!(two.capacity(), 2);
    assert_eq!(pool.idle_count(), 4);
}

#[test]
fn zero_window_never_reuses() {
    let pool = BytePool::with_window(0);
    drop(pool.allocate(8));
    drop(pool.allocate(8));
    assert_eq!(pool.idle_count(), 2);
}

#[test]
fn wide_window_reaches_old_buffers() {
    let pool = BytePool::with_window(10);
    let blocks: Vec<Block> = (1..=5).map(|s| pool.allocate(s)).collect();
    drop(blocks);
    let one = pool.allocate(1);
    assert_eq!(one.capacity(), 1);
    assert_eq!(pool.idle_count(), 4);
}

#[test]
fn default_pool_is_empty() {
    let pool = BytePool::default();
    assert_eq!(pool.idle_count(), 0);
    let b = pool.allocate(3);
    assert_eq!(b.capacity(), 3);
}

#[test]
fn free_list_take_and_push() {
    let mut list = FreeList::new();
    assert_eq!(list.len(), 0);
    assert!(list.take(4, 4).is_none());
    list.push(RawBlock::zeroed(4));
    list.push(RawBlock::zeroed(8));
    list.push(RawBlock::zeroed(4));
    assert_eq!(list.len(), 3);
    assert!(list.take(5, 4).is_none());
    assert_eq!(list.len(), 3);
    let got = list.take(4, 4).unwrap();
    assert_eq!(got.size(), 4);
    assert_eq!(list.len(), 2);
    // the first of the two 4-byte entries went; a window of one sees only
    // the newest entry, of 4 bytes
    assert!(list.take(8, 1).is_none());
    assert_eq!(list.take(4, 1).unwrap().size(), 4);
    assert_eq!(list.len(), 1);
}

#[test]
fn raw_block_resizes() {
    let mut raw = RawBlock::zeroed(3);
    raw.as_mut_slice()[0] = 5;
    raw.realloc(6);
    assert_eq!(raw.as_slice(), &[5u8, 0, 0, 0, 0, 0][..]);
    raw.shrink(2);
    assert_eq!(raw.as_slice(), &[5u8, 0][..]);
    raw.grow(3);
    assert_eq!(raw.size(), 3);
}

#[test]
fn vec_realloc_shrinks_and_keeps_front() {
    let mut v: Vec<u32> = vec![1, 2, 3, 4];
    v.realloc(2);
    assert_eq!(v, vec![1, 2]);
    assert!(v.capacity() < 4);
    v.realloc(4);
    assert_eq!(v, vec![1, 2, 0, 0]);
}

#[test]
fn vec_allocate_fills_with_default() {
    let v: Vec<u16> = Poolable::allocate(5);
    assert_eq!(v, vec![0u16; 5]);
    assert_eq!(Poolable::capacity(&v), 5);
}

#[test]
fn map_allocate_reserves_room() {
    let m: HashMap<u32, u32> = Poolable::allocate(50);
    assert!(m.is_empty());
    assert!(Poolable::capacity(&m) >= 50);
    assert_eq!(Poolable::capacity(&m), m.capacity());
}

#[test]
fn map_realloc_reaches_requested_room() {
    let mut m: HashMap<u32, u32> = Poolable::allocate(4);
    m.insert(7, 70);
    let before = Poolable::capacity(&m);
    assert!(before >= 4);
    Realloc::realloc(&mut m, before + 20);
    assert!(Poolable::capacity(&m) >= before + 20);
    assert_eq!(m.get(&7), Some(&70));
}

#[test]
fn vec_realloc_grows_with_default_values() {
    let mut v: Vec<i64> = vec![-1, -2];
    v.realloc(5);
    assert_eq!(v, vec![-1, -2, 0, 0, 0]);
}

#[test]
fn empty_raw_block_has_no_bytes() {
    let raw = RawBlock::empty();
    assert_eq!(raw.size(), 0);
}

#[test]
fn map_realloc_keeps_entries() {
    let mut m: HashMap<u32, u32> = Poolable::allocate(4);
    m.insert(1, 10);
    m.insert(2, 20);
    Realloc::realloc(&mut m, 100);
    assert!(Poolable::capacity(&m) >= 100);
    assert_eq!(m.len(), 2);
    Realloc::realloc(&mut m, 1);
    assert_eq!(m.len(), 2);
    assert_eq!(m.get(&1), Some(&10));
    assert_eq!(m.get(&2), Some(&20));
    assert!(m.capacity() < 100);
}

#[test]
fn raw_block_derefs_to_its_bytes() {
    let mut raw = RawBlock::zeroed(4);
    raw[1] = 3;
    assert_eq!(raw.len(), 4);
    assert_eq!(&raw[..], &[0u8, 3, 0, 0][..]);
}
