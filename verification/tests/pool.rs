use xor::buf_pool::{AlignBox, BufPool, BufSlabPool, LocalCache, SIMD_WIDTH, TASK_PER_THREAD};

#[test]
fn padded_len_rounds_up() {
    assert_eq!(AlignBox::align(), 64);
    assert_eq!(AlignBox::padded_len(0), 0);
    assert_eq!(AlignBox::padded_len(1), 64);
    assert_eq!(AlignBox::padded_len(64), 64);
    assert_eq!(AlignBox::padded_len(65), 128);
    assert_eq!(AlignBox::padded_len(1452), 1472);
}

#[test]
fn pool_hands_out_disjoint_buffers() {
    let mut pool = BufPool::init(3, 100);
    let mut cache = LocalCache::new(&mut pool);
    let mut leases = Vec::new();
    while let Some(b) = BufPool::acquire(&mut cache, &mut pool) {
        assert_eq!(b.len(), 128);
        assert_eq!(b.offset(), b.meta() * 128);
        assert!(b.offset() + b.len() <= 3 * 128);
        leases.push(b);
    }
    assert_eq!(leases.len(), 3);
    let mut metas: Vec<usize> = leases.iter().map(|b| b.meta()).collect();
    metas.sort();
    assert_eq!(metas, vec![0, 1, 2]);
    // the last free slot comes out first
    assert_eq!(leases[0].meta(), 2);
    for b in leases {
        assert!(!BufPool::release(b, &mut cache, &mut pool));
    }
    // a released buffer comes back from the thread's cache, newest first
    let b = BufPool::acquire(&mut cache, &mut pool).unwrap();
    assert_eq!(b.meta(), 0);
}

#[test]
fn two_threads_never_share_a_slot() {
    let mut pool = BufPool::init(4, 10);
    let mut a = LocalCache::new(&mut pool);
    let mut b = LocalCache::new(&mut pool);
    let x = BufPool::acquire(&mut a, &mut pool).unwrap();
    let y = BufPool::acquire(&mut b, &mut pool).unwrap();
    assert_ne!(x.meta(), y.meta());
    let xm = x.meta();
    assert!(!BufPool::release(x, &mut a, &mut pool));
    // b cannot get the slot that sits in a's cache
    let z = BufPool::acquire(&mut b, &mut pool).unwrap();
    assert_ne!(z.meta(), xm);
    assert_ne!(z.meta(), y.meta());
    let w = BufPool::acquire(&mut a, &mut pool).unwrap();
    assert_eq!(w.meta(), xm);
}

#[test]
fn full_cache_hands_back_to_the_pool() {
    let cap = TASK_PER_THREAD + 2;
    let mut pool = BufPool::init(cap, 1);
    let mut cache = LocalCache::new(&mut pool);
    let mut leases = Vec::new();
    for _ in 0..cap {
        leases.push(BufPool::acquire(&mut cache, &mut pool).unwrap());
    }
    assert!(BufPool::acquire(&mut cache, &mut pool).is_none());
    let mut slow = 0;
    for b in leases {
        if BufPool::release(b, &mut cache, &mut pool) {
            slow += 1;
        }
    }
    assert_eq!(slow, 2);
    let mut n = 0;
    while BufPool::acquire(&mut cache, &mut pool).is_some() {
        n += 1;
    }
    assert_eq!(n, cap);
    assert_eq!(SIMD_WIDTH, 64);
}

#[test]
fn slab_pool_push_pop() {
    let mut pool = BufSlabPool::new(2, 128, 64);
    let a = pool.pop().unwrap();
    assert_eq!(a.meta(), 1);
    assert_eq!(a.offset(), 64);
    let b = pool.pop().unwrap();
    assert_eq!(b.meta(), 0);
    assert_eq!((b.offset(), b.len()), (0, 64));
    assert!(pool.pop().is_none());
    pool.push(1);
    assert_eq!(pool.pop().unwrap().meta(), 1);
    BufPool::drop_slow(0, &mut pool);
    assert_eq!(pool.pop().unwrap().meta(), 0);
}
