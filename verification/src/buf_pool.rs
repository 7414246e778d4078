use arrayvec::ArrayVec;
use vstd::prelude::*;

use crate::slots::{
    in_some_cache, lemma_slot_in_one_place, lemma_slots_init, lemma_slots_register, lemma_slots_return_cached,
    lemma_slots_return_shared, lemma_slots_take_cached, lemma_slots_take_shared, slots_wf,
};

verus! {

/// Buffers are padded to a multiple of this many bytes (and the program
/// allocates the slab aligned to it).
pub const SIMD_WIDTH: usize = 64;

/// How many free buffers a thread keeps for itself before it hands them
/// back to the shared pool.
pub const TASK_PER_THREAD: usize = 8;

/// `size` rounded up to a multiple of [`SIMD_WIDTH`].
pub open spec fn padded_len_spec(size: nat) -> nat {
    ((size + SIMD_WIDTH - 1) / SIMD_WIDTH as int * SIMD_WIDTH) as nat
}

/// The sizes of the aligned, zeroed blocks that buffers are cut from: the
/// alignment, and a length padded to a multiple of it. The allocation
/// itself is made by the program, which asks the allocator for that
/// alignment.
pub struct AlignBox;

impl AlignBox {
    /// The alignment of buffers.
    pub fn align() -> (r: usize)
        ensures
            r == SIMD_WIDTH,
    {
        SIMD_WIDTH
    }

    /// `size` rounded up to a multiple of the alignment.
    pub fn padded_len(size: usize) -> (r: usize)
        requires
            size + SIMD_WIDTH - 1 <= usize::MAX,
        ensures
            r == padded_len_spec(size as nat),
            r % SIMD_WIDTH == 0,
            size <= r < size + SIMD_WIDTH,
    {
        let q = size / SIMD_WIDTH + if size % SIMD_WIDTH != 0 { 1 } else { 0 };
        assert(q * 64 == (size + 63) / 64 * 64 && q * 64 % 64 == 0 && size <= q * 64 < size + 64) by (nonlinear_arith)
            requires
                q == size / 64 + if size % 64 != 0 { 1int } else { 0int },
                size >= 0,
        ;
        q * SIMD_WIDTH
    }
}

/// A buffer handed out of the slab: slot `meta`, which covers `len` bytes
/// from `offset`.
#[derive(Debug)]
pub struct LeasedBuf {
    meta: usize,
    offset: usize,
    len: usize,
}

impl LeasedBuf {
    pub closed spec fn spec_meta(&self) -> usize {
        self.meta
    }

    pub closed spec fn spec_offset(&self) -> usize {
        self.offset
    }

    pub closed spec fn spec_len(&self) -> usize {
        self.len
    }

    /// The slot number.
    pub fn meta(&self) -> (r: usize)
        ensures
            r == self.spec_meta(),
    {
        self.meta
    }

    /// Where the buffer starts in the slab.
    pub fn offset(&self) -> (r: usize)
        ensures
            r == self.spec_offset(),
    {
        self.offset
    }

    /// How many bytes the buffer has.
    pub fn len(&self) -> (r: usize)
        ensures
            r == self.spec_len(),
    {
        self.len
    }
}

/// The shared pool's books: a slab of `slab_len` bytes holds `cap`
/// buffers of `stride` bytes each; `available` lists the slots that are
/// free here. The ghost fields follow every slot: the ones leased out, and
/// the free ones in each thread's cache, by the cache's number.
pub struct BufSlabPool {
    available: Vec<usize>,
    cap: usize,
    stride: usize,
    slab_len: usize,
    leased: Ghost<Set<usize>>,
    caches: Ghost<Map<nat, Seq<usize>>>,
    next_id: Ghost<nat>,
}

impl BufSlabPool {
    /// Every slot is in exactly one place (free here, leased, or free in
    /// one cache), caches are numbered below `next_id`, and the slab holds
    /// `cap` buffers of `stride` bytes.
    pub open spec fn wf(&self) -> bool {
        &&& slots_wf(self.spec_available(), self.spec_leased(), self.spec_caches(), self.spec_cap() as nat)
        &&& forall|id: nat| #[trigger] self.spec_caches().dom().contains(id) ==> id < self.spec_next_id()
        &&& self.spec_slab_len() == self.spec_cap() * self.spec_stride()
        &&& self.spec_cap() * self.spec_stride() <= usize::MAX
    }

    pub closed spec fn spec_available(&self) -> Seq<usize> {
        self.available@
    }

    pub closed spec fn spec_cap(&self) -> usize {
        self.cap
    }

    pub closed spec fn spec_stride(&self) -> usize {
        self.stride
    }

    pub closed spec fn spec_slab_len(&self) -> nat {
        self.slab_len as nat
    }

    pub closed spec fn spec_leased(&self) -> Set<usize> {
        self.leased@
    }

    pub closed spec fn spec_caches(&self) -> Map<nat, Seq<usize>> {
        self.caches@
    }

    pub closed spec fn spec_next_id(&self) -> nat {
        self.next_id@
    }

    /// A pool over a slab of `slab_len` bytes in which every one of the
    /// `cap` buffers is free.
    pub fn new(cap: usize, slab_len: usize, stride: usize) -> (r: BufSlabPool)
        requires
            slab_len == cap * stride,
        ensures
            r.wf(),
            r.spec_available() == Seq::new(cap as nat, |i: int| i as usize),
            r.spec_leased() == Set::<usize>::empty(),
            r.spec_caches() == Map::<nat, Seq<usize>>::empty(),
            r.spec_cap() == cap,
            r.spec_stride() == stride,
            r.spec_slab_len() == cap * stride,
    {
        let mut available: Vec<usize> = Vec::new();
        let mut i: usize = 0;
        while i < cap
            invariant
                i <= cap,
                available@ == Seq::new(i as nat, |k: int| k as usize),
            decreases cap - i,
        {
            available.push(i);
            i = i + 1;
            assert(available@ =~= Seq::new(i as nat, |k: int| k as usize));
        }
        proof { lemma_slots_init(cap as nat); }
        BufSlabPool {
            available,
            cap,
            stride,
            slab_len,
            leased: Ghost(Set::empty()),
            caches: Ghost(Map::empty()),
            next_id: Ghost(0),
        }
    }

    /// Gives a leased buffer back to the shared list.
    pub fn push(&mut self, meta: usize)
        requires
            old(self).wf(),
            old(self).spec_leased().contains(meta),
        ensures
            final(self).wf(),
            final(self).spec_available() == old(self).spec_available().push(meta),
            final(self).spec_leased() == old(self).spec_leased().remove(meta),
            final(self).spec_caches() == old(self).spec_caches(),
            final(self).spec_next_id() == old(self).spec_next_id(),
            final(self).spec_cap() == old(self).spec_cap(),
            final(self).spec_stride() == old(self).spec_stride(),
            final(self).spec_slab_len() == old(self).spec_slab_len(),
    {
        proof {
            lemma_slots_return_shared(self.available@, self.leased@, self.caches@, self.cap as nat, meta);
        }
        self.available.push(meta);
        self.leased = Ghost(self.leased@.remove(meta));
    }

    /// Leases the newest free buffer of the shared list, or `None` when
    /// it is empty and the caller must wait for one to come back.
    pub fn pop(&mut self) -> (r: Option<LeasedBuf>)
        requires
            old(self).wf(),
        ensures
            final(self).wf(),
            final(self).spec_caches() == old(self).spec_caches(),
            final(self).spec_next_id() == old(self).spec_next_id(),
            old(self).spec_available().len() == 0 ==> r is None
                && final(self).spec_available() == old(self).spec_available()
                && final(self).spec_leased() == old(self).spec_leased(),
            old(self).spec_available().len() > 0 ==> r is Some
                && r->0.spec_meta() == old(self).spec_available().last()
                && !old(self).spec_leased().contains(r->0.spec_meta())
                && final(self).spec_leased() == old(self).spec_leased().insert(r->0.spec_meta())
                && leased_from(r->0, old(self).spec_stride())
                && r->0.spec_offset() + r->0.spec_len() <= old(self).spec_slab_len()
                && final(self).spec_available() == old(self).spec_available().drop_last(),
            final(self).spec_cap() == old(self).spec_cap(),
            final(self).spec_stride() == old(self).spec_stride(),
            final(self).spec_slab_len() == old(self).spec_slab_len(),
    {
        if self.available.len() == 0 {
            return None;
        }
        proof {
            lemma_slots_take_shared(self.available@, self.leased@, self.caches@, self.cap as nat);
        }
        let ghost m = self.available@.last();
        let meta = self.available.pop().unwrap();
        assert(meta < self.cap) by {
            assert(old(self).available@[old(self).available@.len() - 1] == meta);
        }
        self.leased = Ghost(self.leased@.insert(meta));
        Some(self.meta_to_buf(meta))
    }

    /// The buffer of slot `meta`: `stride` bytes from `meta * stride`, all
    /// inside the slab.
    fn meta_to_buf(&self, meta: usize) -> (r: LeasedBuf)
        requires
            self.spec_cap() * self.spec_stride() <= usize::MAX,
            self.spec_slab_len() == self.spec_cap() * self.spec_stride(),
            meta < self.spec_cap(),
        ensures
            r.spec_meta() == meta,
            leased_from(r, self.spec_stride()),
            r.spec_offset() + r.spec_len() <= self.spec_slab_len(),
    {
        proof {
            lemma_slot_in_slab(self.cap as nat, self.stride as nat, meta as nat);
            assert(meta * self.stride <= self.cap * self.stride);
        }
        let offset = meta * self.stride;
        LeasedBuf { meta, offset, len: self.stride }
    }
}

/// Whether a lease covers exactly the bytes of its slot.
pub open spec fn leased_from(b: LeasedBuf, stride: usize) -> bool {
    &&& b.spec_offset() == b.spec_meta() * stride
    &&& b.spec_len() == stride
}

/// Slot `meta` lies inside a slab of `cap` slots.
pub proof fn lemma_slot_in_slab(cap: nat, stride: nat, meta: nat)
    requires
        meta < cap,
    ensures
        meta * stride + stride <= cap * stride,
{
    assert(meta * stride + stride <= cap * stride) by (nonlinear_arith)
        requires
            meta < cap,
    ;
}

/// Two different slots cover disjoint bytes of the slab, so no two leases
/// ever share a byte.
pub proof fn lemma_slots_disjoint(cap: nat, stride: nat, a: nat, b: nat)
    requires
        a < cap,
        b < cap,
        a != b,
    ensures
        a * stride + stride <= b * stride || b * stride + stride <= a * stride,
        a * stride + stride <= cap * stride,
{
    lemma_slot_in_slab(cap, stride, a);
    if a < b {
        assert(a * stride + stride <= b * stride) by (nonlinear_arith)
            requires
                a < b,
        ;
    } else {
        assert(b * stride + stride <= a * stride) by (nonlinear_arith)
            requires
                b < a,
        ;
    }
}

#[verifier::external_type_specification]
#[verifier::external_body]
#[verifier::reject_recursive_types(T)]
pub struct ExArrayVec<T, const CAP: usize>(ArrayVec<T, CAP>);

/// The slot numbers that a thread's cache holds, oldest first.
pub uninterp spec fn cached_metas(v: ArrayVec<usize, TASK_PER_THREAD>) -> Seq<usize>;

/// `ArrayVec::new_const`: an empty array vector.
#[verifier::external_body]
fn meta_cache_new() -> (v: ArrayVec<usize, TASK_PER_THREAD>)
    ensures
        cached_metas(v) == Seq::<usize>::empty(),
{
    ArrayVec::new_const()
}

/// `ArrayVec::pop`: removes and returns the last element, or `None` when
/// the vector is empty.
#[verifier::external_body]
fn meta_cache_pop(v: &mut ArrayVec<usize, TASK_PER_THREAD>) -> (r: Option<usize>)
    ensures
        cached_metas(*old(v)).len() == 0 ==> r is None && cached_metas(*final(v)) == cached_metas(*old(v)),
        cached_metas(*old(v)).len() > 0 ==> r == Some(cached_metas(*old(v)).last())
            && cached_metas(*final(v)) == cached_metas(*old(v)).drop_last(),
{
    v.pop()
}

/// `ArrayVec::is_full`: whether the length equals the capacity.
#[verifier::external_body]
fn meta_cache_is_full(v: &ArrayVec<usize, TASK_PER_THREAD>) -> (r: bool)
    ensures
        r == (cached_metas(*v).len() == TASK_PER_THREAD),
{
    v.is_full()
}

/// `ArrayVec::push`: appends an element; it panics when the vector is
/// full, which the precondition rules out.
#[verifier::external_body]
fn meta_cache_push(v: &mut ArrayVec<usize, TASK_PER_THREAD>, meta: usize)
    requires
        cached_metas(*old(v)).len() < TASK_PER_THREAD,
    ensures
        cached_metas(*final(v)) == cached_metas(*old(v)).push(meta),
{
    v.push(meta)
}

/// A thread's own stack of free slot numbers, used before the shared list;
/// `id` is the number under which the pool follows it.
pub struct LocalCache {
    metas: ArrayVec<usize, TASK_PER_THREAD>,
    id: Ghost<nat>,
}

impl LocalCache {
    pub closed spec fn spec_metas(&self) -> Seq<usize> {
        cached_metas(self.metas)
    }

    pub closed spec fn spec_id(&self) -> nat {
        self.id@
    }

    /// An empty cache, which the pool follows from now on under a new number.
    pub fn new(pool: &mut BufSlabPool) -> (r: LocalCache)
        requires
            old(pool).wf(),
        ensures
            final(pool).wf(),
            registered(r, *final(pool)),
            r.spec_metas() == Seq::<usize>::empty(),
            !old(pool).spec_caches().dom().contains(r.spec_id()),
            final(pool).spec_caches() == old(pool).spec_caches().insert(r.spec_id(), Seq::<usize>::empty()),
            final(pool).spec_available() == old(pool).spec_available(),
            final(pool).spec_leased() == old(pool).spec_leased(),
            final(pool).spec_cap() == old(pool).spec_cap(),
            final(pool).spec_stride() == old(pool).spec_stride(),
            final(pool).spec_slab_len() == old(pool).spec_slab_len(),
    {
        let ghost id = pool.next_id@;
        proof {
            lemma_slots_register(pool.available@, pool.leased@, pool.caches@, pool.cap as nat, id);
        }
        pool.caches = Ghost(pool.caches@.insert(id, Seq::empty()));
        pool.next_id = Ghost(id + 1);
        LocalCache { metas: meta_cache_new(), id: Ghost(id) }
    }
}

/// The pool follows this cache: under its number it holds exactly the
/// cache's slots, and the cache is within its capacity.
pub open spec fn registered(cache: LocalCache, pool: BufSlabPool) -> bool {
    &&& pool.spec_caches().dom().contains(cache.spec_id())
    &&& pool.spec_caches()[cache.spec_id()] == cache.spec_metas()
    &&& cache.spec_metas().len() <= TASK_PER_THREAD
}

/// Hands out and takes back the buffers of the slab.
pub struct BufPool;

impl BufPool {
    /// The books of a pool of `cap` buffers, each long enough for
    /// `payload_max` bytes rounded up to the alignment, over a slab of
    /// `cap` times that many bytes; all of them free.
    pub fn init(cap: usize, payload_max: usize) -> (r: BufSlabPool)
        requires
            payload_max + SIMD_WIDTH - 1 <= usize::MAX,
            cap * padded_len_spec(payload_max as nat) <= isize::MAX,
        ensures
            r.wf(),
            r.spec_available() == Seq::new(cap as nat, |i: int| i as usize),
            r.spec_leased() == Set::<usize>::empty(),
            r.spec_caches() == Map::<nat, Seq<usize>>::empty(),
            r.spec_cap() == cap,
            r.spec_stride() == padded_len_spec(payload_max as nat),
            r.spec_slab_len() == cap * r.spec_stride(),
    {
        let stride = AlignBox::padded_len(payload_max);
        BufSlabPool::new(cap, cap * stride, stride)
    }

    /// Leases a free buffer, from the thread's cache when it has one, else
    /// from the shared list; `None` when neither has one and the caller
    /// must wait. The slot was not leased before, and now is.
    pub fn acquire(cache: &mut LocalCache, pool: &mut BufSlabPool) -> (r: Option<LeasedBuf>)
        requires
            old(pool).wf(),
            registered(*old(cache), *old(pool)),
        ensures
            final(pool).wf(),
            registered(*final(cache), *final(pool)),
            final(cache).spec_id() == old(cache).spec_id(),
            final(pool).spec_next_id() == old(pool).spec_next_id(),
            final(pool).spec_cap() == old(pool).spec_cap(),
            final(pool).spec_stride() == old(pool).spec_stride(),
            final(pool).spec_slab_len() == old(pool).spec_slab_len(),
            final(pool).spec_caches() == old(pool).spec_caches().insert(old(cache).spec_id(), final(cache).spec_metas()),
            r is None <==> old(cache).spec_metas().len() == 0 && old(pool).spec_available().len() == 0,
            r is None ==> final(cache).spec_metas() == old(cache).spec_metas()
                && final(pool).spec_available() == old(pool).spec_available()
                && final(pool).spec_leased() == old(pool).spec_leased(),
            r is Some ==> {
                let m = r->0.spec_meta();
                &&& !old(pool).spec_leased().contains(m)
                &&& final(pool).spec_leased() == old(pool).spec_leased().insert(m)
                &&& leased_from(r->0, old(pool).spec_stride())
                &&& r->0.spec_offset() + r->0.spec_len() <= old(pool).spec_slab_len()
            },
            old(cache).spec_metas().len() > 0 ==> r is Some
                && r->0.spec_meta() == old(cache).spec_metas().last()
                && final(cache).spec_metas() == old(cache).spec_metas().drop_last()
                && final(pool).spec_available() == old(pool).spec_available(),
            old(cache).spec_metas().len() == 0 && old(pool).spec_available().len() > 0 ==> r is Some
                && r->0.spec_meta() == old(pool).spec_available().last()
                && final(cache).spec_metas() == old(cache).spec_metas()
                && final(pool).spec_available() == old(pool).spec_available().drop_last(),
    {
        let ghost id = cache.id@;
        let ghost c0 = cache.spec_metas();
        if let Some(meta) = meta_cache_pop(&mut cache.metas) {
            proof {
                lemma_slots_take_cached(pool.available@, pool.leased@, pool.caches@, pool.cap as nat, id);
                assert(c0[c0.len() - 1] == meta);
                assert(meta < pool.cap);
            }
            pool.leased = Ghost(pool.leased@.insert(meta));
            pool.caches = Ghost(pool.caches@.insert(id, cache.spec_metas()));
            let b = pool.meta_to_buf(meta);
            return Some(b);
        }
        let r = pool.pop();
        proof {
            assert(pool.spec_caches() =~= old(pool).spec_caches().insert(id, cache.spec_metas()));
        }
        r
    }

    /// Gives a leased buffer back: to the thread's cache while it has
    /// room, else to the shared list. Returns `true` when it went to the
    /// shared list.
    pub fn release(buf: LeasedBuf, cache: &mut LocalCache, pool: &mut BufSlabPool) -> (r: bool)
        requires
            old(pool).wf(),
            registered(*old(cache), *old(pool)),
            old(pool).spec_leased().contains(buf.spec_meta()),
        ensures
            final(pool).wf(),
            registered(*final(cache), *final(pool)),
            final(cache).spec_id() == old(cache).spec_id(),
            final(pool).spec_next_id() == old(pool).spec_next_id(),
            final(pool).spec_cap() == old(pool).spec_cap(),
            final(pool).spec_stride() == old(pool).spec_stride(),
            final(pool).spec_slab_len() == old(pool).spec_slab_len(),
            final(pool).spec_caches() == old(pool).spec_caches().insert(old(cache).spec_id(), final(cache).spec_metas()),
            final(pool).spec_leased() == old(pool).spec_leased().remove(buf.spec_meta()),
            r == (old(cache).spec_metas().len() == TASK_PER_THREAD),
            !r ==> final(cache).spec_metas() == old(cache).spec_metas().push(buf.spec_meta())
                && final(pool).spec_available() == old(pool).spec_available(),
            r ==> final(cache).spec_metas() == old(cache).spec_metas()
                && final(pool).spec_available() == old(pool).spec_available().push(buf.spec_meta()),
    {
        let meta = buf.meta();
        let ghost id = cache.id@;
        if !meta_cache_is_full(&cache.metas) {
            proof {
                lemma_slots_return_cached(pool.available@, pool.leased@, pool.caches@, pool.cap as nat, id, meta);
            }
            meta_cache_push(&mut cache.metas, meta);
            pool.leased = Ghost(pool.leased@.remove(meta));
            pool.caches = Ghost(pool.caches@.insert(id, cache.spec_metas()));
            false
        } else {
            Self::drop_slow(meta, pool);
            proof {
                assert(pool.spec_caches() =~= old(pool).spec_caches().insert(id, cache.spec_metas()));
            }
            true
        }
    }

    /// Gives a leased buffer back to the shared list.
    pub fn drop_slow(meta: usize, pool: &mut BufSlabPool)
        requires
            old(pool).wf(),
            old(pool).spec_leased().contains(meta),
        ensures
            final(pool).wf(),
            final(pool).spec_available() == old(pool).spec_available().push(meta),
            final(pool).spec_leased() == old(pool).spec_leased().remove(meta),
            final(pool).spec_caches() == old(pool).spec_caches(),
            final(pool).spec_next_id() == old(pool).spec_next_id(),
            final(pool).spec_cap() == old(pool).spec_cap(),
            final(pool).spec_stride() == old(pool).spec_stride(),
            final(pool).spec_slab_len() == old(pool).spec_slab_len(),
    {
        pool.push(meta);
    }
}

/// No slot is ever leased twice at once: a slot that a live lease holds
/// is in neither the shared list nor any thread's cache, so neither
/// [`BufPool::acquire`] nor [`BufSlabPool::pop`] can hand it out again.
pub proof fn lemma_leased_slot_is_nowhere_else(pool: BufSlabPool, k: usize)
    requires
        pool.wf(),
        pool.spec_leased().contains(k),
    ensures
        !pool.spec_available().contains(k),
        !in_some_cache(pool.spec_caches(), k),
        k < pool.spec_cap(),
{
    if in_some_cache(pool.spec_caches(), k) {
        let id = choose|id: nat| pool.spec_caches().dom().contains(id) && #[trigger] pool.spec_caches()[id].contains(k);
    }
}

/// Every slot of the slab is in exactly one place: free in the shared
/// list, leased, or free in the cache of exactly one thread.
pub proof fn lemma_pool_slot_in_one_place(pool: BufSlabPool, k: usize)
    requires
        pool.wf(),
        k < pool.spec_cap(),
    ensures
        pool.spec_available().contains(k) || pool.spec_leased().contains(k) || in_some_cache(pool.spec_caches(), k),
        pool.spec_available().contains(k) ==> !pool.spec_leased().contains(k) && !in_some_cache(pool.spec_caches(), k),
        pool.spec_leased().contains(k) ==> !in_some_cache(pool.spec_caches(), k),
        forall|i: nat, j: nat| pool.spec_caches().dom().contains(i) && pool.spec_caches().dom().contains(j)
            && #[trigger] pool.spec_caches()[i].contains(k) && #[trigger] pool.spec_caches()[j].contains(k) ==> i == j,
{
    lemma_slot_in_one_place(pool.spec_available(), pool.spec_leased(), pool.spec_caches(), pool.spec_cap() as nat, k);
}

} // verus!
