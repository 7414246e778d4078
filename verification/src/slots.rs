use vstd::prelude::*;

verus! {

/// Whether no two entries of `s` are equal.
pub open spec fn distinct(s: Seq<usize>) -> bool {
    forall|i: int, j: int| 0 <= i < s.len() && 0 <= j < s.len() && i != j ==> s[i] != s[j]
}

/// Whether every entry of `s` is below `cap`.
pub open spec fn below(s: Seq<usize>, cap: nat) -> bool {
    forall|i: int| 0 <= i < s.len() ==> s[i] < cap
}

/// Whether some thread's cache holds slot `k`.
pub open spec fn in_some_cache(caches: Map<nat, Seq<usize>>, k: usize) -> bool {
    exists|id: nat| caches.dom().contains(id) && #[trigger] caches[id].contains(k)
}

/// Where the slots of a slab of `cap` buffers are: free in the shared list
/// `avail`, leased out (`leased`), or free in the cache of one thread
/// (`caches`, by the cache's number). Every slot is in exactly one place.
pub open spec fn slots_wf(avail: Seq<usize>, leased: Set<usize>, caches: Map<nat, Seq<usize>>, cap: nat) -> bool {
    &&& distinct(avail)
    &&& below(avail, cap)
    &&& forall|k: usize| #[trigger] leased.contains(k) ==> k < cap && !avail.contains(k)
    &&& forall|id: nat| #[trigger] caches.dom().contains(id) ==> distinct(caches[id]) && below(caches[id], cap)
    &&& forall|id: nat, k: usize| caches.dom().contains(id) && #[trigger] caches[id].contains(k)
        ==> !avail.contains(k) && !leased.contains(k)
    &&& forall|i: nat, j: nat, k: usize|
        caches.dom().contains(i) && caches.dom().contains(j) && i != j && #[trigger] caches[i].contains(k)
        ==> !#[trigger] caches[j].contains(k)
    &&& forall|k: usize| #![trigger avail.contains(k)] k < cap ==> avail.contains(k) || leased.contains(k) || in_some_cache(caches, k)
}

/// A distinct sequence loses exactly its last entry when that is dropped.
proof fn lemma_drop_last_contains(s: Seq<usize>, k: usize)
    requires
        distinct(s),
        s.len() > 0,
    ensures
        s.drop_last().contains(k) <==> s.contains(k) && k != s.last(),
        distinct(s.drop_last()),
{
    if s.contains(k) && k != s.last() {
        let i = choose|i: int| 0 <= i < s.len() && s[i] == k;
        assert(s.drop_last()[i] == k);
    }
    if s.drop_last().contains(k) {
        let i = choose|i: int| 0 <= i < s.drop_last().len() && s.drop_last()[i] == k;
        assert(s[i] == k);
        assert(s[i] != s[s.len() - 1]);
    }
}

/// Pushing a new entry keeps a sequence distinct, and adds exactly it.
proof fn lemma_push_contains(s: Seq<usize>, m: usize, k: usize)
    requires
        distinct(s),
        !s.contains(m),
    ensures
        s.push(m).contains(k) <==> s.contains(k) || k == m,
        distinct(s.push(m)),
{
    if s.contains(k) {
        let i = choose|i: int| 0 <= i < s.len() && s[i] == k;
        assert(s.push(m)[i] == k);
    }
    assert(s.push(m)[s.len() as int] == m);
    if s.push(m).contains(k) {
        let i = choose|i: int| 0 <= i < s.push(m).len() && s.push(m)[i] == k;
        if i < s.len() {
            assert(s[i] == k);
        }
    }
    assert forall|i: int, j: int| 0 <= i < s.push(m).len() && 0 <= j < s.push(m).len() && i != j
        implies s.push(m)[i] != s.push(m)[j] by {
        if i < s.len() && j < s.len() {
        } else if i < s.len() {
            assert(s.contains(s[i]));
        } else if j < s.len() {
            assert(s.contains(s[j]));
        }
    }
}

/// At first every slot is free in the shared list.
pub proof fn lemma_slots_init(cap: nat)
    requires
        cap <= usize::MAX + 1,
    ensures
        slots_wf(Seq::new(cap, |i: int| i as usize), Set::empty(), Map::empty(), cap),
{
    let avail = Seq::new(cap, |i: int| i as usize);
    assert forall|k: usize| k < cap implies avail.contains(k) by {
        assert(avail[k as int] == k);
    }
}

/// Slot `m` leaves the shared list and is leased.
pub proof fn lemma_slots_take_shared(avail: Seq<usize>, leased: Set<usize>, caches: Map<nat, Seq<usize>>, cap: nat)
    requires
        slots_wf(avail, leased, caches, cap),
        avail.len() > 0,
    ensures
        !leased.contains(avail.last()),
        !in_some_cache(caches, avail.last()),
        slots_wf(avail.drop_last(), leased.insert(avail.last()), caches, cap),
{
    let m = avail.last();
    let a1 = avail.drop_last();
    let l1 = leased.insert(m);
    assert(avail.contains(m)) by { assert(avail[avail.len() - 1] == m); }
    lemma_drop_last_contains(avail, m);
    assert forall|k: usize| #[trigger] l1.contains(k) implies k < cap && !a1.contains(k) by {
        lemma_drop_last_contains(avail, k);
    }
    assert forall|id: nat, k: usize| caches.dom().contains(id) && #[trigger] caches[id].contains(k)
        implies !a1.contains(k) && !l1.contains(k) by {
        lemma_drop_last_contains(avail, k);
    }
    assert forall|k: usize| k < cap implies a1.contains(k) || l1.contains(k) || in_some_cache(caches, k) by {
        lemma_drop_last_contains(avail, k);
        assert(avail.contains(k) || leased.contains(k) || in_some_cache(caches, k));
    }
    if in_some_cache(caches, m) {
        let id = choose|id: nat| caches.dom().contains(id) && #[trigger] caches[id].contains(m);
        assert(!avail.contains(m));
    }
}

/// Slot `m`, leased, comes back to the shared list.
pub proof fn lemma_slots_return_shared(avail: Seq<usize>, leased: Set<usize>, caches: Map<nat, Seq<usize>>, cap: nat, m: usize)
    requires
        slots_wf(avail, leased, caches, cap),
        leased.contains(m),
    ensures
        slots_wf(avail.push(m), leased.remove(m), caches, cap),
{
    let a1 = avail.push(m);
    let l1 = leased.remove(m);
    lemma_push_contains(avail, m, m);
    assert forall|i: int| 0 <= i < a1.len() implies a1[i] < cap by {
        if i < avail.len() { assert(a1[i] == avail[i]); }
    }
    assert forall|k: usize| #[trigger] l1.contains(k) implies k < cap && !a1.contains(k) by {
        lemma_push_contains(avail, m, k);
    }
    assert forall|id: nat, k: usize| caches.dom().contains(id) && #[trigger] caches[id].contains(k)
        implies !a1.contains(k) && !l1.contains(k) by {
        lemma_push_contains(avail, m, k);
    }
    assert forall|k: usize| k < cap implies a1.contains(k) || l1.contains(k) || in_some_cache(caches, k) by {
        lemma_push_contains(avail, m, k);
        assert(avail.contains(k) || leased.contains(k) || in_some_cache(caches, k));
    }
}

/// A new, empty cache is numbered `id`.
pub proof fn lemma_slots_register(avail: Seq<usize>, leased: Set<usize>, caches: Map<nat, Seq<usize>>, cap: nat, id: nat)
    requires
        slots_wf(avail, leased, caches, cap),
        !caches.dom().contains(id),
    ensures
        slots_wf(avail, leased, caches.insert(id, Seq::empty()), cap),
{
    let c1 = caches.insert(id, Seq::<usize>::empty());
    assert forall|k: usize| k < cap implies avail.contains(k) || leased.contains(k) || in_some_cache(c1, k) by {
        assert(avail.contains(k) || leased.contains(k) || in_some_cache(caches, k));
        if in_some_cache(caches, k) {
            let j = choose|j: nat| caches.dom().contains(j) && #[trigger] caches[j].contains(k);
            assert(c1[j] == caches[j]);
            assert(c1.dom().contains(j) && c1[j].contains(k));
        }
    }
}

/// Slot `m`, the newest in cache `id`, leaves the cache and is leased.
pub proof fn lemma_slots_take_cached(avail: Seq<usize>, leased: Set<usize>, caches: Map<nat, Seq<usize>>, cap: nat, id: nat)
    requires
        slots_wf(avail, leased, caches, cap),
        caches.dom().contains(id),
        caches[id].len() > 0,
    ensures
        !leased.contains(caches[id].last()),
        !avail.contains(caches[id].last()),
        slots_wf(avail, leased.insert(caches[id].last()), caches.insert(id, caches[id].drop_last()), cap),
{
    let c = caches[id];
    let m = c.last();
    let l1 = leased.insert(m);
    let c1 = caches.insert(id, c.drop_last());
    assert(c.contains(m)) by { assert(c[c.len() - 1] == m); }
    lemma_drop_last_contains(c, m);
    assert forall|k: usize| #[trigger] l1.contains(k) implies k < cap && !avail.contains(k) by {
        if k == m {
            assert(c[c.len() - 1] == m);
        }
    }
    assert forall|j: nat| #[trigger] c1.dom().contains(j) implies distinct(c1[j]) && below(c1[j], cap) by {
        if j == id {
            assert forall|i: int| 0 <= i < c1[j].len() implies c1[j][i] < cap by {
                assert(c1[j][i] == c[i]);
            }
        }
    }
    assert forall|j: nat, k: usize| c1.dom().contains(j) && #[trigger] c1[j].contains(k)
        implies !avail.contains(k) && !l1.contains(k) by {
        if j == id {
            lemma_drop_last_contains(c, k);
        } else {
            assert(c1[j] == caches[j]);
            if k == m {
                assert(caches[id].contains(k));
            }
        }
    }
    assert forall|i: nat, j: nat, k: usize|
        c1.dom().contains(i) && c1.dom().contains(j) && i != j && #[trigger] c1[i].contains(k)
        implies !#[trigger] c1[j].contains(k) by {
        lemma_drop_last_contains(c, k);
        if i == id {
            assert(caches[i].contains(k));
            assert(c1[j] == caches[j]);
        } else if j == id {
            assert(c1[i] == caches[i]);
        } else {
            assert(c1[i] == caches[i]);
            assert(c1[j] == caches[j]);
        }
    }
    assert forall|k: usize| k < cap implies avail.contains(k) || l1.contains(k) || in_some_cache(c1, k) by {
        assert(avail.contains(k) || leased.contains(k) || in_some_cache(caches, k));
        if in_some_cache(caches, k) && k != m {
            let j = choose|j: nat| caches.dom().contains(j) && #[trigger] caches[j].contains(k);
            lemma_drop_last_contains(c, k);
            assert(c1.dom().contains(j) && c1[j].contains(k));
        }
    }
    if avail.contains(m) {
        assert(caches.dom().contains(id) && caches[id].contains(m));
    }
}

/// Slot `m`, leased, comes back into cache `id`.
pub proof fn lemma_slots_return_cached(avail: Seq<usize>, leased: Set<usize>, caches: Map<nat, Seq<usize>>, cap: nat, id: nat, m: usize)
    requires
        slots_wf(avail, leased, caches, cap),
        caches.dom().contains(id),
        leased.contains(m),
    ensures
        slots_wf(avail, leased.remove(m), caches.insert(id, caches[id].push(m)), cap),
{
    let c = caches[id];
    let l1 = leased.remove(m);
    let c1 = caches.insert(id, c.push(m));
    assert(!c.contains(m));
    lemma_push_contains(c, m, m);
    assert forall|j: nat| #[trigger] c1.dom().contains(j) implies distinct(c1[j]) && below(c1[j], cap) by {
        if j == id {
            assert forall|i: int| 0 <= i < c1[j].len() implies c1[j][i] < cap by {
                if i < c.len() { assert(c1[j][i] == c[i]); }
            }
        }
    }
    assert forall|j: nat, k: usize| c1.dom().contains(j) && #[trigger] c1[j].contains(k)
        implies !avail.contains(k) && !l1.contains(k) by {
        if j == id {
            lemma_push_contains(c, m, k);
        } else {
            assert(c1[j] == caches[j]);
        }
    }
    assert forall|i: nat, j: nat, k: usize|
        c1.dom().contains(i) && c1.dom().contains(j) && i != j && #[trigger] c1[i].contains(k)
        implies !#[trigger] c1[j].contains(k) by {
        lemma_push_contains(c, m, k);
        if i == id {
            assert(c1[j] == caches[j]);
            if k == m {
                assert(!caches[j].contains(m));
            }
        } else if j == id {
            assert(c1[i] == caches[i]);
        } else {
            assert(c1[i] == caches[i]);
            assert(c1[j] == caches[j]);
        }
    }
    assert forall|k: usize| k < cap implies avail.contains(k) || l1.contains(k) || in_some_cache(c1, k) by {
        assert(avail.contains(k) || leased.contains(k) || in_some_cache(caches, k));
        lemma_push_contains(c, m, k);
        if k == m {
            assert(c1.dom().contains(id) && c1[id].contains(k));
        } else if in_some_cache(caches, k) {
            let j = choose|j: nat| caches.dom().contains(j) && #[trigger] caches[j].contains(k);
            if j == id {
                assert(c1[id].contains(k));
            } else {
                assert(c1[j] == caches[j]);
            }
            assert(c1.dom().contains(j) && c1[j].contains(k));
        }
    }
}

/// Every slot of the slab is in exactly one place: the shared list, the
/// leases, or one thread's cache.
pub proof fn lemma_slot_in_one_place(avail: Seq<usize>, leased: Set<usize>, caches: Map<nat, Seq<usize>>, cap: nat, k: usize)
    requires
        slots_wf(avail, leased, caches, cap),
        k < cap,
    ensures
        avail.contains(k) || leased.contains(k) || in_some_cache(caches, k),
        avail.contains(k) ==> !leased.contains(k) && !in_some_cache(caches, k),
        leased.contains(k) ==> !in_some_cache(caches, k),
        forall|i: nat, j: nat| caches.dom().contains(i) && caches.dom().contains(j)
            && #[trigger] caches[i].contains(k) && #[trigger] caches[j].contains(k) ==> i == j,
{
    assert(avail.contains(k) || leased.contains(k) || in_some_cache(caches, k));
    if in_some_cache(caches, k) {
        let j = choose|j: nat| caches.dom().contains(j) && #[trigger] caches[j].contains(k);
        assert(!avail.contains(k) && !leased.contains(k));
    }
}

} // verus!
