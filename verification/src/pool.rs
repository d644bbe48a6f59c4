//! In-memory allocator over a fixed worker-id space.
//!
//! One allocator instance exclusively owns the space `{0..N-1}`. Every id is
//! either free or leased; allocation hands out the lowest free id, release
//! returns an id to the free set and is idempotent.

use vstd::prelude::*;
use vstd::set_lib::{lemma_int_range, lemma_len_subset, lemma_set_disjoint_lens, set_int_range};

verus! {

/// Number of worker-id slots a default allocator manages.
pub const MAX_WORKERS: u32 = 32;

/// The ids currently free, as a set of indices into the usage sequence.
pub open spec fn free_set(s: Seq<bool>) -> Set<int> {
    Set::new(|i: int| 0 <= i < s.len() && !s[i])
}

/// The ids currently leased, as a set of indices into the usage sequence.
pub open spec fn leased_set(s: Seq<bool>) -> Set<int> {
    Set::new(|i: int| 0 <= i < s.len() && s[i])
}

/// What one allocation does to a pool: hand out the lowest free id and mark
/// it leased, or leave the pool unchanged when every id is leased.
pub open spec fn allocate_post(pre: Seq<bool>, post: Seq<bool>, r: Option<u32>) -> bool {
    match r {
        Some(id) => {
            &&& id < pre.len()
            &&& !pre[id as int]
            &&& (forall|j: int| 0 <= j < id ==> pre[j])
            &&& post == pre.update(id as int, true)
        },
        None => {
            &&& (forall|j: int| 0 <= j < pre.len() ==> pre[j])
            &&& post == pre
        },
    }
}

/// What releasing `id` does to a pool: mark it free when it is in range,
/// and do nothing otherwise.
pub open spec fn release_result(pre: Seq<bool>, id: u32) -> Seq<bool> {
    if id < pre.len() {
        pre.update(id as int, false)
    } else {
        pre
    }
}

/// Allocator over the worker-id space. The view is one `bool` per id,
/// `true` when the id is leased out.
pub struct IdManager {
    in_use: Vec<bool>,
}

impl View for IdManager {
    type V = Seq<bool>;

    closed spec fn view(&self) -> Seq<bool> {
        self.in_use@
    }
}

/// Index of the first `false` entry, scanning from 0.
fn first_free(v: &Vec<bool>) -> (r: Option<usize>)
    ensures
        match r {
            Some(i) => i < v@.len() && !v@[i as int] && (forall|j: int| 0 <= j < i ==> v@[j]),
            None => forall|j: int| 0 <= j < v@.len() ==> v@[j],
        },
{
    let mut k: usize = 0;
    while k < v.len()
        invariant
            k <= v@.len(),
            forall|j: int| 0 <= j < k ==> v@[j],
        decreases v@.len() - k,
    {
        if !v[k] {
            return Some(k);
        }
        k += 1;
    }
    None
}

impl IdManager {
    /// Ids are returned as `u32`, so the space must fit one.
    pub open spec fn wf(&self) -> bool {
        self@.len() <= u32::MAX
    }

    /// A fresh allocator over `n` ids, all free.
    pub fn new_sized(n: u32) -> (r: IdManager)
        ensures
            r@.len() == n,
            forall|j: int| 0 <= j < n ==> !r@[j],
            r.wf(),
    {
        let mut v: Vec<bool> = Vec::new();
        let mut k: u32 = 0;
        while k < n
            invariant
                k <= n,
                v@.len() == k,
                forall|j: int| 0 <= j < k ==> !v@[j],
            decreases n - k,
        {
            v.push(false);
            k += 1;
        }
        IdManager { in_use: v }
    }

    /// A fresh allocator over the default space of `MAX_WORKERS` ids.
    pub fn new() -> (r: IdManager)
        ensures
            r@.len() == MAX_WORKERS,
            forall|j: int| 0 <= j < MAX_WORKERS ==> !r@[j],
            r.wf(),
    {
        IdManager::new_sized(MAX_WORKERS)
    }

    /// Remove and return the lowest free id; `None` when the space is
    /// exhausted.
    pub fn allocate(&mut self) -> (r: Option<u32>)
        requires
            old(self).wf(),
        ensures
            allocate_post(old(self)@, final(self)@, r),
            final(self).wf(),
    {
        match first_free(&self.in_use) {
            Some(i) => {
                self.in_use[i] = true;
                Some(i as u32)
            },
            None => None,
        }
    }

    /// Return `id` to the free set. Releasing an already-free or
    /// out-of-range id is a no-op, never an error.
    pub fn release(&mut self, id: u32)
        ensures
            final(self)@ == release_result(old(self)@, id),
            final(self)@.len() == old(self)@.len(),
            old(self).wf() ==> final(self).wf(),
    {
        let n = self.in_use.len();
        if (id as usize) < n {
            self.in_use[id as usize] = false;
        }
    }

    /// One `(id, leased)` pair for every id of the space, in id order; for
    /// observability only.
    pub fn usage_snapshot(&self) -> (r: Vec<(u32, bool)>)
        requires
            self.wf(),
        ensures
            r@.len() == self@.len(),
            forall|j: int| 0 <= j < r@.len() ==> r@[j] == (j as u32, self@[j]),
    {
        let n = self.in_use.len();
        let mut r: Vec<(u32, bool)> = Vec::new();
        let mut k: usize = 0;
        while k < n
            invariant
                n == self@.len(),
                self.wf(),
                k <= n,
                r@.len() == k,
                forall|j: int| 0 <= j < k ==> r@[j] == (j as u32, self@[j]),
            decreases n - k,
        {
            r.push((k as u32, self.in_use[k]));
            k += 1;
        }
        r
    }
}

/// Law: a pool conserves its id space. However ids have been allocated and
/// released, the free ids and the leased ids partition `{0..N-1}`, so their
/// counts always sum to `N`.
pub proof fn lemma_conservation(s: Seq<bool>)
    ensures
        free_set(s).finite(),
        leased_set(s).finite(),
        free_set(s).disjoint(leased_set(s)),
        free_set(s).len() + leased_set(s).len() == s.len(),
{
    let all = set_int_range(0, s.len() as int);
    lemma_int_range(0, s.len() as int);
    lemma_len_subset(free_set(s), all);
    lemma_len_subset(leased_set(s), all);
    lemma_set_disjoint_lens(free_set(s), leased_set(s));
    assert(free_set(s) + leased_set(s) =~= all);
}

/// Law: two consecutive successful allocations never hand out the same id.
/// The first allocation leaves its id leased, and an allocation only ever
/// returns a free id.
pub proof fn lemma_allocate_unique(p0: Seq<bool>, p1: Seq<bool>, p2: Seq<bool>, i: u32, j: u32)
    requires
        allocate_post(p0, p1, Some(i)),
        allocate_post(p1, p2, Some(j)),
    ensures
        i != j,
{
    assert(p1[i as int]);
}

/// Law: releasing an id twice is the same as releasing it once, so a stray
/// repeated release cannot disturb the pool.
pub proof fn lemma_release_idempotent(s: Seq<bool>, id: u32)
    ensures
        release_result(release_result(s, id), id) == release_result(s, id),
{
    assert(release_result(release_result(s, id), id) =~= release_result(s, id));
}

/// Law: a release never frees anything but the released id. The free set
/// afterwards is the old free set, plus the id itself when it is in range.
pub proof fn lemma_release_frees_only_id(s: Seq<bool>, id: u32)
    ensures
        id < s.len() ==> free_set(release_result(s, id)) == free_set(s).insert(id as int),
        id >= s.len() ==> free_set(release_result(s, id)) == free_set(s),
{
    if id < s.len() {
        assert(free_set(release_result(s, id)) =~= free_set(s).insert(id as int));
    } else {
        assert(free_set(release_result(s, id)) =~= free_set(s));
    }
}

/// Law: an allocation never returns an id that is out on lease. So two
/// allocations cannot return the same id while both are outstanding: the
/// first id stays leased until released, and the second allocation cannot
/// hand it out again.
pub proof fn lemma_no_double_allocation(pre: Seq<bool>, post: Seq<bool>, j: u32, i: int)
    requires
        allocate_post(pre, post, Some(j)),
        0 <= i < pre.len(),
        pre[i],
    ensures
        j != i,
{
}

/// The pool state in which exactly the ids below `k` are leased.
pub open spec fn prefix_leased(n: int, k: int) -> Seq<bool> {
    Seq::new(n as nat, |i: int| i < k)
}

/// Law: allocation order from a fresh pool is deterministic. With the ids
/// below `k` leased and the rest free, the next allocation returns exactly
/// `k`; so `n` allocations from a fresh pool of `n` ids return `0..n-1`.
pub proof fn lemma_fresh_allocation_order(n: int, k: int)
    requires
        0 <= k < n <= u32::MAX,
    ensures
        allocate_post(prefix_leased(n, k), prefix_leased(n, k + 1), Some(k as u32)),
{
    assert(prefix_leased(n, k + 1) =~= prefix_leased(n, k).update(k, true));
}

/// Law: once every id of the space is leased, allocation is refused and the
/// pool is left unchanged.
pub proof fn lemma_exhausted_pool_refuses(n: int)
    requires
        0 <= n,
    ensures
        allocate_post(prefix_leased(n, n), prefix_leased(n, n), None),
{
}

/// Law: whenever some id is free, allocation succeeds; exhaustion is the
/// only way to be refused.
pub proof fn lemma_allocate_succeeds_when_free(pre: Seq<bool>, post: Seq<bool>, r: Option<u32>)
    requires
        allocate_post(pre, post, r),
        exists|i: int| 0 <= i < pre.len() && !pre[i],
    ensures
        r is Some,
{
}

} // verus!
