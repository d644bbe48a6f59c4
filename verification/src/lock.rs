//! Quorum lock over independent lock stores.
//!
//! Cooperating processes partition the worker-id space by taking, per id, a
//! TTL-bounded mutual-exclusion lock that a strict majority of configured
//! stores must accept. The stores are reached only from outside; this module
//! decides everything: whether enough stores are reachable, which ids to try
//! and in what order, when a held lock must be renewed, and when ownership
//! counts as lost.

use vstd::prelude::*;
use rand::seq::SliceRandom;
use rand::SeedableRng;
use crate::health::HealthState;

verus! {

/// How long one acquired or extended lock lasts.
pub const LOCK_TTL_MS: u64 = 15_000;

/// Renew once this little validity remains.
pub const RENEW_THRESHOLD_MS: u64 = 5_000;

/// How often the renewal loop wakes.
pub const RENEW_TICK_MS: u64 = 1_000;

/// The smallest count that is a strict majority of `n`.
pub open spec fn spec_majority(n: int) -> int {
    n / 2 + 1
}

/// How many of `s` are true.
pub open spec fn count_true(s: Seq<bool>) -> int
    decreases s.len(),
{
    if s.len() == 0 {
        0
    } else {
        count_true(s.drop_last()) + if s.last() {
            1int
        } else {
            0int
        }
    }
}

/// The smallest count that is a strict majority of `total` stores.
pub fn majority(total: usize) -> (r: usize)
    ensures
        r == spec_majority(total as int),
{
    total / 2 + 1
}

/// Whether enough stores answered: the reachable count must meet a strict
/// majority of the configured stores. Startup must fail without one.
pub fn quorum_ok(reachable: &Vec<bool>) -> (r: bool)
    ensures
        r == (count_true(reachable@) >= spec_majority(reachable@.len() as int)),
{
    let n = reachable.len();
    let mut count: usize = 0;
    let mut k: usize = 0;
    while k < n
        invariant
            k <= n,
            n == reachable@.len(),
            count == count_true(reachable@.take(k as int)),
            count <= k,
        decreases n - k,
    {
        proof {
            assert(reachable@.take(k + 1 as int).drop_last() =~= reachable@.take(k as int));
        }
        if reachable[k] {
            count += 1;
        }
        k += 1;
    }
    proof {
        assert(reachable@.take(n as int) =~= reachable@);
    }
    count >= majority(n)
}

/// The ids whose lock key no store reported held, in ascending order: the
/// best-effort candidate list.
pub open spec fn spec_candidates(held: Seq<bool>) -> Seq<u16>
    decreases held.len(),
{
    if held.len() == 0 {
        Seq::empty()
    } else {
        spec_candidates(held.drop_last()) + if held.last() {
            Seq::empty()
        } else {
            seq![(held.len() - 1) as u16]
        }
    }
}

/// The apparently-free ids, scanned off the per-id existence bits.
pub fn candidate_ids(held: &Vec<bool>) -> (r: Vec<u16>)
    requires
        held@.len() <= 0x1_0000,
    ensures
        r@ == spec_candidates(held@),
{
    let n = held.len();
    let mut r: Vec<u16> = Vec::new();
    let mut k: usize = 0;
    while k < n
        invariant
            k <= n,
            n == held@.len(),
            n <= 0x1_0000,
            r@ == spec_candidates(held@.take(k as int)),
        decreases n - k,
    {
        proof {
            assert(held@.take(k + 1 as int).drop_last() =~= held@.take(k as int));
        }
        if !held[k] {
            r.push(k as u16);
        }
        k += 1;
    }
    proof {
        assert(held@.take(n as int) =~= held@);
    }
    r
}

/// Relies on rand's `SliceRandom::shuffle` (a Fisher-Yates shuffle): it
/// permutes the slice in place, so the elements are conserved.
#[verifier::external_body]
fn shuffle_ids(v: &mut Vec<u16>, seed: u64)
    ensures
        final(v)@.to_multiset() == old(v)@.to_multiset(),
{
    let mut rng = rand::rngs::StdRng::seed_from_u64(seed);
    v.shuffle(&mut rng);
}

/// The order in which to try claiming ids: the candidates in a random
/// permutation, so simultaneously starting processes rarely collide. The
/// permutation is drawn from `seed`, which a test may fix.
pub fn claim_order(held: &Vec<bool>, seed: u64) -> (r: Vec<u16>)
    requires
        held@.len() <= 0x1_0000,
    ensures
        r@.to_multiset() == spec_candidates(held@).to_multiset(),
{
    let mut order = candidate_ids(held);
    shuffle_ids(&mut order, seed);
    order
}

/// Where one claim attempt stands after a lock try.
#[derive(PartialEq, Eq, Structural, Debug, Clone, Copy)]
pub enum ClaimStep {
    /// This id is ours; the search stops.
    Acquired(u16),
    /// The stores refused this id; move to the next candidate.
    TryNext,
    /// No candidate is left: startup must fail.
    Exhausted,
}

/// Advance the claim: the first candidate whose lock try succeeded wins,
/// a refused candidate is skipped, and running past the list is fatal.
pub fn claim_step(order: &Vec<u16>, idx: usize, locked: bool) -> (r: ClaimStep)
    ensures
        idx >= order@.len() ==> r == ClaimStep::Exhausted,
        idx < order@.len() && locked ==> r == ClaimStep::Acquired(order@[idx as int]),
        idx < order@.len() && !locked ==> r == ClaimStep::TryNext,
{
    if idx >= order.len() {
        ClaimStep::Exhausted
    } else if locked {
        ClaimStep::Acquired(order[idx])
    } else {
        ClaimStep::TryNext
    }
}

/// Whether one lock write took: a strict majority of stores accepted it and
/// enough of the TTL outlived the round trip; the remaining validity comes
/// back with success.
pub fn acquire_decision(accepts: &Vec<bool>, elapsed_ms: u64, ttl_ms: u64) -> (r: Option<u64>)
    ensures
        r == if count_true(accepts@) >= spec_majority(accepts@.len() as int) && elapsed_ms
            < ttl_ms {
            Some((ttl_ms - elapsed_ms) as u64)
        } else {
            None::<u64>
        },
{
    if quorum_ok(accepts) && elapsed_ms < ttl_ms {
        Some(ttl_ms - elapsed_ms)
    } else {
        None
    }
}

/// The renewal loop's view of the held lock: its TTL, the renewal
/// threshold, the absolute expiry instant, and whether the loop still runs.
pub struct RenewalLoop {
    /// TTL each successful acquire or extension grants.
    pub ttl_ms: u64,
    /// Renew once remaining validity falls to this.
    pub threshold_ms: u64,
    /// The instant the lock lapses, in milliseconds.
    pub expiry_ms: u64,
    /// False once ownership was lost; the loop is then over for good.
    pub alive: bool,
}

/// What one renewal tick asks for.
#[derive(PartialEq, Eq, Structural, Debug, Clone, Copy)]
pub enum RenewAction {
    /// Validity is comfortable; sleep until the next tick.
    Sleep,
    /// Validity runs low; extend the lock across a majority of stores.
    Extend,
    /// Validity lapsed: ownership is lost.
    Lost,
}

/// The validity a lock still has at `now_ms`.
pub open spec fn spec_remaining(expiry_ms: u64, now_ms: u64) -> int {
    if expiry_ms > now_ms {
        expiry_ms - now_ms
    } else {
        0
    }
}

impl RenewalLoop {
    /// The loop over a lock just acquired: full TTL ahead.
    pub fn start(ttl_ms: u64, threshold_ms: u64, now_ms: u64) -> (r: RenewalLoop)
        requires
            now_ms + ttl_ms <= u64::MAX,
        ensures
            r.ttl_ms == ttl_ms,
            r.threshold_ms == threshold_ms,
            r.expiry_ms == now_ms + ttl_ms,
            r.alive,
    {
        RenewalLoop { ttl_ms, threshold_ms, expiry_ms: now_ms + ttl_ms, alive: true }
    }

    /// The validity the lock still has.
    pub fn remaining_ms(&self, now_ms: u64) -> (r: u64)
        ensures
            r == spec_remaining(self.expiry_ms, now_ms),
    {
        if self.expiry_ms > now_ms {
            self.expiry_ms - now_ms
        } else {
            0
        }
    }

    /// One successful extension: the expiry moves out to a full TTL from
    /// now, so the remaining validity is reset to exactly the TTL. A failed
    /// extension changes nothing; the loop retries each tick until the
    /// validity lapses.
    pub fn on_extend_result(&mut self, now_ms: u64, extended: bool)
        requires
            now_ms + old(self).ttl_ms <= u64::MAX,
        ensures
            final(self).ttl_ms == old(self).ttl_ms,
            final(self).threshold_ms == old(self).threshold_ms,
            final(self).alive == old(self).alive,
            extended ==> final(self).expiry_ms == now_ms + old(self).ttl_ms && spec_remaining(
                final(self).expiry_ms,
                now_ms,
            ) == old(self).ttl_ms,
            !extended ==> final(self).expiry_ms == old(self).expiry_ms,
    {
        if extended {
            self.expiry_ms = now_ms + self.ttl_ms;
        }
    }
}

/// The lock manager: the renewal loop and the health it publishes. The
/// transitions it makes are `spec_manager_tick`.
pub struct LockManager {
    /// The held lock, as the renewal loop sees it.
    pub renewal: RenewalLoop,
    /// What the readiness probe reports.
    pub health: HealthState,
}

/// What one manager tick does: nothing once the loop is over; loss of all
/// validity flips health to unhealthy, once, and ends the loop; low
/// validity asks for an extension; otherwise the loop sleeps.
pub open spec fn spec_manager_tick(m: LockManager, now_ms: u64) -> (LockManager, RenewAction) {
    if !m.renewal.alive {
        (m, RenewAction::Lost)
    } else if spec_remaining(m.renewal.expiry_ms, now_ms) == 0 {
        (
            LockManager {
                renewal: RenewalLoop { alive: false, ..m.renewal },
                health: HealthState::Unhealthy,
            },
            RenewAction::Lost,
        )
    } else if spec_remaining(m.renewal.expiry_ms, now_ms) <= m.renewal.threshold_ms {
        (m, RenewAction::Extend)
    } else {
        (m, RenewAction::Sleep)
    }
}

impl LockManager {
    /// A manager over a lock just acquired: the process turns healthy.
    pub fn start(ttl_ms: u64, threshold_ms: u64, now_ms: u64) -> (r: LockManager)
        requires
            now_ms + ttl_ms <= u64::MAX,
        ensures
            r.renewal == (RenewalLoop {
                ttl_ms,
                threshold_ms,
                expiry_ms: (now_ms + ttl_ms) as u64,
                alive: true,
            }),
            r.health == HealthState::Healthy,
    {
        LockManager {
            renewal: RenewalLoop::start(ttl_ms, threshold_ms, now_ms),
            health: HealthState::Healthy,
        }
    }

    /// One renewal tick.
    pub fn tick(&mut self, now_ms: u64) -> (a: RenewAction)
        ensures
            (*final(self), a) == spec_manager_tick(*old(self), now_ms),
    {
        if !self.renewal.alive {
            return RenewAction::Lost;
        }
        let remaining = self.renewal.remaining_ms(now_ms);
        if remaining == 0 {
            self.renewal.alive = false;
            self.health = HealthState::Unhealthy;
            RenewAction::Lost
        } else if remaining <= self.renewal.threshold_ms {
            RenewAction::Extend
        } else {
            RenewAction::Sleep
        }
    }

    /// Feed back what the stores said to an extension request.
    pub fn on_extend_result(&mut self, now_ms: u64, extended: bool)
        requires
            now_ms + old(self).renewal.ttl_ms <= u64::MAX,
        ensures
            final(self).health == old(self).health,
            final(self).renewal.ttl_ms == old(self).renewal.ttl_ms,
            final(self).renewal.threshold_ms == old(self).renewal.threshold_ms,
            final(self).renewal.alive == old(self).renewal.alive,
            extended ==> spec_remaining(final(self).renewal.expiry_ms, now_ms) == old(
                self,
            ).renewal.ttl_ms,
            !extended ==> final(self).renewal.expiry_ms == old(self).renewal.expiry_ms,
    {
        self.renewal.on_extend_result(now_ms, extended);
    }
}

/// Law: health flips to unhealthy exactly once. The tick that observes the
/// validity lapse ends the loop, and from then on every tick leaves the
/// manager untouched — there is no second flip, and no recovery.
pub proof fn lemma_unhealthy_flip_once(m0: LockManager, now1: u64, now2: u64)
    requires
        m0.health != HealthState::Unhealthy,
        spec_manager_tick(m0, now1).0.health == HealthState::Unhealthy,
    ensures
        spec_manager_tick(spec_manager_tick(m0, now1).0, now2).0 == spec_manager_tick(m0, now1).0,
        spec_manager_tick(spec_manager_tick(m0, now1).0, now2).1 == RenewAction::Lost,
{
}

} // verus!
