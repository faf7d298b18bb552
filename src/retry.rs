use vstd::prelude::*;

verus! {

/// How often, and how far apart, a failed entity resolution is tried again.
#[derive(Debug, Clone, Copy, PartialEq, Eq, Structural)]
pub struct RetryPolicy {
    /// Retries after the first attempt, at most.
    pub max_retries: u32,
    /// Fixed wait before each retry, in milliseconds.
    pub interval_ms: u64,
}

/// What to do after an attempt.
#[derive(Debug, Clone, Copy, PartialEq, Eq, Structural)]
pub enum RetryDecision {
    /// The attempt succeeded: stop.
    Done,
    /// Wait this many milliseconds, then attempt again.
    RetryAfter(u64),
    /// The last allowed attempt failed: give up.
    Exhausted,
}

/// The retries spent so far on one resolution.
pub struct RetryState {
    pub retries: u32,
}

pub const ENTITY_RESOLUTION_MAX_RETRIES: u32 = 10;

pub const ENTITY_RESOLUTION_INTERVAL_MS: u64 = 5000;

impl RetryPolicy {
    /// The policy of entity resolution: ten retries, five seconds apart.
    pub fn entity_resolution() -> (p: RetryPolicy)
        ensures
            p.max_retries == 10,
            p.interval_ms == 5000,
    {
        RetryPolicy {
            max_retries: ENTITY_RESOLUTION_MAX_RETRIES,
            interval_ms: ENTITY_RESOLUTION_INTERVAL_MS,
        }
    }
}

/// The decision after an attempt, with `retries` spent before it.
pub open spec fn decide(p: RetryPolicy, retries: nat, succeeded: bool) -> RetryDecision {
    if succeeded {
        RetryDecision::Done
    } else if retries < p.max_retries {
        RetryDecision::RetryAfter(p.interval_ms)
    } else {
        RetryDecision::Exhausted
    }
}

/// Attempts made, and the final decision, when the attempts turn out as
/// `outcomes` (true for success) and `retries` were spent before. Where the
/// outcomes run out before the resolution stops, it is left waiting to retry.
pub open spec fn run(p: RetryPolicy, retries: nat, outcomes: Seq<bool>) -> (nat, RetryDecision)
    decreases outcomes.len(),
{
    if outcomes.len() == 0 {
        (0, RetryDecision::RetryAfter(p.interval_ms))
    } else {
        match decide(p, retries, outcomes[0]) {
            RetryDecision::RetryAfter(_) => {
                let (n, d) = run(p, retries + 1, outcomes.drop_first());
                (n + 1, d)
            },
            d => (1, d),
        }
    }
}

impl RetryState {
    /// No retry spent yet.
    pub fn new() -> (r: RetryState)
        ensures
            r.retries == 0,
    {
        RetryState { retries: 0 }
    }

    /// Records the outcome of an attempt and says what to do next.
    pub fn record(&mut self, policy: &RetryPolicy, succeeded: bool) -> (d: RetryDecision)
        requires
            old(self).retries <= policy.max_retries,
        ensures
            d == decide(*policy, old(self).retries as nat, succeeded),
            d is RetryAfter ==> final(self).retries == old(self).retries + 1,
            !(d is RetryAfter) ==> final(self).retries == old(self).retries,
            final(self).retries <= policy.max_retries,
    {
        if succeeded {
            RetryDecision::Done
        } else if self.retries < policy.max_retries {
            self.retries = self.retries + 1;
            RetryDecision::RetryAfter(policy.interval_ms)
        } else {
            RetryDecision::Exhausted
        }
    }
}

/// A resolution that always fails is attempted exactly `max_retries + 1` times,
/// each retry after the fixed interval, and then given up.
pub proof fn lemma_always_failing(p: RetryPolicy, retries: nat, outcomes: Seq<bool>)
    requires
        retries <= p.max_retries,
        outcomes.len() >= p.max_retries - retries + 1,
        forall|i: int| 0 <= i < outcomes.len() ==> !outcomes[i],
    ensures
        run(p, retries, outcomes) == (
            (p.max_retries - retries + 1) as nat,
            RetryDecision::Exhausted,
        ),
        forall|r: nat|
            retries <= r < p.max_retries ==> decide(p, r, false) == RetryDecision::RetryAfter(
                p.interval_ms,
            ),
    decreases p.max_retries - retries,
{
    if retries < p.max_retries {
        lemma_always_failing(p, retries + 1, outcomes.drop_first());
    }
}

/// A resolution that first succeeds on attempt `k + 1`, within the allowed
/// attempts, stops there: exactly `k + 1` attempts are made.
pub proof fn lemma_stops_on_success(p: RetryPolicy, retries: nat, outcomes: Seq<bool>, k: nat)
    requires
        retries + k <= p.max_retries,
        k < outcomes.len(),
        outcomes[k as int],
        forall|i: int| 0 <= i < k ==> !outcomes[i],
    ensures
        run(p, retries, outcomes) == (k + 1, RetryDecision::Done),
    decreases k,
{
    if k > 0 {
        lemma_stops_on_success(p, retries + 1, outcomes.drop_first(), (k - 1) as nat);
    }
}

} // verus!
