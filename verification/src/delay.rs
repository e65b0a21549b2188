//! Timing: when an envelope may leave for its next hop, and how long it is
//! held while the endpoint of that hop is not ready for it.

use crate::envelope::Envelope;
use rand::Rng;
use vstd::prelude::*;

verus! {

/// The time at which the delay of an envelope that arrived at `now` begins to
/// run: the later of `now` and `delay_until`.
pub open spec fn earliest(now: u64, delay_until: u64) -> u64 {
    if now >= delay_until {
        now
    } else {
        delay_until
    }
}

/// The time at which an envelope may leave for its next hop.
pub open spec fn release_at(now: u64, delay_until: u64, jitter: u64) -> int {
    earliest(now, delay_until) + jitter
}

/// The time at which an envelope may leave for its next hop, given the delay
/// that was picked for it.
pub fn release_time(now: u64, delay_until: u64, jitter: u64) -> (t: u64)
    requires
        release_at(now, delay_until, jitter) <= u64::MAX,
    ensures
        t == release_at(now, delay_until, jitter),
{
    let base = if now >= delay_until {
        now
    } else {
        delay_until
    };
    base + jitter
}

/// Draws a delay from `rand`'s thread-local generator, by `Rng::gen_range`
/// on the inclusive range from `min_delay` to `max_delay`. The call panics on
/// an empty range, which `requires` rules out, and returns a number of the
/// range.
#[verifier::external_body]
fn jitter_between(min_delay: u64, max_delay: u64) -> (jitter: u64)
    requires
        min_delay <= max_delay,
    ensures
        min_delay <= jitter <= max_delay,
{
    rand::thread_rng().gen_range(min_delay..=max_delay)
}

/// Picks the delay of `env` for the hop it arrived for at `now`, and returns
/// the time before which the envelope must not be dispatched. Where the least
/// and the greatest delay are equal nothing is left to chance; where both are
/// zero and no `delay_until` is set, the envelope may leave at once.
pub fn schedule(env: &Envelope, now: u64) -> (t: u64)
    requires
        env.well_formed(),
        earliest(now, env.delay_until) + env.max_delay <= u64::MAX,
    ensures
        earliest(now, env.delay_until) + env.min_delay <= t <= earliest(now, env.delay_until)
            + env.max_delay,
        exists|jitter: u64|
            env.min_delay <= jitter <= env.max_delay && t == #[trigger] release_at(
                now,
                env.delay_until,
                jitter,
            ),
        env.delay_until == 0 && env.min_delay == 0 && env.max_delay == 0 ==> t == now,
{
    let jitter = if env.min_delay == env.max_delay {
        env.min_delay
    } else {
        jitter_between(env.min_delay, env.max_delay)
    };
    release_time(now, env.delay_until, jitter)
}

/// How long an envelope is held while the endpoint of its next hop is
/// temporarily inadmissible: `base` milliseconds the first time, and twice as
/// long each time after, as long as the wait does not pass `ceiling`.
#[derive(Debug, Clone, Copy, PartialEq, Eq, Structural)]
pub struct RetryPolicy {
    pub base: u64,
    pub ceiling: u64,
}

/// `base`, doubled `holds` times.
pub open spec fn doubled(base: nat, holds: nat) -> nat
    decreases holds,
{
    if holds == 0 {
        base
    } else {
        2 * doubled(base, (holds - 1) as nat)
    }
}

proof fn lemma_doubled_grows(base: nat, fewer: nat, more: nat)
    requires
        fewer <= more,
    ensures
        doubled(base, fewer) <= doubled(base, more),
    decreases more,
{
    if fewer < more {
        lemma_doubled_grows(base, fewer, (more - 1) as nat);
    }
}

impl RetryPolicy {
    /// The wait of an envelope that has been held `holds` times already, or
    /// `None` where it is to be held no more: where the wait would pass the
    /// ceiling, and under a policy whose base is zero, which never holds.
    pub open spec fn wait_of(&self, holds: nat) -> Option<u64> {
        if self.base >= 1 && doubled(self.base as nat, holds) <= self.ceiling {
            Some(doubled(self.base as nat, holds) as u64)
        } else {
            None
        }
    }

    /// The wait of an envelope that has been held `holds` times already, or
    /// `None` where it is to be held no more.
    pub fn wait(&self, holds: u32) -> (w: Option<u64>)
        ensures
            w == self.wait_of(holds as nat),
    {
        if self.base == 0 || self.base > self.ceiling {
            proof {
                lemma_doubled_grows(self.base as nat, 0, holds as nat);
            }
            return None;
        }
        let mut wait: u64 = self.base;
        let mut k: u32 = 0;
        while k < holds
            invariant
                k <= holds,
                1 <= wait <= self.ceiling,
                wait == doubled(self.base as nat, k as nat),
            decreases holds - k,
        {
            if wait > self.ceiling - wait {
                proof {
                    lemma_doubled_grows(self.base as nat, (k + 1) as nat, holds as nat);
                }
                return None;
            }
            wait = wait + wait;
            k = k + 1;
        }
        Some(wait)
    }
}

/// The waits of a policy grow from hold to hold and never pass its ceiling,
/// and once a policy holds no more it never holds again: an envelope is held
/// a bounded number of times.
pub proof fn lemma_holds_are_bounded(policy: RetryPolicy, fewer: nat, more: nat)
    requires
        fewer <= more,
    ensures
        policy.wait_of(fewer) is Some ==> policy.wait_of(fewer)->Some_0 <= policy.ceiling,
        policy.wait_of(more) is Some ==> policy.wait_of(fewer) is Some && policy.wait_of(
            fewer,
        )->Some_0 <= policy.wait_of(more)->Some_0,
        policy.wait_of(policy.ceiling as nat) is None,
{
    lemma_doubled_grows(policy.base as nat, fewer, more);
    if policy.base >= 1 {
        lemma_doubled_exceeds(policy.base as nat, policy.ceiling as nat);
    }
}

proof fn lemma_doubled_exceeds(base: nat, holds: nat)
    requires
        base >= 1,
    ensures
        doubled(base, holds) > holds,
    decreases holds,
{
    if holds > 0 {
        lemma_doubled_exceeds(base, (holds - 1) as nat);
    }
}

} // verus!
