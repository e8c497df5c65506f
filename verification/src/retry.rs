use vstd::prelude::*;
use vstd::arithmetic::div_mod::lemma_div_by_multiple;
use vstd::arithmetic::div_mod::lemma_div_is_ordered;
use vstd::arithmetic::mul::lemma_mul_inequality;
use vstd::arithmetic::mul::lemma_mul_upper_bound;

use crate::error::AppError;

verus! {

/// Configuration for retry behavior. The backoff factor is the ratio
/// `backoff_num / backoff_den`, so a numerator of 3 over a denominator of 2
/// grows each delay by half again.
#[derive(Debug, Clone)]
pub struct RetryConfig {
    pub max_attempts: usize,
    pub initial_delay_ms: u64,
    pub max_delay_ms: u64,
    pub backoff_num: u64,
    pub backoff_den: u64,
}

impl RetryConfig {
    /// A usable policy: at least one attempt, and a backoff factor of at
    /// least one.
    pub open spec fn well_formed(self) -> bool {
        &&& self.max_attempts >= 1
        &&& self.backoff_den >= 1
        &&& self.backoff_num >= self.backoff_den
    }

    /// One backoff step: grow `d` by the factor, capped at the maximum.
    pub open spec fn spec_next_delay(self, d: nat) -> nat {
        let grown = (d * self.backoff_num) / (self.backoff_den as int);
        if grown > self.max_delay_ms {
            self.max_delay_ms as nat
        } else {
            grown as nat
        }
    }

    /// The sleep, in milliseconds, before the 0-based attempt `k`: nothing
    /// before the first attempt, then the initial delay grown by the backoff
    /// factor once per further attempt, capped at the maximum.
    pub open spec fn spec_delay(self, k: nat) -> nat
        decreases k,
    {
        if k == 0 {
            0
        } else if k == 1 {
            self.spec_next_delay(self.initial_delay_ms as nat)
        } else {
            self.spec_next_delay(self.spec_delay((k - 1) as nat))
        }
    }

    /// The default policy: five attempts, half a second growing by half
    /// again each time, capped at five seconds.
    pub open spec fn spec_default() -> RetryConfig {
        RetryConfig {
            max_attempts: 5,
            initial_delay_ms: 500,
            max_delay_ms: 5000,
            backoff_num: 3,
            backoff_den: 2,
        }
    }

    /// Calculate the delay before a given attempt (0-based).
    pub fn delay_for_attempt(&self, attempt: usize) -> (d: u64)
        requires
            self.well_formed(),
        ensures
            d == self.spec_delay(attempt as nat),
    {
        if attempt == 0 {
            return 0;
        }
        let mut cur: u64 = next_delay(self, self.initial_delay_ms);
        let mut k: usize = 1;
        while k < attempt
            invariant
                self.well_formed(),
                1 <= k <= attempt,
                cur == self.spec_delay(k as nat),
            decreases attempt - k,
        {
            cur = next_delay(self, cur);
            k = k + 1;
        }
        cur
    }
}

impl Default for RetryConfig {
    /// The default retry policy.
    fn default() -> (c: Self)
        ensures
            c == RetryConfig::spec_default(),
    {
        RetryConfig {
            max_attempts: 5,
            initial_delay_ms: 500,
            max_delay_ms: 5000,
            backoff_num: 3,
            backoff_den: 2,
        }
    }
}

fn next_delay(c: &RetryConfig, d: u64) -> (r: u64)
    requires
        c.well_formed(),
    ensures
        r == c.spec_next_delay(d as nat),
{
    proof {
        lemma_mul_upper_bound(d as int, u64::MAX as int, c.backoff_num as int, u64::MAX as int);
    }
    let prod: u128 = (d as u128) * (c.backoff_num as u128);
    let q: u128 = prod / (c.backoff_den as u128);
    if q > c.max_delay_ms as u128 {
        c.max_delay_ms
    } else {
        q as u64
    }
}

proof fn lemma_next_delay_grows(c: RetryConfig, d: nat)
    requires
        c.well_formed(),
        d <= c.max_delay_ms,
    ensures
        c.spec_next_delay(d) >= d,
        c.spec_next_delay(d) <= c.max_delay_ms,
{
    let den = c.backoff_den as int;
    let num = c.backoff_num as int;
    lemma_mul_inequality(den, num, d as int);
    lemma_div_is_ordered(d * den, d * num, den);
    lemma_div_by_multiple(d as int, den);
}

/// No retry policy sleeps longer than its configured maximum delay.
pub proof fn lemma_delay_bounded(c: RetryConfig, k: nat)
    requires
        c.well_formed(),
    ensures
        c.spec_delay(k) <= c.max_delay_ms,
{
}

/// For any retry policy, there is no delay before the first attempt, and the
/// backoff delays are non-decreasing in the attempt index while never
/// exceeding the configured maximum.
pub proof fn lemma_delay_monotone(c: RetryConfig, k: nat)
    requires
        c.well_formed(),
    ensures
        c.spec_delay(0) == 0,
        c.spec_delay(k) <= c.spec_delay(k + 1),
        c.spec_delay(k) <= c.max_delay_ms,
{
    lemma_delay_bounded(c, k);
    if k >= 1 {
        lemma_next_delay_grows(c, c.spec_delay(k));
    }
}

/// What the retry driver does after a failed attempt.
#[derive(Debug, Clone, Copy, PartialEq, Eq, Structural)]
pub enum RetryStep {
    /// Give up and surface the error that just occurred.
    Abort,
    /// Sleep this many milliseconds, then run the operation again.
    RetryAfter(u64),
}

/// Decide what the retry driver does after the 0-based attempt `attempt`
/// failed with `err`: a permanent error aborts at once; while attempts
/// remain, a transient error is retried after the next attempt's backoff
/// delay; with no attempts left, the driver aborts and this last error is
/// surfaced.
pub fn retry_step(config: &RetryConfig, attempt: usize, err: &AppError) -> (s: RetryStep)
    requires
        config.well_formed(),
        attempt < config.max_attempts,
    ensures
        err.spec_is_permanent() ==> s == RetryStep::Abort,
        !err.spec_is_permanent() && attempt + 1 == config.max_attempts ==> s == RetryStep::Abort,
        !err.spec_is_permanent() && attempt + 1 < config.max_attempts ==> s
            == RetryStep::RetryAfter(config.spec_delay((attempt + 1) as nat) as u64),
{
    if err.is_permanent() {
        RetryStep::Abort
    } else if attempt + 1 >= config.max_attempts {
        RetryStep::Abort
    } else {
        RetryStep::RetryAfter(config.delay_for_attempt(attempt + 1))
    }
}

} // verus!
