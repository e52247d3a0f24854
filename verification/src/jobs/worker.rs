//! What becomes of a claimed job once it has run: done, tried again later with
//! a doubling delay, or given up.
use vstd::prelude::*;
use vstd::arithmetic::power2::{pow2, lemma_pow2_unfold};

verus! {

/// The delay before the next try of a job that failed on its `attempt`-th try:
/// a minute, doubled for every earlier try.
pub open spec fn backoff_secs(attempt: int) -> int {
    (60 * pow2((attempt - 1) as nat)) as int
}

/// How a job's record changes after a run.
#[derive(PartialEq, Eq, Structural, Clone, Copy)]
pub enum JobUpdate {
    Completed,
    RetryAfter(i64),
    Failed,
}

pub open spec fn job_update(succeeded: bool, attempts: i32, max_attempts: i32) -> JobUpdate {
    if succeeded {
        JobUpdate::Completed
    } else if attempts < max_attempts {
        JobUpdate::RetryAfter(backoff_secs(attempts as int) as i64)
    } else {
        JobUpdate::Failed
    }
}

/// Decides a job's record after a run: completed when it succeeded; else tried
/// again after the backoff while it has tries left (`attempts` counts this one),
/// else failed for good.
pub fn after_run(succeeded: bool, attempts: i32, max_attempts: i32) -> (r: JobUpdate)
    requires
        !succeeded && attempts < max_attempts ==> 1 <= attempts <= 58,
    ensures
        r == job_update(succeeded, attempts, max_attempts),
        r matches JobUpdate::RetryAfter(d) ==> d == backoff_secs(attempts as int),
{
    if succeeded {
        return JobUpdate::Completed;
    }
    if attempts < max_attempts {
        let mut d: i64 = 60;
        let mut k: i32 = 1;
        proof {
            vstd::arithmetic::power2::lemma2_to64();
        }
        while k < attempts
            invariant
                1 <= k <= attempts <= 58,
                d == backoff_secs(k as int),
            decreases attempts - k,
        {
            proof {
                lemma_pow2_unfold(k as nat);
                lemma_backoff_bound(k + 1);
            }
            d = d * 2;
            k = k + 1;
        }
        proof {
            lemma_backoff_bound(attempts as int);
        }
        return JobUpdate::RetryAfter(d);
    }
    JobUpdate::Failed
}

proof fn lemma_backoff_bound(attempt: int)
    requires
        1 <= attempt <= 58,
    ensures
        0 < backoff_secs(attempt) <= 60 * 0x200000000000000,
{
    let e = (attempt - 1) as nat;
    vstd::arithmetic::power2::lemma2_to64();
    vstd::arithmetic::power2::lemma_pow2_adds(32, 25);
    if e < 57 {
        vstd::arithmetic::power2::lemma_pow2_strictly_increases(e, 57);
    }
    if e > 0 {
        vstd::arithmetic::power2::lemma_pow2_strictly_increases(0, e);
    }
}

/// Each further try waits twice as long as the one before.
pub proof fn law_backoff_doubles(attempt: int)
    requires
        attempt >= 1,
    ensures
        backoff_secs(attempt + 1) == 2 * backoff_secs(attempt),
{
    lemma_pow2_unfold(attempt as nat);
}

/// A job that keeps failing is retried while it has tries left, and given up
/// once it has used them all.
pub proof fn law_failures_end(attempts: i32, max_attempts: i32)
    ensures
        attempts >= max_attempts ==> job_update(false, attempts, max_attempts) == JobUpdate::Failed,
        attempts < max_attempts ==> job_update(false, attempts, max_attempts) is RetryAfter,
{
}

} // verus!
