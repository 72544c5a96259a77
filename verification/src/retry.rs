//! The compile stage's retry policy: attempt up to `max_retries` times,
//! stop at the first success, and otherwise hand back the final attempt's
//! outcome together with the number of attempts made before it.
//!
//! The caller performs one compile per attempt and feeds each outcome to
//! [`retry_step`]; the spec functions here say what the whole loop returns
//! for any sequence of outcomes.

use vstd::prelude::*;

verus! {

/// What the retry policy decides after seeing one attempt's outcome.
#[derive(Debug)]
pub enum RetryDecision<E> {
    /// Stop: report this attempt count and this result.
    Done { attempts: usize, result: Result<(), E> },
    /// Attempt once more; `next_attempt` is the index of the coming
    /// attempt.
    Retry { next_attempt: usize },
}

/// What the retry loop returns when started at attempt `i`: the index of
/// the first success before the final attempt, or the final attempt's
/// outcome with the full count.
pub open spec fn spec_retry_from<T, E>(
    outcomes: Seq<Result<T, E>>,
    max_retries: int,
    i: int,
) -> (int, Result<T, E>)
    recommends
        0 <= i <= max_retries,
        outcomes.len() == max_retries + 1,
    decreases max_retries - i,
{
    if i < max_retries {
        if outcomes[i] is Ok {
            (i, outcomes[i])
        } else {
            spec_retry_from(outcomes, max_retries, i + 1)
        }
    } else {
        (max_retries, outcomes[max_retries])
    }
}

/// What the whole retry loop returns for this sequence of attempt
/// outcomes; entry `j` of the sequence is what attempt `j` would produce.
pub open spec fn spec_run_until_success<T, E>(
    outcomes: Seq<Result<T, E>>,
    max_retries: int,
) -> (int, Result<T, E>)
    recommends
        max_retries >= 0,
        outcomes.len() == max_retries + 1,
{
    spec_retry_from(outcomes, max_retries, 0)
}

/// One decision of the retry policy.  Before the final attempt a success
/// stops with the current attempt index and a failure asks for one more
/// attempt; the final attempt's outcome is reported as it came, with the
/// full retry count.
pub fn retry_step<E>(attempt: usize, max_retries: usize, outcome: Result<(), E>) -> (r:
    RetryDecision<E>)
    requires
        attempt <= max_retries,
    ensures
        attempt < max_retries && outcome is Ok ==> r == (RetryDecision::Done {
            attempts: attempt,
            result: outcome,
        }),
        attempt < max_retries && outcome is Err ==> r == (RetryDecision::Retry::<E> {
            next_attempt: (attempt + 1) as usize,
        }),
        attempt == max_retries ==> r == (RetryDecision::Done {
            attempts: max_retries,
            result: outcome,
        }),
{
    if attempt < max_retries {
        if outcome.is_ok() {
            RetryDecision::Done { attempts: attempt, result: outcome }
        } else {
            RetryDecision::Retry { next_attempt: attempt + 1 }
        }
    } else {
        RetryDecision::Done { attempts: max_retries, result: outcome }
    }
}

/// Skipping a stretch of failing attempts does not change what the loop
/// returns.
proof fn lemma_retry_skips_failures<T, E>(
    outcomes: Seq<Result<T, E>>,
    max_retries: int,
    i: int,
    k: int,
)
    requires
        0 <= i <= k <= max_retries,
        outcomes.len() == max_retries + 1,
        forall|j: int| i <= j < k ==> (#[trigger] outcomes[j]) is Err,
    ensures
        spec_retry_from(outcomes, max_retries, i) == spec_retry_from(outcomes, max_retries, k),
    decreases k - i,
{
    if i < k {
        lemma_retry_skips_failures(outcomes, max_retries, i + 1, k);
    }
}

/// Law: with a stub that fails `k` times and then succeeds, where `k` is
/// below the retry bound, the stage reports success with attempt index
/// `k`.
pub proof fn lemma_retry_success_after_failures<T, E>(
    outcomes: Seq<Result<T, E>>,
    max_retries: int,
    k: int,
)
    requires
        0 <= k < max_retries,
        outcomes.len() == max_retries + 1,
        forall|j: int| 0 <= j < k ==> (#[trigger] outcomes[j]) is Err,
        outcomes[k] is Ok,
    ensures
        spec_run_until_success(outcomes, max_retries) == (k, outcomes[k]),
{
    lemma_retry_skips_failures(outcomes, max_retries, 0, k);
}

/// Law: with a stub that always fails, the stage reports exactly
/// `max_retries` attempts and the last failure.
pub proof fn lemma_retry_all_failures<T, E>(outcomes: Seq<Result<T, E>>, max_retries: int)
    requires
        max_retries >= 0,
        outcomes.len() == max_retries + 1,
        forall|j: int| 0 <= j <= max_retries ==> (#[trigger] outcomes[j]) is Err,
    ensures
        spec_run_until_success(outcomes, max_retries) == (
            max_retries,
            outcomes[max_retries],
        ),
        spec_run_until_success(outcomes, max_retries).1 is Err,
{
    lemma_retry_skips_failures(outcomes, max_retries, 0, max_retries);
}

} // verus!
