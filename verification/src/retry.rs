//! Bounded re-execution of a fallible operation.
//!
//! A retry policy gives the number of attempts and the flat delay between
//! them.  Transient failures are retried while attempts remain, a terminal
//! failure stops immediately, and exhausting the attempts hands back the
//! last error together with the number of invocations made.
//!
//! Running the operation is the caller's business; the library decides.
//! [`run_retry`] executes a whole retry episode against a script of
//! prescribed outcomes, one per invocation.

use vstd::prelude::*;

verus! {

/// How often, and with what pause, an operation may be re-executed.
#[derive(Clone, Copy, PartialEq, Eq, Structural, Debug)]
pub struct RetryPolicy {
    /// Maximum number of invocations, at least one.
    pub attempts: u32,
    /// Flat pause between two invocations, in milliseconds.
    pub delay_ms: u64,
}

/// The default policy of the engine: three attempts, one second apart.
pub fn default_retry_policy() -> (p: RetryPolicy)
    ensures
        p.attempts == 3,
        p.delay_ms == 1000,
{
    RetryPolicy { attempts: 3, delay_ms: 1000 }
}

/// What one invocation of the wrapped operation came to.
#[derive(Clone, Copy, PartialEq, Eq, Debug)]
pub enum AttemptOutcome<T, E> {
    /// The operation succeeded with this value.
    Success(T),
    /// The operation failed in a way worth retrying.
    Transient(E),
    /// The operation failed in a way no retry can mend.
    Terminal(E),
}

/// What a whole retry episode came to.
#[derive(Clone, Copy, PartialEq, Eq, Debug)]
pub enum RetryResult<T, E> {
    /// Some invocation succeeded.
    Done(T),
    /// An invocation failed terminally; no further attempt was made.
    Stopped(E),
    /// Every allowed invocation failed transiently; the last error.
    Exhausted(E),
}

/// After a failed invocation: try again after the pause, or give up.
#[derive(Clone, Copy, PartialEq, Eq, Structural, Debug)]
pub enum RetryDecision {
    RetryAfterMillis(u64),
    GiveUp,
}

/// The decision after one failure: retry exactly when the failure was
/// transient and invocations remain within the policy.
pub fn retry_decision(attempts_used: u32, policy: RetryPolicy, transient: bool) -> (d:
    RetryDecision)
    ensures
        d == (if transient && attempts_used < policy.attempts {
            RetryDecision::RetryAfterMillis(policy.delay_ms)
        } else {
            RetryDecision::GiveUp
        }),
{
    if transient && attempts_used < policy.attempts {
        RetryDecision::RetryAfterMillis(policy.delay_ms)
    } else {
        RetryDecision::GiveUp
    }
}

/// Result and invocation count of a retry episode whose i-th invocation
/// comes to `script[i]`, with `max_attempts` invocations allowed.
pub open spec fn retry_spec<T, E>(script: Seq<AttemptOutcome<T, E>>, max_attempts: int) -> (
    RetryResult<T, E>,
    int,
)
    recommends
        max_attempts >= 1,
        script.len() >= max_attempts,
    decreases max_attempts,
{
    match script[0] {
        AttemptOutcome::Success(v) => (RetryResult::Done(v), 1),
        AttemptOutcome::Terminal(e) => (RetryResult::Stopped(e), 1),
        AttemptOutcome::Transient(e) => if max_attempts <= 1 {
            (RetryResult::Exhausted(e), 1)
        } else {
            let rest = retry_spec(script.skip(1), max_attempts - 1);
            (rest.0, rest.1 + 1)
        },
    }
}

/// Run a retry episode against prescribed outcomes.  Returns the result,
/// the number of invocations made, and the total time slept between them.
pub fn run_retry<T: Copy, E: Copy>(policy: RetryPolicy, script: &Vec<AttemptOutcome<T, E>>) -> (r: (
    RetryResult<T, E>,
    u32,
    u64,
))
    requires
        policy.attempts >= 1,
        script@.len() >= policy.attempts,
        (policy.attempts - 1) * policy.delay_ms <= u64::MAX,
    ensures
        r.0 == retry_spec(script@, policy.attempts as int).0,
        r.1 == retry_spec(script@, policy.attempts as int).1,
        1 <= r.1 <= policy.attempts,
        r.2 == (r.1 - 1) * policy.delay_ms,
{
    let ghost full = script@;
    let mut used: u32 = 0;
    let mut slept: u64 = 0;
    proof {
        assert(full.skip(0) =~= full);
    }
    loop
        invariant
            used < policy.attempts,
            script@ == full,
            full.len() >= policy.attempts,
            (policy.attempts - 1) * policy.delay_ms <= u64::MAX,
            slept == used * policy.delay_ms,
            retry_spec(full, policy.attempts as int).0 == retry_spec(
                full.skip(used as int),
                policy.attempts - used as int,
            ).0,
            retry_spec(full, policy.attempts as int).1 == retry_spec(
                full.skip(used as int),
                policy.attempts - used as int,
            ).1 + used,
        decreases policy.attempts - used,
    {
        let ghost rest = full.skip(used as int);
        proof {
            assert(rest[0] == full[used as int]);
        }
        let outcome = script[used as usize];
        match outcome {
            AttemptOutcome::Success(v) => {
                return (RetryResult::Done(v), used + 1, slept);
            },
            AttemptOutcome::Terminal(e) => {
                return (RetryResult::Stopped(e), used + 1, slept);
            },
            AttemptOutcome::Transient(e) => {
                if used + 1 >= policy.attempts {
                    return (RetryResult::Exhausted(e), used + 1, slept);
                }
                proof {
                    assert(rest.skip(1) =~= full.skip(used as int + 1));
                    lemma_mul_bound(used as int, policy.attempts - 1, policy.delay_ms as int);
                    assert((used + 1) * policy.delay_ms == used * policy.delay_ms
                        + policy.delay_ms) by (nonlinear_arith);
                }
                slept = slept + policy.delay_ms;
                used = used + 1;
            },
        }
    }
}

/// `a <= b - 1` gives `(a + 1) * d <= b * d` for nonnegative `d`.
pub proof fn lemma_mul_bound(a: int, b: int, d: int)
    requires
        0 <= a < b,
        0 <= d,
    ensures
        a * d + d <= b * d,
{
    assert(a * d + d <= b * d) by (nonlinear_arith)
        requires
            0 <= a < b,
            0 <= d,
    ;
}

/// Persistence law: when the first failures are transient and attempts
/// remain for the first success, the episode succeeds with exactly that
/// many invocations.
pub proof fn lemma_retry_reaches_first_success<T, E>(
    script: Seq<AttemptOutcome<T, E>>,
    max_attempts: int,
    k: int,
)
    requires
        0 <= k < max_attempts,
        script.len() >= max_attempts,
        forall|i: int| 0 <= i < k ==> (#[trigger] script[i]) is Transient,
        script[k] is Success,
    ensures
        retry_spec(script, max_attempts) == (
            RetryResult::<T, E>::Done(script[k]->Success_0),
            k + 1,
        ),
    decreases k,
{
    if k > 0 {
        lemma_retry_reaches_first_success(script.skip(1), max_attempts - 1, k - 1);
        assert(script.skip(1)[k - 1] == script[k]);
    }
}

} // verus!
