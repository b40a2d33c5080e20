//! The retry/backoff executor's decision logic.
//!
//! A fallible operation is attempted, and on failure retried only when a
//! caller-supplied predicate classifies the failure as transient, waiting
//! an exponentially growing delay between attempts, up to a retry ceiling.
//! The waiting and the remote call are I/O and live with the caller; what
//! is here is every decision the executor takes: whether to retry, how long
//! to wait, and — run over a trace of attempt outcomes — which outcome is
//! surfaced and how many attempts were made.

use vstd::prelude::*;

use vstd::arithmetic::power2::lemma_pow2_unfold;
use vstd::arithmetic::power2::pow2;

verus! {

/// Whether a failure is transient and safe to retry under backoff.
pub trait Retryable {
    /// What the retry predicate answers for this failure.
    spec fn retryable_spec(&self) -> bool;

    /// The executable retry predicate.
    fn is_retryable(&self) -> (b: bool)
        ensures
            b == self.retryable_spec(),
    ;
}

/// A reusable, stateless retry policy: base delay, exponential doubling,
/// optional uniform jitter, and a ceiling on the number of retries.
pub struct RetryPolicy {
    /// Delay before the first retry, in milliseconds.
    pub base_delay_ms: u64,
    /// Whether each delay is scaled by a uniform random factor in [0, 1].
    pub jitter: bool,
    /// How many retries are allowed after the first attempt.
    pub max_retries: u32,
}

impl RetryPolicy {
    /// The fixed policy of this tool: 100 ms base delay, jitter on,
    /// at most 15 retries.
    pub fn standard() -> (p: RetryPolicy)
        ensures
            p.base_delay_ms == 100,
            p.jitter,
            p.max_retries == 15,
    {
        RetryPolicy { base_delay_ms: 100, jitter: true, max_retries: 15 }
    }

    /// The un-jittered delay before retry number `attempts_made + 1`:
    /// `base_delay_ms * 2^attempts_made`, saturating at `u64::MAX`.
    pub open spec fn spec_backoff_delay_ms(self, attempts_made: u64) -> int {
        if self.base_delay_ms * pow2(attempts_made as nat) <= u64::MAX {
            self.base_delay_ms * pow2(attempts_made as nat)
        } else {
            u64::MAX as int
        }
    }

    /// Computes the backoff delay after `attempts_made` failed attempts.
    /// A random jitter factor, when enabled, is applied by the caller that
    /// performs the wait.
    pub fn backoff_delay_ms(&self, attempts_made: u64) -> (d: u64)
        ensures
            d == self.spec_backoff_delay_ms(attempts_made),
    {
        let mut d: u64 = self.base_delay_ms;
        let mut i: u64 = 0;
        proof {
            assert(pow2(0) == 1) by {
                vstd::arithmetic::power2::lemma2_to64();
            }
        }
        while i < attempts_made
            invariant
                i <= attempts_made,
                self.base_delay_ms * pow2(i as nat) <= u64::MAX ==> d == self.base_delay_ms * pow2(
                    i as nat,
                ),
                self.base_delay_ms * pow2(i as nat) > u64::MAX ==> d == u64::MAX,
            decreases attempts_made - i,
        {
            proof {
                lemma_pow2_unfold((i + 1) as nat);
                assert(pow2((i + 1) as nat) == 2 * pow2(i as nat));
                assert(self.base_delay_ms * pow2((i + 1) as nat) == 2 * (self.base_delay_ms * pow2(
                    i as nat,
                ))) by (nonlinear_arith)
                    requires
                        pow2((i + 1) as nat) == 2 * pow2(i as nat),
                ;
            }
            if d > u64::MAX / 2 {
                d = u64::MAX;
            } else {
                d = d * 2;
            }
            i = i + 1;
        }
        d
    }

    /// Whether another attempt is made after a failure: only when the retry
    /// predicate accepted the failure and the ceiling is not yet reached.
    pub fn should_retry(&self, attempts_made: u64, retryable: bool) -> (b: bool)
        ensures
            b == (retryable && attempts_made < self.max_retries),
    {
        retryable && attempts_made < self.max_retries as u64
    }
}

/// Scales a backoff delay by a jitter factor, given in thousandths as the
/// caller drew it: the scaled delay, rounded down.
pub fn apply_jitter(delay_ms: u64, factor_thousandths: u64) -> (r: u64)
    requires
        factor_thousandths <= 1000,
    ensures
        r == delay_ms * factor_thousandths / 1000,
{
    proof {
        assert(delay_ms * factor_thousandths <= u64::MAX * 1000) by (nonlinear_arith)
            requires
                factor_thousandths <= 1000,
                delay_ms <= u64::MAX,
        ;
        assert(delay_ms * factor_thousandths <= delay_ms * 1000) by (nonlinear_arith)
            requires
                factor_thousandths <= 1000,
        ;
    }
    let wide = (delay_ms as u128) * (factor_thousandths as u128);
    (wide / 1000) as u64
}

/// How many attempts the executor makes, given the outcomes the operation
/// would produce on successive attempts and a budget of retries: attempts
/// stop at the first success, at the first failure the predicate refuses,
/// or when the budget is spent.
pub open spec fn spec_attempts<T, E: Retryable>(
    outcomes: Seq<Result<T, E>>,
    budget: nat,
) -> nat
    decreases budget,
{
    if outcomes.len() == 0 {
        0
    } else if outcomes.first() is Ok {
        1
    } else if !outcomes.first()->Err_0.retryable_spec() {
        1
    } else if budget == 0 {
        1
    } else {
        1 + spec_attempts(outcomes.drop_first(), (budget - 1) as nat)
    }
}

/// The executor retries only on a retryable failure: when the first outcome
/// is a failure that the predicate refuses, exactly one attempt is made,
/// whatever retry budget is left.
pub proof fn lemma_one_attempt_when_not_retryable<T, E: Retryable>(
    outcomes: Seq<Result<T, E>>,
    budget: nat,
)
    requires
        outcomes.len() > 0,
        outcomes.first() is Err,
        !outcomes.first()->Err_0.retryable_spec(),
    ensures
        spec_attempts(outcomes, budget) == 1,
{
}

/// With a budget of R retries, the executor makes at least one and at most
/// R + 1 attempts, whatever the outcomes.
pub proof fn lemma_attempts_bounded<T, E: Retryable>(
    outcomes: Seq<Result<T, E>>,
    budget: nat,
)
    requires
        outcomes.len() > 0,
    ensures
        1 <= spec_attempts(outcomes, budget) <= budget + 1,
    decreases budget,
{
    if outcomes.first() is Err && outcomes.first()->Err_0.retryable_spec() && budget > 0 {
        if outcomes.drop_first().len() > 0 {
            lemma_attempts_bounded::<T, E>(outcomes.drop_first(), (budget - 1) as nat);
        } else {
            assert(spec_attempts(outcomes.drop_first(), (budget - 1) as nat) == 0);
        }
    }
}

/// Runs the retry executor over a trace: `outcomes[i]` is what the operation
/// would return on attempt `i`. Returns the surfaced outcome and the number
/// of attempts made. The trace must be long enough to cover the worst case,
/// one outcome per allowed attempt.
pub fn run_retry<T, E: Retryable>(policy: &RetryPolicy, outcomes: Vec<Result<T, E>>) -> (r: (
    Result<T, E>,
    u64,
))
    requires
        outcomes@.len() > policy.max_retries,
    ensures
        r.1 == spec_attempts(outcomes@, policy.max_retries as nat),
        1 <= r.1 <= policy.max_retries as int + 1,
        r.0 == outcomes@[r.1 - 1],
        forall|i: int|
            0 <= i < r.1 - 1 ==> (#[trigger] outcomes@[i]) is Err
                && outcomes@[i]->Err_0.retryable_spec(),
{
    let ghost full = outcomes@;
    let mut rest = outcomes;
    let mut made: u64 = 0;
    #[verifier::loop_isolation(false)]
    loop
        invariant
            made <= policy.max_retries,
            rest@ == full.skip(made as int),
            full.len() > policy.max_retries,
            forall|i: int|
                0 <= i < made ==> (#[trigger] full[i]) is Err && full[i]->Err_0.retryable_spec(),
            spec_attempts(full, policy.max_retries as nat) == made + spec_attempts(
                rest@,
                (policy.max_retries - made) as nat,
            ),
        decreases policy.max_retries - made,
    {
        let ghost rest_entry = rest@;
        let ghost budget = (policy.max_retries - made) as nat;
        proof {
            assert(rest@.len() > 0);
        }
        let cur = rest.remove(0);
        proof {
            assert(rest_entry.first() == full[made as int]);
            assert(cur == full[made as int]);
            assert(rest@ =~= rest_entry.drop_first());
            assert(rest@ =~= full.skip(made as int + 1));
        }
        let retry = match &cur {
            Result::Ok(_) => false,
            Result::Err(e) => e.is_retryable(),
        };
        if retry && made < policy.max_retries as u64 {
            proof {
                assert(spec_attempts(rest_entry, budget) == 1 + spec_attempts(
                    rest_entry.drop_first(),
                    (budget - 1) as nat,
                ));
            }
            made = made + 1;
        } else {
            proof {
                assert(spec_attempts(rest_entry, budget) == 1);
            }
            return (cur, made + 1);
        }
    }
}

} // verus!
