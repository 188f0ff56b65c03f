//! Exponential backoff with jitter for retrying hub operations.
use vstd::prelude::*;
use vstd::arithmetic::mul::lemma_mul_inequality;
use crate::hub_client::HubClient;

verus! {

/// Two to the power `n`.
pub open spec fn pow2(n: nat) -> nat
    decreases n,
{
    if n == 0 {
        1
    } else {
        2 * pow2((n - 1) as nat)
    }
}

/// The delay before jitter: the minimum delay doubled once per attempt, capped at the maximum.
pub open spec fn backoff_base(attempt: nat, min_delay: nat, max_delay: nat) -> nat {
    let exponential = min_delay * pow2(attempt);
    if exponential > max_delay {
        max_delay
    } else {
        exponential
    }
}

/// The delay to wait before the next attempt: the backoff base, plus the jitter where that keeps
/// it below the maximum, less the time the failed operation already took, and never negative.
pub open spec fn retry_delay(operation: nat, attempt: nat, min_delay: nat, max_delay: nat, jitter: nat) -> nat {
    let base = backoff_base(attempt, min_delay, max_delay);
    let jittered = if max_delay - base > jitter {
        base + jitter
    } else {
        base
    };
    if jittered > operation {
        (jittered - operation) as nat
    } else {
        0
    }
}

pub proof fn lemma_pow2_monotonic(a: nat, b: nat)
    requires
        a <= b,
    ensures
        1 <= pow2(a) <= pow2(b),
    decreases b,
{
    if b > 0 && a < b {
        lemma_pow2_monotonic(a, (b - 1) as nat);
    } else if b > 0 {
        lemma_pow2_monotonic((a - 1) as nat, (b - 1) as nat);
    }
}

pub proof fn lemma_backoff_base_monotonic(a: nat, b: nat, min_delay: nat, max_delay: nat)
    requires
        a <= b,
    ensures
        backoff_base(a, min_delay, max_delay) <= backoff_base(b, min_delay, max_delay),
{
    lemma_pow2_monotonic(a, b);
    lemma_mul_inequality(pow2(a) as int, pow2(b) as int, min_delay as int);
    assert(min_delay * pow2(a) <= min_delay * pow2(b)) by (nonlinear_arith)
        requires
            pow2(a) * min_delay <= pow2(b) * min_delay,
    ;
}

/// Without jitter, the retry delay never decreases as the attempt count grows.
pub proof fn lemma_retry_delay_monotonic(
    operation: nat,
    a: nat,
    b: nat,
    min_delay: nat,
    max_delay: nat,
)
    requires
        a <= b,
    ensures
        retry_delay(operation, a, min_delay, max_delay, 0) <= retry_delay(
            operation,
            b,
            min_delay,
            max_delay,
            0,
        ),
{
    lemma_backoff_base_monotonic(a, b, min_delay, max_delay);
}

/// The retry delay is never more than the maximum delay plus the jitter.
pub proof fn lemma_retry_delay_bounded(
    operation: nat,
    attempt: nat,
    min_delay: nat,
    max_delay: nat,
    jitter: nat,
)
    ensures
        retry_delay(operation, attempt, min_delay, max_delay, jitter) <= max_delay + jitter,
{
}

impl HubClient {
    /// How long to wait before attempt number `attempt`, when the failed operation took
    /// `operation_msec`: see `retry_delay`. All arguments are non-negative.
    pub fn calculate_retry_delay(
        operation_msec: i32,
        attempt: i16,
        min_retry_delay_msec: i32,
        max_retry_delay_msec: i32,
        jitter: i32,
    ) -> (r: i32)
        requires
            operation_msec >= 0,
            attempt >= 0,
            min_retry_delay_msec >= 0,
            max_retry_delay_msec >= 0,
            jitter >= 0,
        ensures
            r >= 0,
            r as nat == retry_delay(
                operation_msec as nat,
                attempt as nat,
                min_retry_delay_msec as nat,
                max_retry_delay_msec as nat,
                jitter as nat,
            ),
            r <= max_retry_delay_msec + jitter,
    {
        let max = max_retry_delay_msec as i64;
        let mut delay: i64 = min_retry_delay_msec as i64;
        let mut i: i16 = 0;
        assert(pow2(0) == 1);
        assert(min_retry_delay_msec as nat * 1 == min_retry_delay_msec as nat);
        while i < attempt && delay <= max
            invariant
                0 <= i <= attempt,
                0 <= max <= i32::MAX,
                delay == min_retry_delay_msec as nat * pow2(i as nat),
                i > 0 ==> delay <= 2 * max,
            decreases attempt - i,
        {
            assert(pow2((i + 1) as nat) == 2 * pow2(i as nat));
            assert(min_retry_delay_msec as nat * (2 * pow2(i as nat)) == 2 * (min_retry_delay_msec as nat
                * pow2(i as nat))) by (nonlinear_arith);
            delay = delay * 2;
            i = i + 1;
        }
        proof {
            lemma_backoff_base_monotonic(i as nat, attempt as nat, min_retry_delay_msec as nat, max as nat);
        }
        let base: i64 = if delay > max {
            max
        } else {
            delay
        };
        assert(base == backoff_base(attempt as nat, min_retry_delay_msec as nat, max as nat));
        let jittered: i64 = if max - base > jitter as i64 {
            base + jitter as i64
        } else {
            base
        };
        proof {
            lemma_retry_delay_bounded(
                operation_msec as nat,
                attempt as nat,
                min_retry_delay_msec as nat,
                max as nat,
                jitter as nat,
            );
        }
        if jittered > operation_msec as i64 {
            (jittered - operation_msec as i64) as i32
        } else {
            0
        }
    }
}

} // verus!
