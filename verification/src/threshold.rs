//! Threshold calculation: turns a validator count into the minimum number
//! of validators required for quorum, either by the default "safe
//! majority" rule (the least integer strictly greater than two thirds of
//! the count, matching the `n = 3f + 1` Byzantine-fault-tolerance target)
//! or by an explicitly supplied relative fraction, rounded up.

use vstd::arithmetic::div_mod::{
    lemma_div_is_ordered, lemma_div_multiples_vanish_fancy, lemma_div_pos_is_pos,
    lemma_fundamental_div_mod, lemma_mod_bound,
};
use vstd::arithmetic::mul::{lemma_mul_inequality, lemma_mul_upper_bound};
use vstd::prelude::*;

verus! {

/// Which rounding policy the threshold calculation follows.
///
/// `Relative` carries the fraction as an exact rational
/// `numerator / denominator`; a fraction in `(0, 1]` is one with
/// `1 <= numerator <= denominator`. Unanimity, for example, is
/// `Relative { numerator: 1, denominator: 1 }`.
#[derive(Clone, Copy, Debug, PartialEq, Eq, Structural)]
pub enum ThresholdPolicy {
    /// More than two thirds of the validators are required.
    Default67Percent,
    /// `ceil(numerator / denominator * validator_count)` validators are
    /// required, clamped to at least 1.
    Relative { numerator: usize, denominator: usize },
}

impl ThresholdPolicy {
    /// The fraction of a relative policy lies in `(0, 1]`.
    pub open spec fn valid(self) -> bool {
        match self {
            ThresholdPolicy::Default67Percent => true,
            ThresholdPolicy::Relative { numerator, denominator } => 1 <= numerator
                <= denominator,
        }
    }
}

/// The threshold for `n` validators under `policy`:
/// `2n/3 + 1` (the least integer strictly above two thirds of `n`) for the
/// default policy, and the ceiling of `numerator * n / denominator`,
/// clamped to at least 1, for a relative one.
pub open spec fn threshold_spec(n: int, policy: ThresholdPolicy) -> int {
    match policy {
        ThresholdPolicy::Default67Percent => 2 * n / 3 + 1,
        ThresholdPolicy::Relative { numerator, denominator } => if n == 0 {
            1
        } else {
            (numerator as int * n + denominator as int - 1) / (denominator as int)
        },
    }
}

/// Every threshold lies between 1 and the validator count.
pub proof fn lemma_threshold_bounds(n: int, policy: ThresholdPolicy)
    requires
        policy.valid(),
        1 <= n,
    ensures
        1 <= threshold_spec(n, policy) <= n,
{
    match policy {
        ThresholdPolicy::Default67Percent => {
            lemma_div_pos_is_pos(2 * n, 3);
            assert(2 * n <= 3 * n - 1);
            lemma_div_is_ordered(2 * n, 3 * n - 1, 3);
            lemma_div_multiples_vanish_fancy(n - 1, 2, 3);
            assert(3 * (n - 1) + 2 == 3 * n - 1);
        },
        ThresholdPolicy::Relative { numerator, denominator } => {
            let p = numerator as int;
            let q = denominator as int;
            let s = p * n + q - 1;
            lemma_mul_inequality(1, p, n);
            assert(s >= q);
            lemma_div_is_ordered(q, s, q);
            lemma_div_multiples_vanish_fancy(1, 0, q);
            assert(q * 1 + 0 == q);
            lemma_mul_inequality(p, q, n);
            assert(s <= q * n + q - 1);
            lemma_div_is_ordered(s, q * n + q - 1, q);
            lemma_div_multiples_vanish_fancy(n, q - 1, q);
            assert(q * n + (q - 1) == q * n + q - 1);
        },
    }
}

/// The default policy implements "more than two thirds": the threshold is
/// the least integer strictly greater than `2/3 * n`.
pub proof fn lemma_default_threshold_exceeds_two_thirds(n: int)
    requires
        0 <= n,
    ensures
        3 * threshold_spec(n, ThresholdPolicy::Default67Percent) > 2 * n,
        3 * (threshold_spec(n, ThresholdPolicy::Default67Percent) - 1) <= 2 * n,
{
    lemma_fundamental_div_mod(2 * n, 3);
    lemma_mod_bound(2 * n, 3);
}

/// The relative policy rounds up: for `n >= 1` validators the threshold is
/// the least integer at least `numerator / denominator * n`.
pub proof fn lemma_relative_threshold_is_ceiling(n: int, numerator: usize, denominator: usize)
    requires
        1 <= numerator <= denominator,
        1 <= n,
    ensures
        denominator as int * threshold_spec(
            n,
            ThresholdPolicy::Relative { numerator, denominator },
        ) >= numerator as int * n,
        denominator as int * (threshold_spec(
            n,
            ThresholdPolicy::Relative { numerator, denominator },
        ) - 1) < numerator as int * n,
{
    let p = numerator as int;
    let q = denominator as int;
    let s = p * n + q - 1;
    let t = s / q;
    lemma_fundamental_div_mod(s, q);
    lemma_mod_bound(s, q);
    assert(q * (t - 1) == q * t - q) by (nonlinear_arith);
}

/// Computes `threshold_spec` for a validator count.
///
/// The intermediate products are taken in 128-bit arithmetic, so no input
/// is rejected for overflow's sake; the result itself never exceeds
/// `max(validator_count, 1)`.
pub fn calculate_threshold(validator_count: usize, policy: &ThresholdPolicy) -> (t: usize)
    requires
        policy.valid(),
    ensures
        t == threshold_spec(validator_count as int, *policy),
{
    match policy {
        ThresholdPolicy::Default67Percent => {
            let n128 = validator_count as u128;
            let t128 = 2 * n128 / 3 + 1;
            proof {
                let n = validator_count as int;
                if n >= 1 {
                    lemma_div_is_ordered(2 * n, 3 * n - 1, 3);
                    lemma_div_multiples_vanish_fancy(n - 1, 2, 3);
                    assert(3 * (n - 1) + 2 == 3 * n - 1);
                }
            }
            t128 as usize
        },
        ThresholdPolicy::Relative { numerator, denominator } => {
            if validator_count == 0 {
                1
            } else {
                let p128 = *numerator as u128;
                let q128 = *denominator as u128;
                let n128 = validator_count as u128;
                proof {
                    lemma_mul_upper_bound(
                        *numerator as int,
                        0xffff_ffff_ffff_ffff,
                        validator_count as int,
                        0xffff_ffff_ffff_ffff,
                    );
                }
                let s128 = p128 * n128 + q128 - 1;
                let t128 = s128 / q128;
                proof {
                    let p = *numerator as int;
                    let q = *denominator as int;
                    let n = validator_count as int;
                    let s = p * n + q - 1;
                    lemma_mul_inequality(p, q, n);
                    assert(s <= q * n + q - 1);
                    lemma_div_is_ordered(s, q * n + q - 1, q);
                    lemma_div_multiples_vanish_fancy(n, q - 1, q);
                    assert(q * n + (q - 1) == q * n + q - 1);
                }
                t128 as usize
            }
        },
    }
}

} // verus!
