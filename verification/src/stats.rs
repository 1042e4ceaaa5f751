//! Statistical Point Synthesizer.
//!
//! The report carries only two summary statistics per sub-benchmark —
//! a point estimate and its standard error — so the original sample
//! points are reconstructed approximately. Values are fixed-point:
//! an `i64` holds the measure in thousandths of the configured unit.
//!
//! Two policies exist. The three-point policy is the reference
//! behavior: it emits `[estimate - error, estimate, estimate + error]`
//! in that order. The n-point policy reproduces, for parity with an
//! older ingestion variant, a degenerate spread: `2 * half_count`
//! points, each equal to `estimate + error / half_count`. It does not
//! actually vary per point; it is kept deliberately, not silently
//! mended.

use vstd::prelude::*;

use crate::errors::ItemError;

verus! {

/// How synthetic points are derived from the two summary statistics.
#[derive(Clone, Copy, PartialEq, Eq, Structural, Debug)]
pub enum SynthesisPolicy {
    /// `[estimate - error, estimate, estimate + error]`.
    ThreePoint,
    /// `2 * half_count` copies of `estimate + error / half_count`.
    NPoint(u64),
}

/// A policy is usable when its point count is at least one.
pub open spec fn policy_ok(policy: SynthesisPolicy) -> bool {
    match policy {
        SynthesisPolicy::ThreePoint => true,
        SynthesisPolicy::NPoint(half_count) => half_count >= 1,
    }
}

/// The synthetic sample set a policy yields, over unbounded integers.
pub open spec fn spec_points(policy: SynthesisPolicy, estimate: int, std_error: int) -> Seq<int> {
    match policy {
        SynthesisPolicy::ThreePoint => seq![
            estimate - std_error,
            estimate,
            estimate + std_error,
        ],
        SynthesisPolicy::NPoint(half_count) => Seq::new(
            (2 * half_count) as nat,
            |k: int| estimate + std_error / (half_count as int),
        ),
    }
}

/// No overflow can occur while the points of `policy` are computed
/// from these statistics.
pub open spec fn points_fit(policy: SynthesisPolicy, estimate: int, std_error: int) -> bool {
    std_error >= 0 ==> i64::MIN <= estimate - std_error && estimate + std_error <= i64::MAX
}

/// Reconstructs an approximate sample set around the estimate.
///
/// A zero standard error yields a degenerate constant sequence; a
/// negative one is rejected with `InvalidStatistic`, as is a zero
/// point count. Output order is insertion order.
pub fn synthesize(policy: SynthesisPolicy, estimate: i64, std_error: i64) -> (r: Result<
    Vec<i64>,
    ItemError,
>)
    requires
        points_fit(policy, estimate as int, std_error as int),
    ensures
        r is Ok <==> std_error >= 0 && policy_ok(policy),
        r matches Err(e) ==> e == ItemError::InvalidStatistic,
        r matches Ok(points) ==> points@.map_values(|v: i64| v as int) == spec_points(
            policy,
            estimate as int,
            std_error as int,
        ),
{
    if std_error < 0 {
        return Err(ItemError::InvalidStatistic);
    }
    match policy {
        SynthesisPolicy::ThreePoint => {
            let mut points: Vec<i64> = Vec::new();
            points.push(estimate - std_error);
            points.push(estimate);
            points.push(estimate + std_error);
            proof {
                assert(points@.map_values(|v: i64| v as int) =~= spec_points(
                    policy,
                    estimate as int,
                    std_error as int,
                ));
            }
            Ok(points)
        },
        SynthesisPolicy::NPoint(half_count) => {
            if half_count == 0 {
                return Err(ItemError::InvalidStatistic);
            }
            let step: u64 = (std_error as u64) / half_count;
            proof {
                assert(std_error as u64 as int == std_error as int);
                assert(step as int == std_error as int / half_count as int);
                assert(step as int <= std_error as int) by {
                    vstd::arithmetic::div_mod::lemma_div_is_ordered_by_denominator(
                        std_error as int,
                        1,
                        half_count as int,
                    );
                }
            }
            let value: i64 = estimate + (step as i64);
            let mut points: Vec<i64> = Vec::new();
            let mut i: u64 = 0;
            while i < half_count
                invariant
                    i <= half_count,
                    points@.len() == 2 * i,
                    forall|k: int| 0 <= k < points@.len() ==> points@[k] == value,
                decreases half_count - i,
            {
                points.push(value);
                points.push(value);
                i = i + 1;
            }
            proof {
                assert(points@.map_values(|v: i64| v as int) =~= spec_points(
                    policy,
                    estimate as int,
                    std_error as int,
                ));
            }
            Ok(points)
        },
    }
}

} // verus!
