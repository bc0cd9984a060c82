//! Seeding a distribution and driving it towards a target average.
use vstd::prelude::*;

use crate::distribution::{
    BUCKETS, UNITS_PER_REVIEW, UNITS_PER_STAR, adjust_distribution, calculate_totals,
    calculate_weighted, shift_down, shift_up, total, weighted, well_formed,
};

verus! {

/// Lowest target average accepted, in thousandths of a star.
pub const MIN_TARGET: u64 = 1000;

/// Highest target average accepted, in thousandths of a star.
pub const MAX_TARGET: u64 = 5000;

/// How close the average must come to the target, in thousandths of a star
/// (strictly less than this).
pub const TOLERANCE: u64 = 10;

/// Adjustment passes made before a result is returned as approximate.
pub const MAX_ITERATIONS: u64 = 1000;

/// Largest number of reviews whose mass fits in a `u64`.
pub const MAX_TOTAL_REVIEWS: u64 = 18446744073709551;

/// Why no distribution was computed.
#[derive(Debug, Clone, Copy, PartialEq, Eq, Structural)]
pub enum OptimizeError {
    /// The target average lies outside one to five stars.
    TargetOutOfRange,
    /// There are no reviews, so no average is defined.
    NoReviews,
    /// The review count is too large for the mass to be represented.
    TooManyReviews,
}

/// The average of `d` lies strictly within `TOLERANCE` of `target`
/// (both in thousandths of a star); never true of an empty distribution.
pub open spec fn within_tolerance(d: Seq<u64>, target: int) -> bool {
    let t = total(d);
    let gap = target * t - UNITS_PER_STAR * weighted(d);
    t > 0 && -(TOLERANCE * t) < gap && gap < TOLERANCE * t
}

/// The average of `d` lies strictly below `target`.
pub open spec fn below_target(d: Seq<u64>, target: int) -> bool {
    UNITS_PER_STAR * weighted(d) < target * total(d)
}

/// The realistic weighting profile for a target, in percent per bucket.
pub open spec fn profile(target: int) -> Seq<u64> {
    if target > 4500 {
        seq![5, 5, 10, 20, 60]
    } else if target > 4000 {
        seq![10, 10, 15, 25, 40]
    } else if target > 3500 {
        seq![15, 20, 25, 25, 15]
    } else if target > 3000 {
        seq![20, 25, 25, 20, 10]
    } else {
        seq![30, 25, 20, 15, 10]
    }
}

/// The starting distribution for `reviews` reviews: the profile's shares
/// with `realism`, an even split otherwise.
pub open spec fn seed(target: int, reviews: int, realism: bool) -> Seq<u64> {
    // one percent of the mass of `reviews` reviews
    let unit = (UNITS_PER_REVIEW / 100) * reviews;
    let p = profile(target);
    if realism {
        seq![
            (p[0] * unit) as u64,
            (p[1] * unit) as u64,
            (p[2] * unit) as u64,
            (p[3] * unit) as u64,
            (p[4] * unit) as u64,
        ]
    } else {
        seq![(20 * unit) as u64, (20 * unit) as u64, (20 * unit) as u64, (20 * unit) as u64, (20 * unit) as u64]
    }
}

/// One pass towards `target`.
pub open spec fn step_towards(d: Seq<u64>, target: int, step: u64) -> Seq<u64> {
    if below_target(d, target) {
        shift_up(d, step)
    } else {
        shift_down(d, step)
    }
}

/// Passes towards `target` until the average is within tolerance or no
/// passes are left; the flag tells the latter case (approximate).
pub open spec fn settle(d: Seq<u64>, target: int, step: u64, passes: nat) -> (Seq<u64>, bool)
    decreases passes,
{
    if within_tolerance(d, target) {
        (d, false)
    } else if passes == 0 {
        (d, true)
    } else {
        settle(step_towards(d, target, step), target, step, (passes - 1) as nat)
    }
}

/// What optimizing for `target` (thousandths of a star) over `reviews`
/// reviews yields.
pub open spec fn optimization_outcome(target: int, reviews: int, realism: bool) -> Result<
    (Seq<u64>, bool),
    OptimizeError,
> {
    if target < MIN_TARGET || target > MAX_TARGET {
        Err(OptimizeError::TargetOutOfRange)
    } else if reviews == 0 {
        Err(OptimizeError::NoReviews)
    } else if reviews > MAX_TOTAL_REVIEWS {
        Err(OptimizeError::TooManyReviews)
    } else {
        Ok(settle(seed(target, reviews, realism), target, reviews as u64, MAX_ITERATIONS as nat))
    }
}

/// The view of an optimizer result.
pub open spec fn outcome_view(r: Result<(Vec<u64>, bool), OptimizeError>) -> Result<
    (Seq<u64>, bool),
    OptimizeError,
> {
    match r {
        Ok((d, approximate)) => Ok((d@, approximate)),
        Err(e) => Err(e),
    }
}

/// The seed of a representable review count is well formed and holds the
/// mass of exactly that many reviews.
pub proof fn lemma_seed_total(target: int, reviews: int, realism: bool)
    requires
        0 <= reviews <= MAX_TOTAL_REVIEWS,
    ensures
        well_formed(seed(target, reviews, realism)),
        total(seed(target, reviews, realism)) == UNITS_PER_REVIEW * reviews,
        forall|i: int|
            0 <= i < BUCKETS ==> #[trigger] profile(target)[i] * ((UNITS_PER_REVIEW / 100) * reviews)
                <= UNITS_PER_REVIEW * reviews,
{
    let unit = 10 * reviews;
    let p = profile(target);
    assert(p[0] * unit + p[1] * unit + p[2] * unit + p[3] * unit + p[4] * unit
        == (p[0] + p[1] + p[2] + p[3] + p[4]) * unit) by (nonlinear_arith);
    assert(p[0] * unit <= 60 * unit && p[1] * unit <= 60 * unit && p[2] * unit <= 60 * unit
        && p[3] * unit <= 60 * unit && p[4] * unit <= 60 * unit) by (nonlinear_arith)
        requires
            p[0] <= 60 && p[1] <= 60 && p[2] <= 60 && p[3] <= 60 && p[4] <= 60,
            p[0] >= 0 && p[1] >= 0 && p[2] >= 0 && p[3] >= 0 && p[4] >= 0,
            unit >= 0;
    assert(unit == (UNITS_PER_REVIEW / 100) * reviews);
    assert(total(p) == 100);
    assert(100 * unit == UNITS_PER_REVIEW * reviews);
    assert forall|i: int| 0 <= i < BUCKETS implies #[trigger] profile(target)[i] * ((UNITS_PER_REVIEW
        / 100) * reviews) <= UNITS_PER_REVIEW * reviews by {
        assert(0 <= i <= 4);
        if i == 0 {
        } else if i == 1 {
        } else if i == 2 {
        } else if i == 3 {
        } else {
        }
    }
}

/// A successful outcome holds five buckets with the mass of all the
/// reviews, and is approximate exactly when its average is out of tolerance.
pub proof fn lemma_outcome(target: int, reviews: int, realism: bool)
    requires
        reviews >= 0,
    ensures
        optimization_outcome(target, reviews, realism) matches Ok((d, approximate)) ==> {
            &&& well_formed(d)
            &&& total(d) == UNITS_PER_REVIEW * reviews
            &&& (approximate <==> !within_tolerance(d, target))
        },
{
    if optimization_outcome(target, reviews, realism) is Ok {
        lemma_seed_total(target, reviews, realism);
        lemma_settle(seed(target, reviews, realism), target, reviews as u64, MAX_ITERATIONS as nat);
    }
}

/// A pass keeps the distribution well formed and its total unchanged.
pub proof fn lemma_step_keeps_total(d: Seq<u64>, target: int, step: u64)
    requires
        well_formed(d),
    ensures
        well_formed(step_towards(d, target, step)),
        total(step_towards(d, target, step)) == total(d),
{
}

/// Settling keeps the total, and reports approximate exactly when the
/// average it ends on is out of tolerance.
pub proof fn lemma_settle(d: Seq<u64>, target: int, step: u64, passes: nat)
    requires
        well_formed(d),
    ensures
        well_formed(settle(d, target, step, passes).0),
        total(settle(d, target, step, passes).0) == total(d),
        settle(d, target, step, passes).1 <==> !within_tolerance(settle(d, target, step, passes).0, target),
    decreases passes,
{
    if !within_tolerance(d, target) && passes > 0 {
        lemma_step_keeps_total(d, target, step);
        lemma_settle(step_towards(d, target, step), target, step, (passes - 1) as nat);
    }
}

/// Whether the average of `distribution` is within tolerance of `target`.
fn is_within_tolerance(distribution: &Vec<u64>, target: u64) -> (r: bool)
    requires
        well_formed(distribution@),
        target <= MAX_TARGET,
    ensures
        r == within_tolerance(distribution@, target as int),
{
    let t = calculate_totals(distribution.as_slice());
    let w = calculate_weighted(distribution.as_slice());
    assert((target as int) * (t as int) <= 5000 * 0xffff_ffff_ffff_ffff) by (nonlinear_arith)
        requires target <= 5000, t <= 0xffff_ffff_ffff_ffff;
    let lhs = (target as u128) * t;
    let rhs = 1000 * w;
    let gap = if lhs >= rhs { lhs - rhs } else { rhs - lhs };
    t > 0 && gap < 10 * t
}

/// Whether the average of `distribution` is below `target`.
fn is_below_target(distribution: &Vec<u64>, target: u64) -> (r: bool)
    requires
        well_formed(distribution@),
        target <= MAX_TARGET,
    ensures
        r == below_target(distribution@, target as int),
{
    let t = calculate_totals(distribution.as_slice());
    let w = calculate_weighted(distribution.as_slice());
    assert((target as int) * (t as int) <= 5000 * 0xffff_ffff_ffff_ffff) by (nonlinear_arith)
        requires target <= 5000, t <= 0xffff_ffff_ffff_ffff;
    1000 * w < (target as u128) * t
}

/// The realistic weighting profile for `target_average`, in percent per
/// bucket; the shares add up to one hundred.
pub fn weighting_profile(target_average: u64) -> (r: Vec<u64>)
    ensures
        r@ == profile(target_average as int),
        r@.len() == BUCKETS,
        total(r@) == 100,
{
    let r = if target_average > 4500 {
        vec![5, 5, 10, 20, 60]
    } else if target_average > 4000 {
        vec![10, 10, 15, 25, 40]
    } else if target_average > 3500 {
        vec![15, 20, 25, 25, 15]
    } else if target_average > 3000 {
        vec![20, 25, 25, 20, 10]
    } else {
        vec![30, 25, 20, 15, 10]
    };
    assert(r@ =~= profile(target_average as int));
    r
}

/// The starting distribution: `total_reviews` split by the weighting profile
/// of `target_average` with `try_realism`, evenly otherwise.
pub fn seed_distribution(target_average: u64, total_reviews: u64, try_realism: bool) -> (r: Vec<u64>)
    requires
        total_reviews <= MAX_TOTAL_REVIEWS,
    ensures
        r@ == seed(target_average as int, total_reviews as int, try_realism),
        well_formed(r@),
        total(r@) == UNITS_PER_REVIEW * total_reviews,
{
    proof {
        lemma_seed_total(target_average as int, total_reviews as int, try_realism);
        assert(UNITS_PER_REVIEW / 100 == 10);
    }
    let unit = (UNITS_PER_REVIEW / 100) * total_reviews;
    let r = if try_realism {
        let w = weighting_profile(target_average);
        assert(w@[0] * unit <= u64::MAX && w@[1] * unit <= u64::MAX && w@[2] * unit <= u64::MAX
            && w@[3] * unit <= u64::MAX && w@[4] * unit <= u64::MAX) by {
            assert(profile(target_average as int)[0] == w@[0]);
            assert(profile(target_average as int)[1] == w@[1]);
            assert(profile(target_average as int)[2] == w@[2]);
            assert(profile(target_average as int)[3] == w@[3]);
            assert(profile(target_average as int)[4] == w@[4]);
        }
        vec![w[0] * unit, w[1] * unit, w[2] * unit, w[3] * unit, w[4] * unit]
    } else {
        let share = 20 * unit;
        vec![share, share, share, share, share]
    };
    assert(r@ =~= seed(target_average as int, total_reviews as int, try_realism));
    r
}

/// Drives a seeded distribution of `total_reviews` reviews towards
/// `target_average` (thousandths of a star). Each pass moves
/// `total_reviews` units, a thousandth of the mass, between neighbouring
/// buckets. Returns the distribution and whether it is approximate: the
/// average is then still out of tolerance after `MAX_ITERATIONS` passes.
pub fn optimize_distribution(target_average: u64, total_reviews: u64, try_realism: bool) -> (r: Result<(Vec<u64>, bool), OptimizeError>)
    ensures
        outcome_view(r) == optimization_outcome(target_average as int, total_reviews as int, try_realism),
        r is Err <==> (target_average < MIN_TARGET || target_average > MAX_TARGET || total_reviews == 0
            || total_reviews > MAX_TOTAL_REVIEWS),
        r matches Ok((d, approximate)) ==> {
            &&& d@.len() == BUCKETS
            &&& total(d@) == UNITS_PER_REVIEW * total_reviews
            &&& (!approximate <==> within_tolerance(d@, target_average as int))
        },
{
    if target_average < MIN_TARGET || target_average > MAX_TARGET {
        return Err(OptimizeError::TargetOutOfRange);
    }
    if total_reviews == 0 {
        return Err(OptimizeError::NoReviews);
    }
    if total_reviews > MAX_TOTAL_REVIEWS {
        return Err(OptimizeError::TooManyReviews);
    }
    let ghost target = target_average as int;
    let ghost start = seed(target, total_reviews as int, try_realism);
    let ghost goal = settle(start, target, total_reviews, MAX_ITERATIONS as nat);
    let mut distribution = seed_distribution(target_average, total_reviews, try_realism);
    proof {
        lemma_settle(start, target, total_reviews, MAX_ITERATIONS as nat);
    }
    assert(optimization_outcome(target, total_reviews as int, try_realism) == Ok::<(Seq<u64>, bool), OptimizeError>(goal));
    let mut passes: u64 = 0;
    loop
        invariant
            passes <= MAX_ITERATIONS,
            MIN_TARGET <= target_average <= MAX_TARGET,
            0 < total_reviews <= MAX_TOTAL_REVIEWS,
            target == target_average as int,
            well_formed(distribution@),
            total(distribution@) == UNITS_PER_REVIEW * total_reviews,
            goal == settle(start, target, total_reviews, MAX_ITERATIONS as nat),
            optimization_outcome(target, total_reviews as int, try_realism) == Ok::<(Seq<u64>, bool), OptimizeError>(goal),
            goal.1 <==> !within_tolerance(goal.0, target),
            goal.0.len() == BUCKETS,
            total(goal.0) == UNITS_PER_REVIEW * total_reviews,
            settle(distribution@, target, total_reviews, (MAX_ITERATIONS - passes) as nat) == goal,
        decreases MAX_ITERATIONS - passes,
    {
        if is_within_tolerance(&distribution, target_average) {
            return Ok((distribution, false));
        }
        if passes == MAX_ITERATIONS {
            return Ok((distribution, true));
        }
        let raise = is_below_target(&distribution, target_average);
        adjust_distribution(&mut distribution, raise, total_reviews);
        passes = passes + 1;
    }
}

} // verus!
