//! Properties of the optimizer that hold for all inputs.
use vstd::prelude::*;

use vstd::arithmetic::div_mod::{
    lemma_mod_add_multiples_vanish, lemma_mod_multiples_basic, lemma_mod_sub_multiples_vanish,
    lemma_small_mod,
};

use crate::distribution::{
    BUCKETS, UNITS_PER_REVIEW, UNITS_PER_STAR, lemma_move_keeps_total, move_mass, shift_down,
    shift_up, total, weighted, well_formed,
};
use crate::optimizer::{
    MAX_TARGET, MIN_TARGET, MAX_ITERATIONS, MAX_TOTAL_REVIEWS, OptimizeError, TOLERANCE, below_target, lemma_outcome,
    lemma_seed_total, optimization_outcome, outcome_view, profile, seed, settle, step_towards,
    within_tolerance,
};

verus! {

/// The optimizer is deterministic: two results obtained for the same target,
/// review count and realism flag are equal.
pub proof fn lemma_optimizer_deterministic(
    target: int,
    reviews: int,
    realism: bool,
    first: Result<(Vec<u64>, bool), OptimizeError>,
    second: Result<(Vec<u64>, bool), OptimizeError>,
)
    requires
        outcome_view(first) == optimization_outcome(target, reviews, realism),
        outcome_view(second) == optimization_outcome(target, reviews, realism),
    ensures
        outcome_view(first) == outcome_view(second),
{
}

/// A result that is not approximate has an exact average, star-weighted
/// mass over mass, strictly less than the tolerance away from the target:
/// `|target / 1000 - weighted / total| < TOLERANCE / 1000`, with the
/// fractions cleared.
pub proof fn lemma_exact_result_average(target: int, reviews: int, realism: bool, d: Seq<u64>)
    requires
        reviews >= 0,
        optimization_outcome(target, reviews, realism) == Ok::<(Seq<u64>, bool), OptimizeError>((d, false)),
    ensures
        total(d) > 0,
        -(TOLERANCE * total(d)) < target * total(d) - UNITS_PER_STAR * weighted(d) < TOLERANCE
            * total(d),
{
    lemma_outcome(target, reviews, realism);
}

/// At the lowest target every pass moves mass down, and the result is
/// within tolerance exactly when the mass above the one-star bucket, each
/// unit counted once per star above one, is under a hundredth of the total.
pub proof fn lemma_lowest_target(d: Seq<u64>)
    requires
        d.len() == BUCKETS,
    ensures
        !below_target(d, MIN_TARGET as int),
        within_tolerance(d, MIN_TARGET as int) <==> (total(d) > 0 && 100 * (d[1] + 2 * d[2] + 3
            * d[3] + 4 * d[4]) < total(d)),
{
}

/// At the highest target a pass moves mass up whenever any lies below the
/// five-star bucket, and the result is within tolerance exactly when the
/// mass below the five-star bucket, each unit counted once per star below
/// five, is under a hundredth of the total.
pub proof fn lemma_highest_target(d: Seq<u64>)
    requires
        d.len() == BUCKETS,
    ensures
        below_target(d, MAX_TARGET as int) <==> 4 * d[0] + 3 * d[1] + 2 * d[2] + d[3] > 0,
        within_tolerance(d, MAX_TARGET as int) <==> (total(d) > 0 && 100 * (4 * d[0] + 3 * d[1]
            + 2 * d[2] + d[3]) < total(d)),
{
}

/// Every bucket of `d` holds a whole number of steps.
pub open spec fn in_whole_steps(d: Seq<u64>, step: u64) -> bool {
    &&& (d[0] as int) % (step as int) == 0
    &&& (d[1] as int) % (step as int) == 0
    &&& (d[2] as int) % (step as int) == 0
    &&& (d[3] as int) % (step as int) == 0
    &&& (d[4] as int) % (step as int) == 0
}

/// Mass outside the one-star bucket.
pub open spec fn mass_above_bottom(d: Seq<u64>) -> int {
    d[1] + d[2] + d[3] + d[4]
}

/// Mass outside the five-star bucket.
pub open spec fn mass_below_top(d: Seq<u64>) -> int {
    d[0] + d[1] + d[2] + d[3]
}

/// No empty bucket lies below a non-empty one, the one-star bucket aside.
pub open spec fn packed_down(d: Seq<u64>) -> bool {
    &&& (d[2] > 0 ==> d[1] > 0)
    &&& (d[3] > 0 ==> d[2] > 0)
    &&& (d[4] > 0 ==> d[3] > 0)
}

/// No empty bucket lies above a non-empty one, the five-star bucket aside.
pub open spec fn packed_up(d: Seq<u64>) -> bool {
    &&& (d[0] > 0 ==> d[1] > 0)
    &&& (d[1] > 0 ==> d[2] > 0)
    &&& (d[2] > 0 ==> d[3] > 0)
}

/// A non-empty bucket of whole steps holds at least one step.
proof fn lemma_whole_positive(x: u64, step: u64)
    requires
        step > 0,
        (x as int) % (step as int) == 0,
    ensures
        x > 0 ==> x >= step,
{
    if 0 < x < step {
        lemma_small_mod(x as nat, step as nat);
    }
}

/// Between buckets of whole steps, a move carries one whole step from a
/// non-empty donor and nothing from an empty one, and leaves whole steps.
proof fn lemma_move_whole_step(d: Seq<u64>, from: int, to: int, step: u64)
    requires
        well_formed(d),
        0 <= from < BUCKETS,
        0 <= to < BUCKETS,
        from != to,
        step > 0,
        (d[from] as int) % (step as int) == 0,
        (d[to] as int) % (step as int) == 0,
    ensures
        d[from] > 0 ==> move_mass(d, from, to, step) == d.update(from, (d[from] - step) as u64).update(
            to,
            (d[to] + step) as u64,
        ),
        d[from] == 0 ==> move_mass(d, from, to, step) == d,
        (move_mass(d, from, to, step)[from] as int) % (step as int) == 0,
        (move_mass(d, from, to, step)[to] as int) % (step as int) == 0,
{
    lemma_whole_positive(d[from], step);
    lemma_move_keeps_total(d, from, to, step);
    if d[from] > 0 {
        lemma_mod_sub_multiples_vanish(d[from] as int, step as int);
        lemma_mod_add_multiples_vanish(d[to] as int, step as int);
    } else {
        assert(move_mass(d, from, to, step) =~= d);
    }
}

/// A downward pass over packed buckets of whole steps keeps them so, and
/// moves exactly one step into the one-star bucket while any mass is above it.
proof fn lemma_down_pass(d: Seq<u64>, step: u64)
    requires
        well_formed(d),
        step > 0,
        in_whole_steps(d, step),
        packed_down(d),
    ensures
        well_formed(shift_down(d, step)),
        in_whole_steps(shift_down(d, step), step),
        packed_down(shift_down(d, step)),
        total(shift_down(d, step)) == total(d),
        mass_above_bottom(d) > 0 ==> mass_above_bottom(shift_down(d, step)) == mass_above_bottom(d) - step,
{
    lemma_whole_positive(d[1], step);
    lemma_whole_positive(d[2], step);
    lemma_whole_positive(d[3], step);
    lemma_whole_positive(d[4], step);
    let m1 = move_mass(d, 1, 0, step);
    lemma_move_whole_step(d, 1, 0, step);
    lemma_move_keeps_total(d, 1, 0, step);
    let m2 = move_mass(m1, 2, 1, step);
    lemma_move_whole_step(m1, 2, 1, step);
    lemma_move_keeps_total(m1, 2, 1, step);
    let m3 = move_mass(m2, 3, 2, step);
    lemma_move_whole_step(m2, 3, 2, step);
    lemma_move_keeps_total(m2, 3, 2, step);
    lemma_move_whole_step(m3, 4, 3, step);
    lemma_move_keeps_total(m3, 4, 3, step);
}

/// An upward pass over packed buckets of whole steps keeps them so, and
/// moves exactly one step into the five-star bucket while any mass is below it.
proof fn lemma_up_pass(d: Seq<u64>, step: u64)
    requires
        well_formed(d),
        step > 0,
        in_whole_steps(d, step),
        packed_up(d),
    ensures
        well_formed(shift_up(d, step)),
        in_whole_steps(shift_up(d, step), step),
        packed_up(shift_up(d, step)),
        total(shift_up(d, step)) == total(d),
        mass_below_top(d) > 0 ==> mass_below_top(shift_up(d, step)) == mass_below_top(d) - step,
{
    lemma_whole_positive(d[0], step);
    lemma_whole_positive(d[1], step);
    lemma_whole_positive(d[2], step);
    lemma_whole_positive(d[3], step);
    let m1 = move_mass(d, 3, 4, step);
    lemma_move_whole_step(d, 3, 4, step);
    lemma_move_keeps_total(d, 3, 4, step);
    let m2 = move_mass(m1, 2, 3, step);
    lemma_move_whole_step(m1, 2, 3, step);
    lemma_move_keeps_total(m1, 2, 3, step);
    let m3 = move_mass(m2, 1, 2, step);
    lemma_move_whole_step(m2, 1, 2, step);
    lemma_move_keeps_total(m2, 1, 2, step);
    lemma_move_whole_step(m3, 0, 1, step);
    lemma_move_keeps_total(m3, 0, 1, step);
}

/// From packed buckets of whole steps, a one-star target is reached, not
/// approximated, when the passes left can carry all mass above one star.
proof fn lemma_settle_lowest(d: Seq<u64>, step: u64, passes: nat)
    requires
        well_formed(d),
        total(d) > 0,
        step > 0,
        in_whole_steps(d, step),
        packed_down(d),
        mass_above_bottom(d) <= passes * step,
    ensures
        !settle(d, MIN_TARGET as int, step, passes).1,
    decreases passes,
{
    lemma_lowest_target(d);
    if !within_tolerance(d, MIN_TARGET as int) {
        if passes == 0 {
            assert(passes * step == 0);
        }
        assert(passes > 0);
        assert(step_towards(d, MIN_TARGET as int, step) == shift_down(d, step));
        lemma_down_pass(d, step);
        let next = shift_down(d, step);
        assert(mass_above_bottom(next) <= (passes - 1) * step) by (nonlinear_arith)
            requires
                mass_above_bottom(next) == mass_above_bottom(d) - step,
                mass_above_bottom(d) <= passes * step;
        lemma_settle_lowest(next, step, (passes - 1) as nat);
    }
}

/// From packed buckets of whole steps, a five-star target is reached, not
/// approximated, when the passes left can carry all mass below five stars.
proof fn lemma_settle_highest(d: Seq<u64>, step: u64, passes: nat)
    requires
        well_formed(d),
        total(d) > 0,
        step > 0,
        in_whole_steps(d, step),
        packed_up(d),
        mass_below_top(d) <= passes * step,
    ensures
        !settle(d, MAX_TARGET as int, step, passes).1,
    decreases passes,
{
    lemma_highest_target(d);
    if !within_tolerance(d, MAX_TARGET as int) {
        if passes == 0 {
            assert(passes * step == 0);
        }
        assert(passes > 0);
        assert(step_towards(d, MAX_TARGET as int, step) == shift_up(d, step));
        lemma_up_pass(d, step);
        let next = shift_up(d, step);
        assert(mass_below_top(next) <= (passes - 1) * step) by (nonlinear_arith)
            requires
                mass_below_top(next) == mass_below_top(d) - step,
                mass_below_top(d) <= passes * step;
        lemma_settle_highest(next, step, (passes - 1) as nat);
    }
}

/// Every bucket of a seed is a positive whole number of steps of one
/// thousandth of the mass.
proof fn lemma_seed_whole_steps(target: int, reviews: int, realism: bool)
    requires
        0 < reviews <= MAX_TOTAL_REVIEWS,
    ensures
        in_whole_steps(seed(target, reviews, realism), reviews as u64),
        forall|i: int| 0 <= i < BUCKETS ==> #[trigger] seed(target, reviews, realism)[i] > 0,
        mass_above_bottom(seed(target, reviews, realism)) <= MAX_ITERATIONS * reviews,
        mass_below_top(seed(target, reviews, realism)) <= MAX_ITERATIONS * reviews,
{
    lemma_seed_total(target, reviews, realism);
    let d = seed(target, reviews, realism);
    let p = profile(target);
    assert(UNITS_PER_REVIEW / 100 == 10);
    assert forall|i: int| 0 <= i < BUCKETS implies (#[trigger] d[i] as int) % reviews == 0 && d[i] > 0 by {
        let k = if realism { p[i] * 10 } else { 200 };
        assert(0 < k);
        assert(d[i] == k * reviews) by (nonlinear_arith)
            requires
                realism ==> d[i] == p[i] * (10 * reviews),
                !realism ==> d[i] == 20 * (10 * reviews),
                k == if realism { p[i] * 10 } else { 200 };
        lemma_mod_multiples_basic(k, reviews);
        assert(k * reviews > 0) by (nonlinear_arith)
            requires k > 0, reviews > 0;
    }
}

/// Optimizing for a one-star average always succeeds without approximation
/// on any review count it accepts, and leaves under a hundredth of the
/// mass's star-weight above the one-star bucket: nearly all reviews are
/// one-star reviews.
pub proof fn lemma_lowest_target_converges(reviews: int, realism: bool)
    requires
        0 < reviews <= MAX_TOTAL_REVIEWS,
    ensures
        optimization_outcome(MIN_TARGET as int, reviews, realism) matches Ok((d, approximate)) && {
            &&& !approximate
            &&& total(d) == UNITS_PER_REVIEW * reviews
            &&& 100 * (d[1] + 2 * d[2] + 3 * d[3] + 4 * d[4]) < total(d)
        },
{
    let start = seed(MIN_TARGET as int, reviews, realism);
    lemma_seed_total(MIN_TARGET as int, reviews, realism);
    lemma_seed_whole_steps(MIN_TARGET as int, reviews, realism);
    assert(start[1] > 0 && start[2] > 0 && start[3] > 0);
    lemma_settle_lowest(start, reviews as u64, MAX_ITERATIONS as nat);
    lemma_outcome(MIN_TARGET as int, reviews, realism);
    let d = settle(start, MIN_TARGET as int, reviews as u64, MAX_ITERATIONS as nat).0;
    lemma_lowest_target(d);
}

/// Optimizing for a five-star average always succeeds without approximation
/// on any review count it accepts, and leaves under a hundredth of the
/// mass's star-weight below the five-star bucket: nearly all reviews are
/// five-star reviews.
pub proof fn lemma_highest_target_converges(reviews: int, realism: bool)
    requires
        0 < reviews <= MAX_TOTAL_REVIEWS,
    ensures
        optimization_outcome(MAX_TARGET as int, reviews, realism) matches Ok((d, approximate)) && {
            &&& !approximate
            &&& total(d) == UNITS_PER_REVIEW * reviews
            &&& 100 * (4 * d[0] + 3 * d[1] + 2 * d[2] + d[3]) < total(d)
        },
{
    let start = seed(MAX_TARGET as int, reviews, realism);
    lemma_seed_total(MAX_TARGET as int, reviews, realism);
    lemma_seed_whole_steps(MAX_TARGET as int, reviews, realism);
    assert(start[1] > 0 && start[2] > 0 && start[3] > 0);
    lemma_settle_highest(start, reviews as u64, MAX_ITERATIONS as nat);
    lemma_outcome(MAX_TARGET as int, reviews, realism);
    let d = settle(start, MAX_TARGET as int, reviews as u64, MAX_ITERATIONS as nat).0;
    lemma_highest_target(d);
}

} // verus!
