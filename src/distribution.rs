//! The distribution of review mass over the five rating buckets, and the
//! helpers that measure it.
use vstd::prelude::*;

verus! {

/// Number of rating buckets (one to five stars).
pub const BUCKETS: usize = 5;

/// Units of mass that stand for one review.
pub const UNITS_PER_REVIEW: u64 = 1000;

/// Units in which averages are measured: thousandths of a star.
pub const UNITS_PER_STAR: u64 = 1000;

/// Sum of the five buckets of `d`.
pub open spec fn total(d: Seq<u64>) -> int {
    d[0] + d[1] + d[2] + d[3] + d[4]
}

/// Sum of each bucket's mass times its star value (bucket `i` is worth `i + 1`).
pub open spec fn weighted(d: Seq<u64>) -> int {
    d[0] + 2 * d[1] + 3 * d[2] + 4 * d[3] + 5 * d[4]
}

/// Total mass of a five-bucket distribution.
pub fn calculate_totals(distribution: &[u64]) -> (r: u128)
    requires
        distribution@.len() == BUCKETS,
    ensures
        r == total(distribution@),
{
    distribution[0] as u128 + distribution[1] as u128 + distribution[2] as u128
        + distribution[3] as u128 + distribution[4] as u128
}

/// Star-weighted mass of a five-bucket distribution.
pub(crate) fn calculate_weighted(distribution: &[u64]) -> (r: u128)
    requires
        distribution@.len() == BUCKETS,
    ensures
        r == weighted(distribution@),
{
    distribution[0] as u128 + 2 * (distribution[1] as u128) + 3 * (distribution[2] as u128)
        + 4 * (distribution[3] as u128) + 5 * (distribution[4] as u128)
}

/// Average rating of a five-bucket distribution, exactly, as the fraction
/// `(weighted, total)`: star-weighted mass over mass, in stars. `None` where
/// the distribution is empty and the average is undefined.
pub fn calculate_average(distribution: &[u64]) -> (r: Option<(u128, u128)>)
    requires
        distribution@.len() == BUCKETS,
    ensures
        total(distribution@) == 0 <==> r is None,
        r matches Some((w, t)) ==> w == weighted(distribution@) && t == total(distribution@),
        r matches Some((w, t)) ==> 0 < t <= w <= 5 * t,
{
    let t = calculate_totals(distribution);
    if t == 0 {
        return None;
    }
    let w = calculate_weighted(distribution);
    Some((w, t))
}

/// A distribution whose buckets add up to a value that fits in a `u64`.
pub open spec fn well_formed(d: Seq<u64>) -> bool {
    d.len() == BUCKETS && total(d) <= u64::MAX
}

/// `d` after moving up to `step` units from bucket `from` into bucket `to`;
/// the donor gives what it has when that is less than `step`, so no bucket
/// goes below zero.
pub open spec fn move_mass(d: Seq<u64>, from: int, to: int, step: u64) -> Seq<u64> {
    let amount = if d[from] < step { d[from] } else { step };
    d.update(from, (d[from] - amount) as u64).update(to, (d[to] + amount) as u64)
}

/// One pass that raises the average: from the top bucket down, each bucket
/// takes `step` from the bucket below it.
pub open spec fn shift_up(d: Seq<u64>, step: u64) -> Seq<u64> {
    move_mass(move_mass(move_mass(move_mass(d, 3, 4, step), 2, 3, step), 1, 2, step), 0, 1, step)
}

/// One pass that lowers the average: from the bottom bucket up, each bucket
/// takes `step` from the bucket above it.
pub open spec fn shift_down(d: Seq<u64>, step: u64) -> Seq<u64> {
    move_mass(move_mass(move_mass(move_mass(d, 1, 0, step), 2, 1, step), 3, 2, step), 4, 3, step)
}

/// Moving mass between two buckets keeps the total and the well-formedness.
pub proof fn lemma_move_keeps_total(d: Seq<u64>, from: int, to: int, step: u64)
    requires
        well_formed(d),
        0 <= from < BUCKETS,
        0 <= to < BUCKETS,
        from != to,
    ensures
        well_formed(move_mass(d, from, to, step)),
        total(move_mass(d, from, to, step)) == total(d),
{
}

/// Moving mass into a higher bucket keeps the total and raises the
/// star-weighted mass by the amount moved times the number of stars it
/// climbs, so the average rises whenever anything moves.
pub proof fn lemma_moving_up_raises_average(d: Seq<u64>, from: int, to: int, step: u64)
    requires
        well_formed(d),
        0 <= from < to < BUCKETS,
    ensures
        total(move_mass(d, from, to, step)) == total(d),
        weighted(move_mass(d, from, to, step)) == weighted(d) + (if d[from] < step {
            d[from] as int
        } else {
            step as int
        }) * (to - from),
        d[from] > 0 && step > 0 ==> weighted(move_mass(d, from, to, step)) * total(d) > weighted(d)
            * total(move_mass(d, from, to, step)),
{
    let m = move_mass(d, from, to, step);
    let amount = if d[from] < step { d[from] as int } else { step as int };
    assert(m[from] == d[from] - amount && m[to] == d[to] + amount);
    assert(weighted(m) == weighted(d) + amount * (to - from)) by {
        if from == 0 && to == 1 {
            assert(weighted(m) == weighted(d) + 1 * amount);
            assert(amount * (to - from) == 1 * amount) by (nonlinear_arith)
                requires to - from == 1;
        } else if from == 0 && to == 2 {
            assert(weighted(m) == weighted(d) + 2 * amount);
            assert(amount * (to - from) == 2 * amount) by (nonlinear_arith)
                requires to - from == 2;
        } else if from == 0 && to == 3 {
            assert(weighted(m) == weighted(d) + 3 * amount);
            assert(amount * (to - from) == 3 * amount) by (nonlinear_arith)
                requires to - from == 3;
        } else if from == 0 && to == 4 {
            assert(weighted(m) == weighted(d) + 4 * amount);
            assert(amount * (to - from) == 4 * amount) by (nonlinear_arith)
                requires to - from == 4;
        } else if from == 1 && to == 2 {
            assert(weighted(m) == weighted(d) + 1 * amount);
            assert(amount * (to - from) == 1 * amount) by (nonlinear_arith)
                requires to - from == 1;
        } else if from == 1 && to == 3 {
            assert(weighted(m) == weighted(d) + 2 * amount);
            assert(amount * (to - from) == 2 * amount) by (nonlinear_arith)
                requires to - from == 2;
        } else if from == 1 && to == 4 {
            assert(weighted(m) == weighted(d) + 3 * amount);
            assert(amount * (to - from) == 3 * amount) by (nonlinear_arith)
                requires to - from == 3;
        } else if from == 2 && to == 3 {
            assert(weighted(m) == weighted(d) + 1 * amount);
            assert(amount * (to - from) == 1 * amount) by (nonlinear_arith)
                requires to - from == 1;
        } else if from == 2 && to == 4 {
            assert(weighted(m) == weighted(d) + 2 * amount);
            assert(amount * (to - from) == 2 * amount) by (nonlinear_arith)
                requires to - from == 2;
        } else if from == 3 && to == 4 {
            assert(weighted(m) == weighted(d) + 1 * amount);
            assert(amount * (to - from) == 1 * amount) by (nonlinear_arith)
                requires to - from == 1;
        }
    }
    if d[from] > 0 && step > 0 {
        assert(weighted(m) * total(d) > weighted(d) * total(d)) by (nonlinear_arith)
            requires
                weighted(m) > weighted(d),
                total(d) > 0;
    }
}

/// Moves up to `step` units from bucket `from` into bucket `to`.
fn move_between(distribution: &mut Vec<u64>, from: usize, to: usize, step: u64)
    requires
        well_formed(old(distribution)@),
        from < BUCKETS,
        to < BUCKETS,
        from != to,
    ensures
        final(distribution)@ == move_mass(old(distribution)@, from as int, to as int, step),
        well_formed(final(distribution)@),
        total(final(distribution)@) == total(old(distribution)@),
{
    proof {
        lemma_move_keeps_total(distribution@, from as int, to as int, step);
    }
    let available = distribution[from];
    let amount = if available < step { available } else { step };
    distribution.set(from, available - amount);
    let received = distribution[to] + amount;
    distribution.set(to, received);
    assert(distribution@ =~= move_mass(old(distribution)@, from as int, to as int, step));
}

/// One adjustment pass: with `raise`, mass moves one bucket up from each
/// bucket, starting at the top; otherwise one bucket down, starting at the
/// bottom. Each move carries `step` units, or all of a smaller donor.
pub fn adjust_distribution(distribution: &mut Vec<u64>, raise: bool, step: u64)
    requires
        well_formed(old(distribution)@),
    ensures
        final(distribution)@ == (if raise {
            shift_up(old(distribution)@, step)
        } else {
            shift_down(old(distribution)@, step)
        }),
        well_formed(final(distribution)@),
        total(final(distribution)@) == total(old(distribution)@),
{
    if raise {
        move_between(distribution, 3, 4, step);
        move_between(distribution, 2, 3, step);
        move_between(distribution, 1, 2, step);
        move_between(distribution, 0, 1, step);
    } else {
        move_between(distribution, 1, 0, step);
        move_between(distribution, 2, 1, step);
        move_between(distribution, 3, 2, step);
        move_between(distribution, 4, 3, step);
    }
}

} // verus!
