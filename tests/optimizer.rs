use ratings_optimizer::distribution::{adjust_distribution, calculate_average, calculate_totals};
use ratings_optimizer::optimizer::{
    optimize_distribution, seed_distribution, weighting_profile, OptimizeError, MAX_TOTAL_REVIEWS,
};

#[test]
fn middle_target_is_even_and_exact() {
    let (d, approximate) = optimize_distribution(3000, 100, false).unwrap();
    assert_eq!(d, vec![20000, 20000, 20000, 20000, 20000]);
    assert!(!approximate);
    assert_eq!(calculate_average(&d), Some((300_000, 100_000)));
    assert_eq!(calculate_totals(&d), 100_000);
}

#[test]
fn high_target_with_realism_seeds_from_top_profile() {
    assert_eq!(seed_distribution(4800, 1000, true), vec![50_000, 50_000, 100_000, 200_000, 600_000]);
    let (d, approximate) = optimize_distribution(4800, 1000, true).unwrap();
    assert!(!approximate);
    assert_eq!(d, vec![0, 0, 4000, 200_000, 796_000]);
    assert_eq!(calculate_totals(&d), 1_000_000);
    let (w, t) = calculate_average(&d).unwrap();
    assert_eq!((w, t), (4_792_000, 1_000_000));
    assert!((1000 * w).abs_diff(4800 * t) < 10 * t);
}

#[test]
fn target_below_one_star_is_rejected() {
    assert_eq!(optimize_distribution(500, 100, false), Err(OptimizeError::TargetOutOfRange));
    assert_eq!(optimize_distribution(999, 100, true), Err(OptimizeError::TargetOutOfRange));
}

#[test]
fn target_above_five_stars_is_rejected() {
    assert_eq!(optimize_distribution(5001, 100, false), Err(OptimizeError::TargetOutOfRange));
}

#[test]
fn zero_reviews_is_rejected() {
    assert_eq!(optimize_distribution(3000, 0, false), Err(OptimizeError::NoReviews));
    assert_eq!(optimize_distribution(4000, 0, true), Err(OptimizeError::NoReviews));
}

#[test]
fn too_many_reviews_is_rejected() {
    assert_eq!(
        optimize_distribution(3000, MAX_TOTAL_REVIEWS + 1, false),
        Err(OptimizeError::TooManyReviews)
    );
}

#[test]
fn largest_review_count_keeps_its_total() {
    let (d, approximate) = optimize_distribution(3000, MAX_TOTAL_REVIEWS, false).unwrap();
    assert!(!approximate);
    assert_eq!(calculate_totals(&d), 1000 * MAX_TOTAL_REVIEWS as u128);
}

#[test]
fn lowest_target_gathers_mass_in_one_star() {
    let (d, approximate) = optimize_distribution(1000, 100, false).unwrap();
    assert!(!approximate);
    assert_eq!(d, vec![99_100, 900, 0, 0, 0]);
    assert_eq!(calculate_average(&d), Some((100_900, 100_000)));
}

#[test]
fn highest_target_gathers_mass_in_five_stars() {
    let (d, approximate) = optimize_distribution(5000, 100, true).unwrap();
    assert!(!approximate);
    assert_eq!(d, vec![0, 0, 0, 900, 99_100]);
    assert_eq!(calculate_average(&d), Some((499_100, 100_000)));
}

#[test]
fn totals_are_kept_and_results_exact() {
    let cases = [(3500, 7, false), (2000, 1, false), (4200, 250, true), (4800, 1000, false)];
    for (target, reviews, realism) in cases {
        let (d, approximate) = optimize_distribution(target, reviews, realism).unwrap();
        assert_eq!(calculate_totals(&d), 1000 * reviews as u128);
        assert!(!approximate);
        let (w, t) = calculate_average(&d).unwrap();
        assert!((1000 * w).abs_diff(target as u128 * t) < 10 * t);
    }
}

#[test]
fn small_counts_give_exact_buckets() {
    assert_eq!(optimize_distribution(2000, 1, false), Ok((vec![464, 200, 200, 136, 0], false)));
    assert_eq!(optimize_distribution(3500, 7, false), Ok((vec![539, 1400, 1400, 1400, 2261], false)));
}

#[test]
fn repeated_runs_agree() {
    let first = optimize_distribution(4200, 250, true);
    let second = optimize_distribution(4200, 250, true);
    assert_eq!(first, second);
    assert_eq!(first, Ok((vec![0, 21_500, 37_500, 62_500, 128_500], false)));
}

#[test]
fn profile_bands() {
    assert_eq!(weighting_profile(4501), vec![5, 5, 10, 20, 60]);
    assert_eq!(weighting_profile(4500), vec![10, 10, 15, 25, 40]);
    assert_eq!(weighting_profile(4000), vec![15, 20, 25, 25, 15]);
    assert_eq!(weighting_profile(3500), vec![20, 25, 25, 20, 10]);
    assert_eq!(weighting_profile(3000), vec![30, 25, 20, 15, 10]);
    assert_eq!(weighting_profile(1000), vec![30, 25, 20, 15, 10]);
}

#[test]
fn even_seed_splits_evenly() {
    assert_eq!(seed_distribution(4800, 3, false), vec![600, 600, 600, 600, 600]);
}

#[test]
fn average_of_empty_distribution_is_undefined() {
    assert_eq!(calculate_average(&[0, 0, 0, 0, 0]), None);
    assert_eq!(calculate_totals(&[0, 0, 0, 0, 0]), 0);
}

#[test]
fn average_is_an_exact_fraction() {
    assert_eq!(calculate_average(&[1, 1, 1, 0, 0]), Some((6, 3)));
    assert_eq!(calculate_average(&[1, 2, 0, 0, 0]), Some((5, 3)));
    assert_eq!(calculate_average(&[0, 0, 0, 0, 7]), Some((35, 7)));
}

#[test]
fn moving_one_review_up_raises_the_average() {
    let (w0, t0) = calculate_average(&[2_000_000, 0, 0, 0, 0]).unwrap();
    let (w1, t1) = calculate_average(&[1_999_000, 1000, 0, 0, 0]).unwrap();
    assert_eq!((w0, t0), (2_000_000, 2_000_000));
    assert_eq!((w1, t1), (2_001_000, 2_000_000));
    assert!(w1 * t0 > w0 * t1);
}

#[test]
fn boundary_targets_converge_for_many_counts() {
    for reviews in [1u64, 2, 3, 17, 999, 12_345] {
        for realism in [false, true] {
            let (d, approximate) = optimize_distribution(1000, reviews, realism).unwrap();
            assert!(!approximate);
            let t = calculate_totals(&d);
            assert!(100 * (d[1] as u128 + 2 * d[2] as u128 + 3 * d[3] as u128 + 4 * d[4] as u128) < t);
            let (d, approximate) = optimize_distribution(5000, reviews, realism).unwrap();
            assert!(!approximate);
            let t = calculate_totals(&d);
            assert!(100 * (4 * d[0] as u128 + 3 * d[1] as u128 + 2 * d[2] as u128 + d[3] as u128) < t);
        }
    }
}

#[test]
fn adjusting_up_moves_one_bucket_from_the_top() {
    let mut d = vec![10, 10, 10, 10, 10];
    adjust_distribution(&mut d, true, 4);
    assert_eq!(d, vec![6, 10, 10, 10, 14]);
}

#[test]
fn adjusting_down_moves_one_bucket_from_the_bottom() {
    let mut d = vec![10, 10, 10, 10, 10];
    adjust_distribution(&mut d, false, 4);
    assert_eq!(d, vec![14, 10, 10, 10, 6]);
}

#[test]
fn adjusting_clamps_small_donors() {
    let mut d = vec![1, 0, 3, 0, 0];
    adjust_distribution(&mut d, true, 2);
    assert_eq!(d, vec![0, 1, 1, 2, 0]);
    let mut d = vec![0, 0, 0, 1, 5];
    adjust_distribution(&mut d, false, 3);
    assert_eq!(d, vec![0, 0, 1, 3, 2]);
}
