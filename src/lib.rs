//! Finds how many reviews to put in each of five star-rating buckets so that
//! the average rating meets a target.
//!
//! All quantities are fixed-point integers. A bucket holds review mass in
//! thousandths of a review, so a count of whole reviews seeds it exactly, and
//! averages are measured in thousandths of a star.
//!
//! Policies:
//! - every adjustment pass moves mass between buckets without creating or
//!   losing any, so the total never drifts and no renormalization is needed;
//! - a result is exact when its average is strictly within a hundredth of a
//!   star of the target, and approximate when that still fails after a
//!   thousand passes;
//! - zero reviews, where no average is defined, and targets outside one to
//!   five stars are rejected with an error before any distribution is seeded.

pub mod distribution;
pub mod optimizer;
pub mod laws;
