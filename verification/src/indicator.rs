//! The fundamental-factor indicators: descriptors for display, and the
//! shared piecewise-linear scoring rule every indicator applies.
//!
//! Scores and the values they are computed from are carried in
//! ten-thousandths, so a score of 81.0 is 810000.

use vstd::prelude::*;

pub mod fundamental;
pub mod fundamental_analysis;

verus! {

/// What an indicator is called and how it is explained to a reader.
#[derive(Clone, Debug)]
pub struct Descriptors {
    pub name: String,
    pub title: String,
    pub desc: String,
    pub exp: String,
}

/// The shared three-branch scoring rule, on a value in ten-thousandths:
/// at or above 0.10 the score is 80 plus 20 times the excess over 0.10;
/// strictly between 0 and 0.10 it is 40 plus 20 times the value; at or
/// below 0 it is 0.
pub open spec fn linear_score_spec(v: int) -> int {
    if v >= 1000 {
        800000 + 20 * (v - 1000)
    } else if v > 0 {
        400000 + 20 * v
    } else {
        0
    }
}

/// The bound under which the scoring arithmetic cannot overflow.
pub open spec fn scorable(v: int) -> bool {
    -400000000000000000 <= v <= 400000000000000000
}

/// Compute the shared scoring rule. Every indicator funnels its figure
/// through this one function rather than repeating the formula.
pub fn linear_score(v: i64) -> (score: i64)
    requires
        scorable(v as int),
    ensures
        score == linear_score_spec(v as int),
{
    if v >= 1000 {
        800000 + 20 * (v - 1000)
    } else if v > 0 {
        400000 + 20 * v
    } else {
        0
    }
}

} // verus!
