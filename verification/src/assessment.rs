//! Assessment attached to a certificate.

use vstd::prelude::*;

use crate::base::{AssessmentResult, Score};

verus! {

/// Progress is a fraction of completion stored in basis points:
/// `PROGRESS_SCALE` stands for 1.0, so a value is in range exactly when it
/// lies in `[0, PROGRESS_SCALE]`.
pub const PROGRESS_SCALE: i64 = 10000;

/// The assessment of a certificate: an optional structured score, the
/// progress fraction in basis points, and the pass/fail result.
#[derive(Clone, Copy, Debug, PartialEq, Eq)]
pub struct Assessment {
    pub score: Option<Score>,
    pub progress: i64,
    pub result: AssessmentResult,
}

/// The plain score value carried by an optional structured score; zero
/// where no score is present.
pub open spec fn spec_score_value(s: Option<Score>) -> u32 {
    match s {
        Some(sc) => sc.value,
        None => 0,
    }
}

} // verus!
