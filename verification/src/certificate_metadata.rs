//! Metadata block of a certificate submission.

use vstd::prelude::*;

use crate::accreditation::{Accreditation, AccreditationView};

verus! {

/// Mathematical shape of a [`Metadata`].
#[verifier::ext_equal]
pub struct MetadataView {
    pub score: u32,
    pub progress: i64,
    pub acquired_date: Option<i64>,
    pub accreditation: Option<AccreditationView>,
}

/// The metadata of a certificate: the plain score, the progress fraction
/// in basis points, the optional acquisition time in milliseconds since
/// the Unix epoch, and the optional accreditation.
#[derive(Clone, Debug, PartialEq, Eq)]
pub struct Metadata {
    pub score: u32,
    pub progress: i64,
    pub acquired_date: Option<i64>,
    pub accreditation: Option<Accreditation>,
}

impl View for Metadata {
    type V = MetadataView;

    open spec fn view(&self) -> MetadataView {
        MetadataView {
            score: self.score,
            progress: self.progress,
            acquired_date: self.acquired_date,
            accreditation: match self.accreditation {
                Some(a) => Some(a@),
                None => None,
            },
        }
    }
}

} // verus!
