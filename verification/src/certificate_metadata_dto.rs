//! Wire shape of a certificate's metadata and accreditation.

use vstd::prelude::*;

use crate::accreditation::{spec_parse_status, AccreditationStatus};
use crate::assessment::PROGRESS_SCALE;

verus! {

/// Mathematical shape of an [`AccreditationDto`].
#[verifier::ext_equal]
pub struct AccreditationDtoView {
    pub name: Seq<char>,
    pub institution: Seq<char>,
    pub start_date: i64,
    pub end_date: Option<i64>,
    pub status: Seq<char>,
}

/// The accreditation as submitted on the wire; its status is free text
/// until validation. Dates are milliseconds since the Unix epoch.
#[derive(Clone, Debug, PartialEq, Eq)]
pub struct AccreditationDto {
    pub name: String,
    pub institution: String,
    pub start_date: i64,
    pub end_date: Option<i64>,
    pub status: String,
}

impl View for AccreditationDto {
    type V = AccreditationDtoView;

    open spec fn view(&self) -> AccreditationDtoView {
        AccreditationDtoView {
            name: self.name@,
            institution: self.institution@,
            start_date: self.start_date,
            end_date: self.end_date,
            status: self.status@,
        }
    }
}

/// An accreditation is valid when its name and institution are non-empty
/// and its status text names one of the accepted statuses. A text that
/// names a status is non-empty, so a valid status text is as well.
pub open spec fn spec_accreditation_dto_valid(d: AccreditationDtoView) -> bool {
    &&& d.name.len() > 0
    &&& d.institution.len() > 0
    &&& spec_parse_status(d.status) is Some
}

/// An optional accreditation is valid when absent, or valid when present.
pub open spec fn spec_accreditation_opt_valid(d: Option<AccreditationDtoView>) -> bool {
    match d {
        Some(a) => spec_accreditation_dto_valid(a),
        None => true,
    }
}

impl AccreditationDto {
    /// Decides whether an optional accreditation passes validation.
    pub fn is_valid_option(acc_dto: &Option<AccreditationDto>) -> (r: bool)
        ensures
            r == spec_accreditation_opt_valid(match *acc_dto {
                Some(ref a) => Some(a@),
                None => None,
            }),
    {
        match acc_dto {
            Some(acc) => {
                !acc.name.as_str().is_empty() && !acc.institution.as_str().is_empty()
                    && AccreditationStatus::from_status_str(acc.status.as_str()).is_ok()
            },
            None => true,
        }
    }
}

/// Mathematical shape of a [`CertificateMetadataDto`].
#[verifier::ext_equal]
pub struct CertificateMetadataDtoView {
    pub score: u32,
    pub progress: i64,
    pub acquired_date: Option<i64>,
    pub accreditation: Option<AccreditationDtoView>,
}

/// The metadata as submitted on the wire. Progress is a fraction in basis
/// points: `PROGRESS_SCALE` stands for 1.0.
#[derive(Clone, Debug, PartialEq, Eq)]
pub struct CertificateMetadataDto {
    pub score: u32,
    pub progress: i64,
    pub acquired_date: Option<i64>,
    pub accreditation: Option<AccreditationDto>,
}

impl View for CertificateMetadataDto {
    type V = CertificateMetadataDtoView;

    open spec fn view(&self) -> CertificateMetadataDtoView {
        CertificateMetadataDtoView {
            score: self.score,
            progress: self.progress,
            acquired_date: self.acquired_date,
            accreditation: match self.accreditation {
                Some(a) => Some(a@),
                None => None,
            },
        }
    }
}

/// Metadata is valid when the score is at most 100, the progress fraction
/// lies between zero and one inclusive, and the optional accreditation is
/// valid.
pub open spec fn spec_metadata_valid(d: CertificateMetadataDtoView) -> bool {
    &&& d.score <= 100
    &&& 0 <= d.progress <= PROGRESS_SCALE
    &&& spec_accreditation_opt_valid(d.accreditation)
}

impl CertificateMetadataDto {
    /// Decides whether this metadata passes validation.
    pub fn is_valid(&self) -> (r: bool)
        ensures
            r == spec_metadata_valid(self@),
    {
        self.score <= 100 && self.progress >= 0 && self.progress <= PROGRESS_SCALE
            && AccreditationDto::is_valid_option(&self.accreditation)
    }
}

} // verus!
