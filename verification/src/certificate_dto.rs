//! Wire shape of a certificate submission.

use vstd::prelude::*;

use crate::certificate_metadata_dto::{spec_metadata_valid, CertificateMetadataDto, CertificateMetadataDtoView};
use crate::recipient_dto::{spec_recipient_valid, RecipientDto, RecipientDtoView};

verus! {

/// Mathematical shape of a [`CertificateDto`].
#[verifier::ext_equal]
pub struct CertificateDtoView {
    pub account_id: u32,
    pub product_id: u32,
    pub recipient: RecipientDtoView,
    pub metadata: CertificateMetadataDtoView,
}

/// A certificate as submitted on the wire: it lacks the server-assigned
/// identifier and timestamps.
#[derive(Clone, Debug, PartialEq, Eq)]
pub struct CertificateDto {
    pub account_id: u32,
    pub product_id: u32,
    pub recipient: RecipientDto,
    pub metadata: CertificateMetadataDto,
}

impl View for CertificateDto {
    type V = CertificateDtoView;

    open spec fn view(&self) -> CertificateDtoView {
        CertificateDtoView {
            account_id: self.account_id,
            product_id: self.product_id,
            recipient: self.recipient@,
            metadata: self.metadata@,
        }
    }
}

/// A submission is valid when the account and product identifiers are
/// non-zero and the recipient and metadata are themselves valid.
pub open spec fn spec_certificate_dto_valid(d: CertificateDtoView) -> bool {
    &&& d.account_id != 0
    &&& d.product_id != 0
    &&& spec_recipient_valid(d.recipient)
    &&& spec_metadata_valid(d.metadata)
}

impl CertificateDto {
    /// Decides whether this submission passes validation. The verdict is
    /// a function of the submission alone, so validating the same
    /// submission again yields the same verdict.
    pub fn is_valid(&self) -> (r: bool)
        ensures
            r == spec_certificate_dto_valid(self@),
    {
        self.account_id != 0 && self.product_id != 0 && self.recipient.is_valid()
            && self.metadata.is_valid()
    }
}

} // verus!
