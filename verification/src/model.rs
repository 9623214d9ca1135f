//! Storage shape of a certificate, and the mapping from the domain
//! entity onto it.

use vstd::prelude::*;

use crate::accreditation::spec_status_text;
use crate::assessment::spec_score_value;
use crate::certificate::{Certificate, CertificateView};
use crate::helpers::SaveType;

verus! {

/// The stored metadata block: the plain score and the progress fraction
/// in basis points.
#[derive(Clone, Copy, Debug, PartialEq, Eq, Structural)]
pub struct CertificateMetadataModel {
    pub score: u32,
    pub progress: i64,
}

/// Mathematical shape of an [`AccreditationModel`].
#[verifier::ext_equal]
pub struct AccreditationModelView {
    pub name: Seq<char>,
    pub institution: Seq<char>,
    pub start_date: i64,
    pub end_date: Option<i64>,
    pub status: Seq<char>,
}

/// The stored accreditation record; the status is stored as its
/// canonical text. Dates are milliseconds since the Unix epoch.
#[derive(Clone, Debug, PartialEq, Eq)]
pub struct AccreditationModel {
    pub name: String,
    pub institution: String,
    pub start_date: i64,
    pub end_date: Option<i64>,
    pub status: String,
}

impl View for AccreditationModel {
    type V = AccreditationModelView;

    open spec fn view(&self) -> AccreditationModelView {
        AccreditationModelView {
            name: self.name@,
            institution: self.institution@,
            start_date: self.start_date,
            end_date: self.end_date,
            status: self.status@,
        }
    }
}

/// Mathematical shape of a [`CertificateModel`].
#[verifier::ext_equal]
pub struct CertificateModelView {
    pub certificate_id: u128,
    pub user_id: u128,
    pub account_id: u32,
    pub product_id: u32,
    pub metadata: CertificateMetadataModel,
    pub accreditation: Option<AccreditationModelView>,
    pub created_date: i64,
    pub updated_date: Option<i64>,
}

/// The stored shape of one certificate. Identifiers are 128-bit UUID
/// values; times are milliseconds since the Unix epoch.
#[derive(Clone, Debug, PartialEq, Eq)]
pub struct CertificateModel {
    pub certificate_id: u128,
    pub user_id: u128,
    pub account_id: u32,
    pub product_id: u32,
    pub metadata: CertificateMetadataModel,
    pub accreditation: Option<AccreditationModel>,
    pub created_date: i64,
    pub updated_date: Option<i64>,
}

impl View for CertificateModel {
    type V = CertificateModelView;

    open spec fn view(&self) -> CertificateModelView {
        CertificateModelView {
            certificate_id: self.certificate_id,
            user_id: self.user_id,
            account_id: self.account_id,
            product_id: self.product_id,
            metadata: self.metadata,
            accreditation: match self.accreditation {
                Some(a) => Some(a@),
                None => None,
            },
            created_date: self.created_date,
            updated_date: self.updated_date,
        }
    }
}

/// The stored shape of an entity under a save intent: business fields
/// are copied, the status becomes its canonical text, and the update
/// timestamp is empty on insert and `now_millis` on update.
pub open spec fn spec_model_of(
    c: CertificateView,
    save_type: SaveType,
    now_millis: i64,
) -> CertificateModelView {
    CertificateModelView {
        certificate_id: c.id.0,
        user_id: c.recipient.id.0,
        account_id: c.account_id,
        product_id: c.product_id,
        metadata: CertificateMetadataModel {
            score: spec_score_value(c.assessment.score),
            progress: c.assessment.progress,
        },
        accreditation: match c.accreditation {
            Some(a) => Some(
                AccreditationModelView {
                    name: a.name,
                    institution: a.institution,
                    start_date: a.start_date,
                    end_date: a.end_date,
                    status: spec_status_text(a.status),
                },
            ),
            None => None,
        },
        created_date: c.created_date,
        updated_date: match save_type {
            SaveType::Insert => None,
            SaveType::Update => Some(now_millis),
        },
    }
}

impl CertificateModel {
    /// Maps a domain entity onto its stored shape. `now_millis` is the
    /// time to stamp as the update time; it is ignored on insert.
    pub fn from_domain(certificate: &Certificate, save_type: SaveType, now_millis: i64) -> (m:
        CertificateModel)
        ensures
            m@ == spec_model_of(certificate@, save_type, now_millis),
    {
        let accreditation = match &certificate.accreditation {
            Some(a) => Some(
                AccreditationModel {
                    name: a.name.clone(),
                    institution: a.institution.clone(),
                    start_date: a.start_date,
                    end_date: a.end_date,
                    status: String::from_str(a.status.as_str()),
                },
            ),
            None => None,
        };
        let score = match &certificate.assessment.score {
            Some(sc) => sc.value,
            None => 0,
        };
        let updated_date = match save_type {
            SaveType::Insert => None,
            SaveType::Update => Some(now_millis),
        };
        let m = CertificateModel {
            certificate_id: certificate.id.0,
            user_id: certificate.recipient.id.0,
            account_id: certificate.account_id,
            product_id: certificate.product_id,
            metadata: CertificateMetadataModel { score, progress: certificate.assessment.progress },
            accreditation,
            created_date: certificate.created_date,
            updated_date,
        };
        proof {
            assert(m@ =~~= spec_model_of(certificate@, save_type, now_millis));
        }
        m
    }
}

} // verus!
