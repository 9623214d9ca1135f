//! The certificate domain entity and its constructions from the wire
//! shape and from the stored shape.

use vstd::prelude::*;

use crate::accreditation::{
    spec_parse_status, Accreditation, AccreditationStatus, AccreditationView,
};
use crate::assessment::Assessment;
use crate::base::{valid_uuid_value, AssessmentResult, Id, Name, Score};
use crate::certificate_dto::{CertificateDto, CertificateDtoView};
use crate::certificate_metadata_dto::AccreditationDtoView;
use crate::error::CertificateParseError;
use crate::model::{AccreditationModelView, CertificateModel, CertificateModelView};
use crate::organization::{spec_placeholder_org, Organization, OrganizationView};
use crate::person::{spec_placeholder_person, Person, PersonView};
use crate::sys;
use crate::validity::Validity;

verus! {

/// Mathematical shape of a [`Certificate`].
#[verifier::ext_equal]
pub struct CertificateView {
    pub id: Id,
    pub recipient: PersonView,
    pub account_id: u32,
    pub product_id: u32,
    pub name: Seq<char>,
    pub description: Seq<char>,
    pub authority: OrganizationView,
    pub validity: Option<Validity>,
    pub assessment: Assessment,
    pub accreditation: Option<AccreditationView>,
    pub created_date: i64,
    pub updated_date: Option<i64>,
}

impl CertificateView {
    /// Well-formedness: the certificate's own identifier and the owning
    /// user's identifier respect the identifier invariant.
    pub open spec fn wf(self) -> bool {
        &&& self.id.wf()
        &&& self.recipient.id.wf()
    }
}

/// A certificate record. The recipient's identifier is the owning user's
/// identifier; times are milliseconds since the Unix epoch.
#[derive(Clone, Debug, PartialEq, Eq)]
pub struct Certificate {
    pub id: Id,
    pub recipient: Person,
    pub account_id: u32,
    pub product_id: u32,
    pub name: String,
    pub description: String,
    pub authority: Organization,
    pub validity: Option<Validity>,
    pub assessment: Assessment,
    pub accreditation: Option<Accreditation>,
    pub created_date: i64,
    pub updated_date: Option<i64>,
}

impl View for Certificate {
    type V = CertificateView;

    open spec fn view(&self) -> CertificateView {
        CertificateView {
            id: self.id,
            recipient: self.recipient@,
            account_id: self.account_id,
            product_id: self.product_id,
            name: self.name@,
            description: self.description@,
            authority: self.authority@,
            validity: self.validity,
            assessment: self.assessment,
            accreditation: match self.accreditation {
                Some(a) => Some(a@),
                None => None,
            },
            created_date: self.created_date,
            updated_date: self.updated_date,
        }
    }
}

/// Whether the submitted accreditation, if any, has a status text that
/// names a status.
pub open spec fn spec_dto_accreditation_parseable(a: Option<AccreditationDtoView>) -> bool {
    match a {
        Some(acc) => spec_parse_status(acc.status) is Some,
        None => true,
    }
}

/// Entity construction from a submission succeeds exactly when the fresh
/// identifier and the recipient's identifier respect the identifier
/// invariant and the submitted accreditation status, if any, parses.
pub open spec fn spec_build_ok(d: CertificateDtoView, fresh_id: u128) -> bool {
    &&& valid_uuid_value(fresh_id)
    &&& valid_uuid_value(d.recipient.id)
    &&& spec_dto_accreditation_parseable(d.metadata.accreditation)
}

/// The accreditation of the built entity: the submitted fields with the
/// status text replaced by the status it names.
pub open spec fn spec_built_accreditation(a: Option<AccreditationDtoView>) -> Option<
    AccreditationView,
> {
    match a {
        Some(acc) => match spec_parse_status(acc.status) {
            Some(st) => Some(
                AccreditationView {
                    name: acc.name,
                    institution: acc.institution,
                    start_date: acc.start_date,
                    end_date: acc.end_date,
                    status: st,
                },
            ),
            None => None,
        },
        None => None,
    }
}

/// The entity built from a submission: the fresh identifier and creation
/// time are server-assigned, the update timestamp is empty, the score is
/// the submitted value with itself as scale and passing threshold, and
/// the fields the wire shape lacks take their documented defaults (empty
/// name and description, the placeholder authority, no validity window,
/// no phone, no middle name, a passing result).
pub open spec fn spec_built(
    d: CertificateDtoView,
    fresh_id: u128,
    created_millis: i64,
) -> CertificateView {
    CertificateView {
        id: Id(fresh_id),
        recipient: PersonView {
            id: Id(d.recipient.id),
            name: crate::base::NameView {
                first_name: d.recipient.first_name,
                middle_name: None,
                last_name: d.recipient.last_name,
            },
            email: d.recipient.email,
            phone: None,
        },
        account_id: d.account_id,
        product_id: d.product_id,
        name: Seq::empty(),
        description: Seq::empty(),
        authority: spec_placeholder_org(),
        validity: None,
        assessment: Assessment {
            score: Some(
                Score {
                    value: d.metadata.score,
                    max: d.metadata.score,
                    min: 0,
                    passing_score: d.metadata.score,
                },
            ),
            progress: d.metadata.progress,
            result: AssessmentResult::Pass,
        },
        accreditation: spec_built_accreditation(d.metadata.accreditation),
        created_date: created_millis,
        updated_date: None,
    }
}

/// Whether the stored accreditation, if any, has a status text that names
/// a status.
pub open spec fn spec_model_accreditation_parseable(a: Option<AccreditationModelView>) -> bool {
    match a {
        Some(am) => spec_parse_status(am.status) is Some,
        None => true,
    }
}

/// Entity reconstruction from a stored record succeeds exactly when both
/// stored identifiers respect the identifier invariant and the stored
/// accreditation status, if any, parses.
pub open spec fn spec_entity_ok(m: CertificateModelView) -> bool {
    &&& valid_uuid_value(m.certificate_id)
    &&& valid_uuid_value(m.user_id)
    &&& spec_model_accreditation_parseable(m.accreditation)
}

/// The entity reconstructed from a stored record: stored business fields
/// are copied, the recipient is the placeholder person under the stored
/// owning-user identifier, and fields the stored shape lacks take the
/// same documented defaults as on construction from a submission.
pub open spec fn spec_entity_of(m: CertificateModelView) -> CertificateView {
    CertificateView {
        id: Id(m.certificate_id),
        recipient: spec_placeholder_person(Id(m.user_id)),
        account_id: m.account_id,
        product_id: m.product_id,
        name: Seq::empty(),
        description: Seq::empty(),
        authority: spec_placeholder_org(),
        validity: None,
        assessment: Assessment {
            score: Some(
                Score {
                    value: m.metadata.score,
                    max: m.metadata.score,
                    min: 0,
                    passing_score: m.metadata.score,
                },
            ),
            progress: m.metadata.progress,
            result: AssessmentResult::Pass,
        },
        accreditation: match m.accreditation {
            Some(am) => match spec_parse_status(am.status) {
                Some(st) => Some(
                    AccreditationView {
                        name: am.name,
                        institution: am.institution,
                        start_date: am.start_date,
                        end_date: am.end_date,
                        status: st,
                    },
                ),
                None => None,
            },
            None => None,
        },
        created_date: m.created_date,
        updated_date: m.updated_date,
    }
}

impl Certificate {
    /// Builds the entity for a submission under a given fresh identifier
    /// and creation time. Fails, with no partial entity, when an
    /// identifier breaks the identifier invariant or the submitted
    /// accreditation status does not parse.
    pub fn build(dto: CertificateDto, fresh_id: u128, created_millis: i64) -> (r: Result<
        Certificate,
        CertificateParseError,
    >)
        ensures
            r is Ok <==> spec_build_ok(dto@, fresh_id),
            r matches Ok(c) ==> c@ == spec_built(dto@, fresh_id, created_millis),
    {
        let ghost d0 = dto@;
        let id = match Id::parse(fresh_id) {
            Ok(i) => i,
            Err(_) => {
                return Err(CertificateParseError);
            },
        };
        let recipient_id = match Id::parse(dto.recipient.id) {
            Ok(i) => i,
            Err(_) => {
                return Err(CertificateParseError);
            },
        };
        let accreditation = match dto.metadata.accreditation {
            Some(a) => {
                let status = match AccreditationStatus::from_status_str(a.status.as_str()) {
                    Ok(st) => st,
                    Err(_) => {
                        return Err(CertificateParseError);
                    },
                };
                Some(
                    Accreditation {
                        name: a.name,
                        institution: a.institution,
                        start_date: a.start_date,
                        end_date: a.end_date,
                        status,
                    },
                )
            },
            None => None,
        };
        let c = Certificate {
            id,
            recipient: Person {
                id: recipient_id,
                name: Name {
                    first_name: dto.recipient.first_name,
                    middle_name: None,
                    last_name: dto.recipient.last_name,
                },
                email: crate::base::Email(dto.recipient.email),
                phone: None,
            },
            account_id: dto.account_id,
            product_id: dto.product_id,
            name: String::new(),
            description: String::new(),
            authority: Organization::placeholder(),
            validity: None,
            assessment: Assessment {
                score: Some(
                    Score::new(dto.metadata.score, dto.metadata.score, 0, dto.metadata.score),
                ),
                progress: dto.metadata.progress,
                result: AssessmentResult::Pass,
            },
            accreditation,
            created_date: created_millis,
            updated_date: None,
        };
        proof {
            assert(c@ =~~= spec_built(d0, fresh_id, created_millis));
        }
        Ok(c)
    }

    /// Builds the entity for a submission: the identifier is freshly
    /// generated and the creation time is the current time, both
    /// server-assigned; the update timestamp is left empty. Fails exactly
    /// when the recipient's identifier breaks the identifier invariant or
    /// the submitted accreditation status does not parse.
    pub fn from_dto(dto: CertificateDto) -> (r: Result<Certificate, CertificateParseError>)
        ensures
            r is Ok <==> valid_uuid_value(dto@.recipient.id) && spec_dto_accreditation_parseable(
                dto@.metadata.accreditation,
            ),
            r matches Ok(c) ==> c@.id.wf() && c@.created_date >= 0 && c@ == spec_built(
                dto@,
                c@.id.0,
                c@.created_date,
            ),
    {
        let fresh_id = sys::fresh_uuid_value();
        let created_millis = sys::now_millis();
        Certificate::build(dto, fresh_id, created_millis)
    }

    /// Reconstructs the entity for a stored record. Fails exactly when a
    /// stored identifier breaks the identifier invariant or the stored
    /// accreditation status does not parse.
    pub fn from_model(model: &CertificateModel) -> (r: Result<Certificate, CertificateParseError>)
        ensures
            r is Ok <==> spec_entity_ok(model@),
            r matches Ok(c) ==> c@ == spec_entity_of(model@),
    {
        let id = match Id::parse(model.certificate_id) {
            Ok(i) => i,
            Err(_) => {
                return Err(CertificateParseError);
            },
        };
        let user_id = match Id::parse(model.user_id) {
            Ok(i) => i,
            Err(_) => {
                return Err(CertificateParseError);
            },
        };
        let accreditation = match &model.accreditation {
            Some(a) => {
                let status = match AccreditationStatus::from_status_str(a.status.as_str()) {
                    Ok(st) => st,
                    Err(_) => {
                        return Err(CertificateParseError);
                    },
                };
                Some(
                    Accreditation {
                        name: a.name.clone(),
                        institution: a.institution.clone(),
                        start_date: a.start_date,
                        end_date: a.end_date,
                        status,
                    },
                )
            },
            None => None,
        };
        let c = Certificate {
            id,
            recipient: Person::placeholder(user_id),
            account_id: model.account_id,
            product_id: model.product_id,
            name: String::new(),
            description: String::new(),
            authority: Organization::placeholder(),
            validity: None,
            assessment: Assessment {
                score: Some(
                    Score::new(
                        model.metadata.score,
                        model.metadata.score,
                        0,
                        model.metadata.score,
                    ),
                ),
                progress: model.metadata.progress,
                result: AssessmentResult::Pass,
            },
            accreditation,
            created_date: model.created_date,
            updated_date: model.updated_date,
        };
        proof {
            assert(c@ =~~= spec_entity_of(model@));
        }
        Ok(c)
    }
}

/// A sequence of certificates, as returned by a lookup over all
/// certificates of one owning user.
#[derive(Clone, Debug, PartialEq, Eq)]
pub struct Certificates(pub Vec<Certificate>);

impl View for Certificates {
    type V = Seq<CertificateView>;

    open spec fn view(&self) -> Seq<CertificateView> {
        Seq::new(self.0@.len(), |i: int| self.0@[i]@)
    }
}

impl Certificates {
    /// Reconstructs every entity of a list of stored records, in order.
    /// Fails exactly when some record cannot be reconstructed.
    pub fn from_models(models: &Vec<CertificateModel>) -> (r: Result<
        Certificates,
        CertificateParseError,
    >)
        ensures
            r is Ok <==> (forall|i: int|
                0 <= i < models@.len() ==> spec_entity_ok(#[trigger] models@[i]@)),
            r matches Ok(cs) ==> cs@.len() == models@.len() && (forall|i: int|
                0 <= i < models@.len() ==> cs@[i] == spec_entity_of(#[trigger] models@[i]@)),
    {
        let mut out: Vec<Certificate> = Vec::new();
        let n = models.len();
        let mut i: usize = 0;
        while i < n
            invariant
                i <= n,
                n == models@.len(),
                out@.len() == i,
                forall|j: int| 0 <= j < i ==> spec_entity_ok(#[trigger] models@[j]@),
                forall|j: int| 0 <= j < i ==> out@[j]@ == spec_entity_of(#[trigger] models@[j]@),
            decreases n - i,
        {
            match Certificate::from_model(&models[i]) {
                Ok(c) => {
                    out.push(c);
                },
                Err(e) => {
                    return Err(e);
                },
            }
            i = i + 1;
        }
        Ok(Certificates(out))
    }
}

} // verus!
