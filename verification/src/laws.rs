//! Laws of the validation and mapping pipeline, stated over the same
//! spec functions the executable contracts use.

use vstd::prelude::*;

use crate::accreditation::lemma_status_text_parses;
use crate::assessment::spec_score_value;
use crate::certificate::{
    spec_build_ok, spec_entity_of, spec_entity_ok, CertificateView,
};
use crate::certificate_dto::{spec_certificate_dto_valid, CertificateDtoView};
use crate::helpers::SaveType;
use crate::model::spec_model_of;

verus! {

/// Equality of the business fields of two certificates: owning user,
/// account, product, score value, progress, accreditation, and creation
/// time.
pub open spec fn business_eq(a: CertificateView, b: CertificateView) -> bool {
    &&& a.recipient.id == b.recipient.id
    &&& a.account_id == b.account_id
    &&& a.product_id == b.product_id
    &&& spec_score_value(a.assessment.score) == spec_score_value(b.assessment.score)
    &&& a.assessment.progress == b.assessment.progress
    &&& a.accreditation == b.accreditation
    &&& a.created_date == b.created_date
}

/// For every valid submission, entity construction succeeds, whatever
/// well-formed fresh identifier the server assigns.
pub proof fn lemma_valid_dto_always_constructs(d: CertificateDtoView, fresh_id: u128)
    requires
        spec_certificate_dto_valid(d),
        crate::base::valid_uuid_value(fresh_id),
    ensures
        spec_build_ok(d, fresh_id),
{
}

/// For every submission whose recipient identifier is the nil or the max
/// UUID, validation fails, and construction fails as well, so no entity
/// arises from it.
pub proof fn lemma_sentinel_identifier_rejected(d: CertificateDtoView, fresh_id: u128)
    requires
        !crate::base::valid_uuid_value(d.recipient.id),
    ensures
        !spec_certificate_dto_valid(d),
        !spec_build_ok(d, fresh_id),
{
}

/// For every submission whose score or progress lies outside its range,
/// validation fails.
pub proof fn lemma_out_of_range_rejected(d: CertificateDtoView)
    requires
        d.metadata.score > 100 || d.metadata.progress < 0 || d.metadata.progress
            > crate::assessment::PROGRESS_SCALE,
    ensures
        !spec_certificate_dto_valid(d),
{
}

/// Round trip under insert intent: the stored shape of a well-formed
/// entity reconstructs, and the reconstruction keeps every business
/// field, keeps the identifier, and has no update timestamp.
pub proof fn lemma_round_trip_insert(c: CertificateView, now_millis: i64)
    requires
        c.wf(),
    ensures
        spec_entity_ok(spec_model_of(c, SaveType::Insert, now_millis)),
        business_eq(spec_entity_of(spec_model_of(c, SaveType::Insert, now_millis)), c),
        spec_entity_of(spec_model_of(c, SaveType::Insert, now_millis)).id == c.id,
        spec_entity_of(spec_model_of(c, SaveType::Insert, now_millis)).updated_date is None,
{
    lemma_round_trip_common(c, SaveType::Insert, now_millis);
}

/// Round trip under update intent at a time no earlier than creation: the
/// stored shape reconstructs, keeps every business field and the
/// identifier, and carries an update timestamp no earlier than the
/// creation time.
pub proof fn lemma_round_trip_update(c: CertificateView, now_millis: i64)
    requires
        c.wf(),
        now_millis >= c.created_date,
    ensures
        spec_entity_ok(spec_model_of(c, SaveType::Update, now_millis)),
        business_eq(spec_entity_of(spec_model_of(c, SaveType::Update, now_millis)), c),
        spec_entity_of(spec_model_of(c, SaveType::Update, now_millis)).id == c.id,
        spec_entity_of(spec_model_of(c, SaveType::Update, now_millis)).updated_date == Some(
            now_millis,
        ),
        spec_entity_of(spec_model_of(c, SaveType::Update, now_millis)).updated_date->0
            >= spec_entity_of(spec_model_of(c, SaveType::Update, now_millis)).created_date,
{
    lemma_round_trip_common(c, SaveType::Update, now_millis);
}

/// The shared part of the two round-trip laws.
proof fn lemma_round_trip_common(c: CertificateView, save_type: SaveType, now_millis: i64)
    requires
        c.wf(),
    ensures
        spec_entity_ok(spec_model_of(c, save_type, now_millis)),
        business_eq(spec_entity_of(spec_model_of(c, save_type, now_millis)), c),
        spec_entity_of(spec_model_of(c, save_type, now_millis)).id == c.id,
{
    match c.accreditation {
        Some(a) => {
            lemma_status_text_parses(a.status);
            assert(spec_entity_of(spec_model_of(c, save_type, now_millis)).accreditation
                =~= c.accreditation);
        },
        None => {},
    }
}

/// Idempotence of validation: the verdict is a function of the
/// submission alone, so two validations of one submission agree.
pub proof fn lemma_validation_idempotent(d: CertificateDtoView, first: bool, second: bool)
    requires
        first == spec_certificate_dto_valid(d),
        second == spec_certificate_dto_valid(d),
    ensures
        first == second,
{
}

} // verus!
