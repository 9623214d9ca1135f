//! Decision logic of the request handlers: what is persisted, and how
//! lookup results are answered.

use crs::assessment::PROGRESS_SCALE;
use crs::certificate_dto::CertificateDto;
use crs::certificate_metadata_dto::CertificateMetadataDto;
use crs::handlers::{
    plan_store, resolve_fetch, resolve_fetch_many, FetchManyOutcome, FetchOutcome, ListLookupEvent,
    LookupEvent, StorePlan,
};
use crs::model::{CertificateMetadataModel, CertificateModel};
use crs::recipient_dto::RecipientDto;

const VALID_USER_ID: u128 = 0x4e7fc873cdec470195117b56ddede695;
const VALID_CERT_ID: u128 = 0xa2382a522e844db6bcd94fe378a92b10;

fn valid_dto() -> CertificateDto {
    CertificateDto {
        account_id: 1,
        product_id: 1,
        recipient: RecipientDto {
            id: VALID_USER_ID,
            first_name: "John".to_string(),
            last_name: "Doe".to_string(),
            email: "j@example.com".to_string(),
            phone: "12345678".to_string(),
        },
        metadata: CertificateMetadataDto {
            score: 0,
            progress: PROGRESS_SCALE / 2,
            acquired_date: None,
            accreditation: None,
        },
    }
}

fn valid_model() -> CertificateModel {
    CertificateModel {
        certificate_id: VALID_CERT_ID,
        user_id: VALID_USER_ID,
        account_id: 20,
        product_id: 15,
        metadata: CertificateMetadataModel { score: 100, progress: PROGRESS_SCALE },
        accreditation: None,
        created_date: 1_700_000_000_000,
        updated_date: None,
    }
}

#[test]
fn valid_submission_is_planned_for_persistence() {
    match plan_store(valid_dto()) {
        StorePlan::Persist(certificate, model) => {
            assert_ne!(certificate.id.as_uuid(), 0);
            assert_ne!(certificate.id.as_uuid(), u128::MAX);
            assert!(certificate.created_date > 0);
            assert_eq!(certificate.updated_date, None);
            assert_eq!(model.certificate_id, certificate.id.as_uuid());
            assert_eq!(model.user_id, VALID_USER_ID);
            assert_eq!(model.updated_date, None);
        },
        StorePlan::Reject => panic!("a valid submission was rejected"),
    }
}

#[test]
fn nil_recipient_submission_is_rejected_without_persistence() {
    let mut dto = valid_dto();
    dto.recipient.id = 0;
    assert!(matches!(plan_store(dto), StorePlan::Reject));
}

#[test]
fn out_of_range_submission_is_rejected_without_persistence() {
    let mut dto = valid_dto();
    dto.metadata.score = 101;
    assert!(matches!(plan_store(dto), StorePlan::Reject));

    let mut dto = valid_dto();
    dto.metadata.progress = PROGRESS_SCALE + 1;
    assert!(matches!(plan_store(dto), StorePlan::Reject));
}

#[test]
fn no_match_is_answered_as_not_found_not_storage_error() {
    assert!(matches!(resolve_fetch(LookupEvent::NoMatch), FetchOutcome::NotFound));
}

#[test]
fn storage_fault_is_answered_as_storage_error() {
    assert!(matches!(resolve_fetch(LookupEvent::Failure), FetchOutcome::StorageError));
}

#[test]
fn found_record_is_answered_with_its_entity() {
    match resolve_fetch(LookupEvent::Found(valid_model())) {
        FetchOutcome::Success(certificate) => {
            assert_eq!(certificate.id.as_uuid(), VALID_CERT_ID);
            assert_eq!(certificate.recipient.id.as_uuid(), VALID_USER_ID);
            assert_eq!(certificate.account_id, 20);
            assert_eq!(certificate.product_id, 15);
        },
        _ => panic!("a well-formed record was not answered with its entity"),
    }
}

#[test]
fn corrupt_record_is_answered_as_storage_error() {
    let mut model = valid_model();
    model.certificate_id = 0;
    assert!(matches!(resolve_fetch(LookupEvent::Found(model)), FetchOutcome::StorageError));
}

#[test]
fn user_lookup_keeps_all_records_in_order() {
    let mut second = valid_model();
    second.certificate_id = VALID_CERT_ID + 1;
    second.account_id = 21;
    match resolve_fetch_many(ListLookupEvent::Found(vec![valid_model(), second])) {
        FetchManyOutcome::Success(certificates) => {
            assert_eq!(certificates.0.len(), 2);
            assert_eq!(certificates.0[0].account_id, 20);
            assert_eq!(certificates.0[1].account_id, 21);
            assert_eq!(certificates.0[1].id.as_uuid(), VALID_CERT_ID + 1);
        },
        FetchManyOutcome::StorageError => panic!("well-formed records were answered as a fault"),
    }
}

#[test]
fn user_lookup_with_no_records_is_an_empty_list() {
    match resolve_fetch_many(ListLookupEvent::Found(Vec::new())) {
        FetchManyOutcome::Success(certificates) => assert!(certificates.0.is_empty()),
        FetchManyOutcome::StorageError => panic!("an empty lookup was answered as a fault"),
    }
}

#[test]
fn user_lookup_fault_is_a_storage_error() {
    assert!(matches!(resolve_fetch_many(ListLookupEvent::Failure), FetchManyOutcome::StorageError));
}

#[test]
fn user_lookup_with_a_corrupt_record_is_a_storage_error() {
    let mut bad = valid_model();
    bad.user_id = u128::MAX;
    assert!(matches!(
        resolve_fetch_many(ListLookupEvent::Found(vec![valid_model(), bad])),
        FetchManyOutcome::StorageError
    ));
}

#[test]
fn retry_policy_attempts_exactly_once() {
    let policy = crs::retry::RetryPolicy::single_attempt();
    assert_eq!(policy.decide(0), crs::retry::RetryDecision::Attempt);
    assert_eq!(policy.decide(1), crs::retry::RetryDecision::GiveUp);
    assert_eq!(policy.decide(2), crs::retry::RetryDecision::GiveUp);
}

#[test]
fn retry_policy_bounds_attempts() {
    let policy = crs::retry::RetryPolicy { max_attempts: 3 };
    assert_eq!(policy.decide(2), crs::retry::RetryDecision::Attempt);
    assert_eq!(policy.decide(3), crs::retry::RetryDecision::GiveUp);
}
