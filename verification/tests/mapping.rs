//! Mapping between the wire shape, the domain entity and the storage
//! model, including the round trips under both save intents.

use crs::accreditation::AccreditationStatus;
use crs::assessment::PROGRESS_SCALE;
use crs::certificate::Certificate;
use crs::certificate_dto::CertificateDto;
use crs::certificate_metadata_dto::{AccreditationDto, CertificateMetadataDto};
use crs::helpers::SaveType;
use crs::model::{CertificateMetadataModel, CertificateModel};
use crs::recipient_dto::RecipientDto;

const VALID_USER_ID: u128 = 0x4e7fc873cdec470195117b56ddede695;
const VALID_CERT_ID: u128 = 0xa2382a522e844db6bcd94fe378a92b10;

fn valid_dto() -> CertificateDto {
    CertificateDto {
        account_id: 1,
        product_id: 1,
        recipient: RecipientDto {
            id: VALID_USER_ID,
            first_name: "John".to_string(),
            last_name: "Doe".to_string(),
            email: "".to_string(),
            phone: "".to_string(),
        },
        metadata: CertificateMetadataDto {
            score: 0,
            progress: PROGRESS_SCALE / 2,
            acquired_date: None,
            accreditation: None,
        },
    }
}

fn valid_model() -> CertificateModel {
    CertificateModel {
        certificate_id: VALID_CERT_ID,
        user_id: VALID_USER_ID,
        account_id: 1,
        product_id: 1,
        metadata: CertificateMetadataModel { score: 0, progress: PROGRESS_SCALE / 2 },
        accreditation: None,
        created_date: 1_700_000_000_000,
        updated_date: None,
    }
}

#[test]
fn parse_certificate_dto_should_succeed() {
    let certificate_dto = valid_dto();
    let user_id = certificate_dto.recipient.id;
    let certificate = Certificate::from_dto(certificate_dto).unwrap();

    assert_eq!(certificate.recipient.id.as_uuid(), user_id);
    assert!(certificate.created_date > 0);
}

#[test]
fn parse_certificate_model_should_succeed() {
    let certificate_model = valid_model();
    let certificate_id = certificate_model.certificate_id;
    let certificate = Certificate::from_model(&certificate_model).unwrap();

    assert_eq!(certificate.id.as_uuid(), certificate_id);
}

#[test]
fn from_dto_assigns_fresh_identifier_and_no_update_stamp() {
    let certificate = Certificate::from_dto(valid_dto()).unwrap();
    assert_ne!(certificate.id.as_uuid(), 0);
    assert_ne!(certificate.id.as_uuid(), u128::MAX);
    assert!(certificate.created_date > 0);
    assert_eq!(certificate.updated_date, None);
    assert_eq!(certificate.account_id, 1);
    assert_eq!(certificate.product_id, 1);
    assert_eq!(certificate.assessment.progress, PROGRESS_SCALE / 2);
    assert_eq!(certificate.recipient.name.first_name, "John");
    assert_eq!(certificate.recipient.name.last_name, "Doe");
}

#[test]
fn from_dto_rejects_nil_recipient() {
    let mut dto = valid_dto();
    dto.recipient.id = 0;
    assert!(Certificate::from_dto(dto).is_err());
}

#[test]
fn from_dto_carries_accreditation_over() {
    let mut dto = valid_dto();
    dto.metadata.accreditation = Some(AccreditationDto {
        name: "Engineering".to_string(),
        institution: "Institute".to_string(),
        start_date: 42,
        end_date: Some(84),
        status: "pending".to_string(),
    });
    let certificate = Certificate::from_dto(dto).unwrap();
    let acc = certificate.accreditation.unwrap();
    assert_eq!(acc.name, "Engineering");
    assert_eq!(acc.institution, "Institute");
    assert_eq!(acc.start_date, 42);
    assert_eq!(acc.end_date, Some(84));
    assert_eq!(acc.status, AccreditationStatus::Pending);
}

#[test]
fn from_dto_rejects_unknown_accreditation_status() {
    let mut dto = valid_dto();
    dto.metadata.accreditation = Some(AccreditationDto {
        name: "Engineering".to_string(),
        institution: "Institute".to_string(),
        start_date: 42,
        end_date: None,
        status: "frozen".to_string(),
    });
    assert!(Certificate::from_dto(dto).is_err());
}

#[test]
fn from_domain_insert_leaves_update_stamp_empty() {
    let certificate = Certificate::from_model(&valid_model()).unwrap();
    let model = CertificateModel::from_domain(&certificate, SaveType::Insert, 9_999);
    assert_eq!(model.certificate_id, VALID_CERT_ID);
    assert_eq!(model.user_id, VALID_USER_ID);
    assert_eq!(model.account_id, 1);
    assert_eq!(model.product_id, 1);
    assert_eq!(model.metadata.score, 0);
    assert_eq!(model.metadata.progress, PROGRESS_SCALE / 2);
    assert_eq!(model.created_date, 1_700_000_000_000);
    assert_eq!(model.updated_date, None);
}

#[test]
fn from_domain_update_stamps_the_given_time() {
    let certificate = Certificate::from_model(&valid_model()).unwrap();
    let now = certificate.created_date + 5;
    let model = CertificateModel::from_domain(&certificate, SaveType::Update, now);
    assert_eq!(model.updated_date, Some(now));
}

#[test]
fn round_trip_insert_keeps_business_fields() {
    let mut dto = valid_dto();
    dto.metadata.score = 88;
    dto.metadata.accreditation = Some(AccreditationDto {
        name: "Engineering".to_string(),
        institution: "Institute".to_string(),
        start_date: 42,
        end_date: None,
        status: "Revoked".to_string(),
    });
    let certificate = Certificate::from_dto(dto).unwrap();
    let model = CertificateModel::from_domain(&certificate, SaveType::Insert, 0);
    let back = Certificate::from_model(&model).unwrap();

    assert_eq!(back.id, certificate.id);
    assert_eq!(back.recipient.id, certificate.recipient.id);
    assert_eq!(back.account_id, certificate.account_id);
    assert_eq!(back.product_id, certificate.product_id);
    assert_eq!(back.assessment, certificate.assessment);
    assert_eq!(back.accreditation, certificate.accreditation);
    assert_eq!(back.created_date, certificate.created_date);
    assert_eq!(back.updated_date, None);
}

#[test]
fn round_trip_update_stamps_a_time_no_earlier_than_creation() {
    let certificate = Certificate::from_dto(valid_dto()).unwrap();
    let now = certificate.created_date + 1_000;
    let model = CertificateModel::from_domain(&certificate, SaveType::Update, now);
    let back = Certificate::from_model(&model).unwrap();
    assert_eq!(back.updated_date, Some(now));
    assert!(back.updated_date.unwrap() >= back.created_date);
}

#[test]
fn from_model_rejects_sentinel_identifiers() {
    let mut model = valid_model();
    model.certificate_id = 0;
    assert!(Certificate::from_model(&model).is_err());

    let mut model = valid_model();
    model.certificate_id = u128::MAX;
    assert!(Certificate::from_model(&model).is_err());

    let mut model = valid_model();
    model.user_id = 0;
    assert!(Certificate::from_model(&model).is_err());
}

#[test]
fn from_model_tolerates_missing_optional_records() {
    let model = valid_model();
    let certificate = Certificate::from_model(&model).unwrap();
    assert_eq!(certificate.accreditation, None);
    assert_eq!(certificate.validity, None);
    assert_eq!(certificate.updated_date, None);
}

#[test]
fn from_model_reconstruction_is_deterministic() {
    let model = valid_model();
    let first = Certificate::from_model(&model).unwrap();
    let second = Certificate::from_model(&model).unwrap();
    assert_eq!(first, second);
}
