//! The supporting value objects: names, scores, addresses and the
//! placeholder person and organization.

use crs::base::{Address, Id, Name, Score};
use crs::organization::{Organization, PLACEHOLDER_ORG_ID};
use crs::person::Person;

#[test]
fn full_name_with_middle_name() {
    let name = Name {
        first_name: "John".to_string(),
        middle_name: Some("Quentin".to_string()),
        last_name: "Doe".to_string(),
    };
    assert_eq!(name.full_name(), "John Quentin Doe");
}

#[test]
fn full_name_without_middle_name() {
    let name = Name {
        first_name: "John".to_string(),
        middle_name: None,
        last_name: "Doe".to_string(),
    };
    assert_eq!(name.full_name(), "John Doe");
}

#[test]
fn score_new_keeps_its_components() {
    let score = Score::new(88, 100, 0, 60);
    assert_eq!(score.value, 88);
    assert_eq!(score.max, 100);
    assert_eq!(score.min, 0);
    assert_eq!(score.passing_score, 60);
}

#[test]
fn default_address_is_empty() {
    let address = Address::default();
    assert_eq!(address.street, "");
    assert_eq!(address.city, "");
    assert_eq!(address.building_number, "");
    assert_eq!(address.country, "");
    assert_eq!(address.postal_code, "");
}

#[test]
fn placeholder_organization_is_fixed() {
    let organization = Organization::placeholder();
    assert_eq!(organization.id.as_uuid(), PLACEHOLDER_ORG_ID);
    assert_eq!(organization.name, "");
    assert_eq!(organization.email.as_string(), "test@email.com");
    assert_eq!(organization.phone.as_string(), "987654321");
    let again = Organization::placeholder();
    assert_eq!(organization, again);
}

#[test]
fn placeholder_person_keeps_the_given_identifier() {
    let person = Person::placeholder(Id::parse(9).unwrap());
    assert_eq!(person.id.as_uuid(), 9);
    assert_eq!(person.name.first_name, "");
    assert_eq!(person.name.last_name, "");
    assert_eq!(person.email.as_string(), "test@email.com");
    assert!(person.phone.is_none());
}

#[test]
fn metadata_block_holds_its_fields() {
    let metadata = crs::certificate_metadata::Metadata {
        score: 42,
        progress: 2_500,
        acquired_date: Some(1_700_000_000_000),
        accreditation: None,
    };
    assert_eq!(metadata.score, 42);
    assert_eq!(metadata.progress, 2_500);
    assert_eq!(metadata.acquired_date, Some(1_700_000_000_000));
    assert!(metadata.accreditation.is_none());
}
