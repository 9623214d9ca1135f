//! Decision logic of the request handlers.
//!
//! Each handler is split into pure decisions, verified here, and outside
//! work (HTTP and the storage backend) that the surrounding program
//! performs between them: it feeds a submission or a lookup result in as
//! a plain value and carries the returned plan or outcome out.

use vstd::prelude::*;

use crate::certificate::{
    spec_built, spec_entity_of, spec_entity_ok, Certificate, Certificates,
};
use crate::certificate_dto::{spec_certificate_dto_valid, CertificateDto};
use crate::helpers::SaveType;
use crate::model::{spec_model_of, CertificateModel};

verus! {

/// What to do with a submission: reject it as a client error, or persist
/// the given record and answer with the given entity.
pub enum StorePlan {
    Reject,
    Persist(Certificate, CertificateModel),
}

/// Decides a submission: an invalid submission is rejected and nothing is
/// built or persisted for it; a valid one yields the entity to answer
/// with and its stored shape under insert intent, update timestamp empty.
pub fn plan_store(dto: CertificateDto) -> (r: StorePlan)
    ensures
        r is Persist <==> spec_certificate_dto_valid(dto@),
        r matches StorePlan::Persist(c, m) ==> {
            &&& c@.id.wf()
            &&& c@.created_date >= 0
            &&& c@ == spec_built(dto@, c@.id.0, c@.created_date)
            &&& m@ == spec_model_of(c@, SaveType::Insert, c@.created_date)
            &&& m@.updated_date is None
        },
{
    if !dto.is_valid() {
        return StorePlan::Reject;
    }
    match Certificate::from_dto(dto) {
        Ok(c) => {
            let m = CertificateModel::from_domain(&c, SaveType::Insert, c.created_date);
            StorePlan::Persist(c, m)
        },
        Err(_) => unreached(),
    }
}

/// What the storage backend reported for a find-by-identifier lookup: a
/// matching record, no match, or a storage fault.
pub enum LookupEvent {
    Found(CertificateModel),
    NoMatch,
    Failure,
}

/// How to answer a find-by-identifier request.
pub enum FetchOutcome {
    Success(Certificate),
    NotFound,
    StorageError,
}

/// Decides the answer to a find-by-identifier request from what the
/// storage backend reported. No match is answered as not-found, never as
/// a storage error; a record that cannot be reconstructed is answered as
/// a storage error.
pub fn resolve_fetch(event: LookupEvent) -> (r: FetchOutcome)
    ensures
        event is NoMatch ==> r is NotFound,
        event is Failure ==> r is StorageError,
        event matches LookupEvent::Found(m) ==> if spec_entity_ok(m@) {
            r matches FetchOutcome::Success(c) && c@ == spec_entity_of(m@)
        } else {
            r is StorageError
        },
{
    match event {
        LookupEvent::Found(m) => match Certificate::from_model(&m) {
            Ok(c) => FetchOutcome::Success(c),
            Err(_) => FetchOutcome::StorageError,
        },
        LookupEvent::NoMatch => FetchOutcome::NotFound,
        LookupEvent::Failure => FetchOutcome::StorageError,
    }
}

/// What the storage backend reported for a find-by-owning-user lookup:
/// the matching records (none is an empty list, not a fault), or a
/// storage fault.
pub enum ListLookupEvent {
    Found(Vec<CertificateModel>),
    Failure,
}

/// How to answer a find-by-owning-user request.
pub enum FetchManyOutcome {
    Success(Certificates),
    StorageError,
}

/// Decides the answer to a find-by-owning-user request from what the
/// storage backend reported: every record is reconstructed in order, and
/// a fault, or any record that cannot be reconstructed, is answered as a
/// storage error.
pub fn resolve_fetch_many(event: ListLookupEvent) -> (r: FetchManyOutcome)
    ensures
        event is Failure ==> r is StorageError,
        event matches ListLookupEvent::Found(ms) ==> if forall|i: int|
            0 <= i < ms@.len() ==> spec_entity_ok(#[trigger] ms@[i]@) {
            r matches FetchManyOutcome::Success(cs) && cs@.len() == ms@.len() && (forall|i: int|
                0 <= i < ms@.len() ==> cs@[i] == spec_entity_of(#[trigger] ms@[i]@))
        } else {
            r is StorageError
        },
{
    match event {
        ListLookupEvent::Found(ms) => match Certificates::from_models(&ms) {
            Ok(cs) => FetchManyOutcome::Success(cs),
            Err(_) => FetchManyOutcome::StorageError,
        },
        ListLookupEvent::Failure => FetchManyOutcome::StorageError,
    }
}

} // verus!
