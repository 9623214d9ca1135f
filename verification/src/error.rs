//! The closed set of error values produced by validation and mapping.
//!
//! Each error carries a fixed, human-readable message and travels through
//! the DTO-to-entity-to-model chain as a value, never as an abort.

use vstd::prelude::*;

verus! {

/// A textual accreditation status was none of the accepted names.
#[derive(Clone, Copy, Debug, PartialEq, Eq, Structural)]
pub struct AccreditationStatusError;

impl AccreditationStatusError {
    /// The fixed message shown for this error.
    pub fn message(&self) -> (r: &'static str)
        ensures
            r@ == "provided string was invalid, allowed values are `pending`, `active`, `expired`, or `revoked`"@,
    {
        "provided string was invalid, allowed values are `pending`, `active`, `expired`, or `revoked`"
    }
}

/// An identifier was the nil UUID or the max UUID.
#[derive(Clone, Copy, Debug, PartialEq, Eq, Structural)]
pub struct InvalidIdError;

impl InvalidIdError {
    /// The fixed message shown for this error.
    pub fn message(&self) -> (r: &'static str)
        ensures
            r@ == "provided UUID is not valid"@,
    {
        "provided UUID is not valid"
    }
}

/// An email address did not have the accepted shape.
#[derive(Clone, Copy, Debug, PartialEq, Eq, Structural)]
pub struct InvalidEmailError;

impl InvalidEmailError {
    /// The fixed message shown for this error.
    pub fn message(&self) -> (r: &'static str)
        ensures
            r@ == "provided email is not valid"@,
    {
        "provided email is not valid"
    }
}

/// A phone number did not have the accepted shape.
#[derive(Clone, Copy, Debug, PartialEq, Eq, Structural)]
pub struct InvalidPhoneError;

impl InvalidPhoneError {
    /// The fixed message shown for this error.
    pub fn message(&self) -> (r: &'static str)
        ensures
            r@ == "provided phone number is not valid"@,
    {
        "provided phone number is not valid"
    }
}

/// A stored document or wire shape could not be turned into a certificate.
#[derive(Clone, Copy, Debug, PartialEq, Eq, Structural)]
pub struct CertificateParseError;

impl CertificateParseError {
    /// The fixed message shown for this error.
    pub fn message(&self) -> (r: &'static str)
        ensures
            r@ == "unable to parse into a valid certificate"@,
    {
        "unable to parse into a valid certificate"
    }
}

} // verus!
