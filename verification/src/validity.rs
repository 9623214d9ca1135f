//! Validity window of a certificate.

use vstd::prelude::*;

verus! {

/// When a certificate stops being valid: never, or at an explicit expiry
/// time in milliseconds since the Unix epoch.
#[derive(Clone, Copy, Debug, PartialEq, Eq, Structural)]
pub enum ValidUntil {
    EndOfTime,
    Expiry(i64),
}

/// The validity window of a certificate. Times are milliseconds since the
/// Unix epoch.
#[derive(Clone, Copy, Debug, PartialEq, Eq, Structural)]
pub struct Validity {
    pub first_valid_from: i64,
    pub valid_from: i64,
    pub valid_until: ValidUntil,
}

} // verus!
