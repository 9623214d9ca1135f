//! Trusted bridge to the system UUID generator and the process clock.

use vstd::prelude::*;

verus! {

/// Relies on uuid::Uuid::new_v4 (read through uuid::Uuid::as_u128): a
/// version-4 UUID has its version bits set to `0100` and its variant bits
/// set to `10` by construction, so its 128-bit value is never all zeros
/// and never all ones.
#[verifier::external_body]
pub(crate) fn fresh_uuid_value() -> (r: u128)
    ensures
        r != 0,
        r != u128::MAX,
{
    uuid::Uuid::new_v4().as_u128()
}

/// Relies on chrono::Utc::now (read through timestamp_millis): the
/// wall-clock time as milliseconds since the Unix epoch. Utc::now panics
/// when the system clock is set before the epoch, so any returned value
/// is at least zero; nothing more is assumed of it.
#[verifier::external_body]
pub(crate) fn now_millis() -> (r: i64)
    ensures
        r >= 0,
{
    chrono::Utc::now().timestamp_millis()
}

} // verus!
