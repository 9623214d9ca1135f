//! Accreditation records and the enumerated accreditation status.

use vstd::prelude::*;

use crate::error::AccreditationStatusError;
use crate::text::{eq_ignore_ascii_case, same_char_ignore_ascii_case, str_eq_ignore_ascii_case};

verus! {

/// The lifecycle state of an accreditation.
#[derive(Clone, Copy, Debug, PartialEq, Eq, Structural)]
pub enum AccreditationStatus {
    Pending,
    Active,
    Expired,
    Revoked,
}

/// The status named by a text, if any: each status is accepted under any
/// ASCII casing of its name.
pub open spec fn spec_parse_status(v: Seq<char>) -> Option<AccreditationStatus> {
    if eq_ignore_ascii_case(v, "pending"@) {
        Some(AccreditationStatus::Pending)
    } else if eq_ignore_ascii_case(v, "active"@) {
        Some(AccreditationStatus::Active)
    } else if eq_ignore_ascii_case(v, "expired"@) {
        Some(AccreditationStatus::Expired)
    } else if eq_ignore_ascii_case(v, "revoked"@) {
        Some(AccreditationStatus::Revoked)
    } else {
        None
    }
}

/// The canonical text of a status.
pub open spec fn spec_status_text(st: AccreditationStatus) -> Seq<char> {
    match st {
        AccreditationStatus::Pending => "Pending"@,
        AccreditationStatus::Active => "Active"@,
        AccreditationStatus::Expired => "Expired"@,
        AccreditationStatus::Revoked => "Revoked"@,
    }
}

impl AccreditationStatus {
    /// Reads a status from its text, accepting any ASCII casing of the
    /// four names; any other text is an error.
    pub fn from_status_str(status: &str) -> (r: Result<
        AccreditationStatus,
        AccreditationStatusError,
    >)
        ensures
            match spec_parse_status(status@) {
                Some(st) => r == Ok::<AccreditationStatus, AccreditationStatusError>(st),
                None => r == Err::<AccreditationStatus, AccreditationStatusError>(
                    AccreditationStatusError,
                ),
            },
    {
        if str_eq_ignore_ascii_case(status, "pending") {
            Ok(AccreditationStatus::Pending)
        } else if str_eq_ignore_ascii_case(status, "active") {
            Ok(AccreditationStatus::Active)
        } else if str_eq_ignore_ascii_case(status, "expired") {
            Ok(AccreditationStatus::Expired)
        } else if str_eq_ignore_ascii_case(status, "revoked") {
            Ok(AccreditationStatus::Revoked)
        } else {
            Err(AccreditationStatusError)
        }
    }

    /// The canonical text of this status.
    pub fn as_str(&self) -> (r: &'static str)
        ensures
            r@ == spec_status_text(*self),
    {
        match self {
            AccreditationStatus::Pending => "Pending",
            AccreditationStatus::Active => "Active",
            AccreditationStatus::Expired => "Expired",
            AccreditationStatus::Revoked => "Revoked",
        }
    }
}

/// Reading a status back from its canonical text gives the status again.
pub proof fn lemma_status_text_parses(st: AccreditationStatus)
    ensures
        spec_parse_status(spec_status_text(st)) == Some(st),
{
    reveal_strlit("Pending");
    reveal_strlit("pending");
    reveal_strlit("Active");
    reveal_strlit("active");
    reveal_strlit("Expired");
    reveal_strlit("expired");
    reveal_strlit("Revoked");
    reveal_strlit("revoked");
    match st {
        AccreditationStatus::Pending => {
            assert(eq_ignore_ascii_case("Pending"@, "pending"@)) by {
                let u = "Pending"@;
                let l = "pending"@;
                assert(same_char_ignore_ascii_case(u[0], l[0]));
                assert(same_char_ignore_ascii_case(u[1], l[1]));
                assert(same_char_ignore_ascii_case(u[2], l[2]));
                assert(same_char_ignore_ascii_case(u[3], l[3]));
                assert(same_char_ignore_ascii_case(u[4], l[4]));
                assert(same_char_ignore_ascii_case(u[5], l[5]));
                assert(same_char_ignore_ascii_case(u[6], l[6]));
            }
        },
        AccreditationStatus::Active => {
            assert(!same_char_ignore_ascii_case("Active"@[0], "pending"@[0]));
            assert(eq_ignore_ascii_case("Active"@, "active"@)) by {
                let u = "Active"@;
                let l = "active"@;
                assert(same_char_ignore_ascii_case(u[0], l[0]));
                assert(same_char_ignore_ascii_case(u[1], l[1]));
                assert(same_char_ignore_ascii_case(u[2], l[2]));
                assert(same_char_ignore_ascii_case(u[3], l[3]));
                assert(same_char_ignore_ascii_case(u[4], l[4]));
                assert(same_char_ignore_ascii_case(u[5], l[5]));
            }
        },
        AccreditationStatus::Expired => {
            assert(!same_char_ignore_ascii_case("Expired"@[0], "pending"@[0]));
            assert("Expired"@.len() != "active"@.len());
            assert(eq_ignore_ascii_case("Expired"@, "expired"@)) by {
                let u = "Expired"@;
                let l = "expired"@;
                assert(same_char_ignore_ascii_case(u[0], l[0]));
                assert(same_char_ignore_ascii_case(u[1], l[1]));
                assert(same_char_ignore_ascii_case(u[2], l[2]));
                assert(same_char_ignore_ascii_case(u[3], l[3]));
                assert(same_char_ignore_ascii_case(u[4], l[4]));
                assert(same_char_ignore_ascii_case(u[5], l[5]));
                assert(same_char_ignore_ascii_case(u[6], l[6]));
            }
        },
        AccreditationStatus::Revoked => {
            assert(!same_char_ignore_ascii_case("Revoked"@[0], "pending"@[0]));
            assert("Revoked"@.len() != "active"@.len());
            assert(!same_char_ignore_ascii_case("Revoked"@[0], "expired"@[0]));
            assert(eq_ignore_ascii_case("Revoked"@, "revoked"@)) by {
                let u = "Revoked"@;
                let l = "revoked"@;
                assert(same_char_ignore_ascii_case(u[0], l[0]));
                assert(same_char_ignore_ascii_case(u[1], l[1]));
                assert(same_char_ignore_ascii_case(u[2], l[2]));
                assert(same_char_ignore_ascii_case(u[3], l[3]));
                assert(same_char_ignore_ascii_case(u[4], l[4]));
                assert(same_char_ignore_ascii_case(u[5], l[5]));
                assert(same_char_ignore_ascii_case(u[6], l[6]));
            }
        },
    }
}

/// Mathematical shape of an [`Accreditation`].
#[verifier::ext_equal]
pub struct AccreditationView {
    pub name: Seq<char>,
    pub institution: Seq<char>,
    pub start_date: i64,
    pub end_date: Option<i64>,
    pub status: AccreditationStatus,
}

/// An accreditation attached to a certificate. Dates are milliseconds
/// since the Unix epoch.
#[derive(Clone, Debug, PartialEq, Eq)]
pub struct Accreditation {
    pub name: String,
    pub institution: String,
    pub start_date: i64,
    pub end_date: Option<i64>,
    pub status: AccreditationStatus,
}

impl View for Accreditation {
    type V = AccreditationView;

    open spec fn view(&self) -> AccreditationView {
        AccreditationView {
            name: self.name@,
            institution: self.institution@,
            start_date: self.start_date,
            end_date: self.end_date,
            status: self.status,
        }
    }
}

} // verus!
