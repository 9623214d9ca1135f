//! The organization that issued a certificate.

use vstd::prelude::*;

use crate::base::{spec_empty_address, Address, AddressView, Email, Id, Phone};
use crate::text::{email_split_ok, is_valid_email, is_valid_phone};

verus! {

/// The fixed identifier of the placeholder organization. It is a reserved
/// non-nil, non-max value, so the identifier invariant holds of it.
pub const PLACEHOLDER_ORG_ID: u128 = 1;

/// Mathematical shape of an [`Organization`].
#[verifier::ext_equal]
pub struct OrganizationView {
    pub id: Id,
    pub name: Seq<char>,
    pub email: Seq<char>,
    pub phone: Seq<char>,
    pub address: AddressView,
}

/// The issuing authority of a certificate.
#[derive(Clone, Debug, PartialEq, Eq)]
pub struct Organization {
    pub id: Id,
    pub name: String,
    pub email: Email,
    pub phone: Phone,
    pub address: Address,
}

impl View for Organization {
    type V = OrganizationView;

    open spec fn view(&self) -> OrganizationView {
        OrganizationView {
            id: self.id,
            name: self.name@,
            email: self.email@,
            phone: self.phone@,
            address: self.address@,
        }
    }
}

/// The stand-in organization used where no issuing authority is known:
/// the reserved placeholder identifier, an empty name and address, and
/// fixed well-formed email and phone texts.
pub open spec fn spec_placeholder_org() -> OrganizationView {
    OrganizationView {
        id: Id(PLACEHOLDER_ORG_ID),
        name: Seq::empty(),
        email: "test@email.com"@,
        phone: "987654321"@,
        address: spec_empty_address(),
    }
}

/// The placeholder email text has the accepted email shape.
pub proof fn lemma_placeholder_email_valid()
    ensures
        is_valid_email("test@email.com"@),
{
    reveal_strlit("test@email.com");
    assert(email_split_ok("test@email.com"@, 4, 10));
}

/// The placeholder phone text has the accepted phone shape.
pub proof fn lemma_placeholder_phone_valid()
    ensures
        is_valid_phone("987654321"@),
{
    reveal_strlit("987654321");
    assert(forall|j: int|
        0 <= j < "987654321"@.len() ==> crate::text::is_phone_char(#[trigger] "987654321"@[j]))
        by {
        let s = "987654321"@;
        assert(crate::text::is_phone_char(s[0]));
        assert(crate::text::is_phone_char(s[1]));
        assert(crate::text::is_phone_char(s[2]));
        assert(crate::text::is_phone_char(s[3]));
        assert(crate::text::is_phone_char(s[4]));
        assert(crate::text::is_phone_char(s[5]));
        assert(crate::text::is_phone_char(s[6]));
        assert(crate::text::is_phone_char(s[7]));
        assert(crate::text::is_phone_char(s[8]));
    }
}

impl Organization {
    /// Builds the stand-in organization.
    pub fn placeholder() -> (r: Organization)
        ensures
            r@ == spec_placeholder_org(),
    {
        let email = match Email::parse(String::from_str("test@email.com")) {
            Ok(e) => e,
            Err(_) => {
                proof {
                    lemma_placeholder_email_valid();
                }
                unreached()
            },
        };
        let phone = match Phone::parse(String::from_str("987654321")) {
            Ok(p) => p,
            Err(_) => {
                proof {
                    lemma_placeholder_phone_valid();
                }
                unreached()
            },
        };
        let r = Organization {
            id: Id(PLACEHOLDER_ORG_ID),
            name: String::new(),
            email,
            phone,
            address: Address::default(),
        };
        proof {
            assert(r@ =~= spec_placeholder_org());
        }
        r
    }
}

} // verus!
