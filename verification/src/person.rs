//! The person a certificate was issued to.

use vstd::prelude::*;

use crate::base::{Email, Id, Name, NameView, Phone};

verus! {

/// Mathematical shape of a [`Person`].
#[verifier::ext_equal]
pub struct PersonView {
    pub id: Id,
    pub name: NameView,
    pub email: Seq<char>,
    pub phone: Option<Seq<char>>,
}

/// The recipient of a certificate. Its identifier is the owning user's
/// identifier.
#[derive(Clone, Debug, PartialEq, Eq)]
pub struct Person {
    pub id: Id,
    pub name: Name,
    pub email: Email,
    pub phone: Option<Phone>,
}

impl View for Person {
    type V = PersonView;

    open spec fn view(&self) -> PersonView {
        PersonView {
            id: self.id,
            name: self.name@,
            email: self.email@,
            phone: match self.phone {
                Some(p) => Some(p@),
                None => None,
            },
        }
    }
}

/// The stand-in person used where a stored record names only the owning
/// user: the given identifier, empty names, the placeholder email, and no
/// phone.
pub open spec fn spec_placeholder_person(id: Id) -> PersonView {
    PersonView {
        id,
        name: NameView { first_name: Seq::empty(), middle_name: None, last_name: Seq::empty() },
        email: "test@email.com"@,
        phone: None,
    }
}

impl Person {
    /// Builds the stand-in person for the given identifier.
    pub fn placeholder(id: Id) -> (r: Person)
        ensures
            r@ == spec_placeholder_person(id),
    {
        let r = Person {
            id,
            name: Name {
                first_name: String::new(),
                middle_name: None,
                last_name: String::new(),
            },
            email: Email(String::from_str("test@email.com")),
            phone: None,
        };
        proof {
            assert(r@ =~= spec_placeholder_person(id));
        }
        r
    }
}

} // verus!
