//! Basic value objects shared by the domain entities.

use vstd::prelude::*;

use crate::error::{InvalidEmailError, InvalidPhoneError};
use crate::text::{check_email, check_phone, is_valid_email, is_valid_phone};

verus! {

/// A record identifier is stored as the 128-bit value of a UUID.
/// The nil UUID (all zero bits) and the max UUID (all one bits) are
/// reserved sentinels and never identify a record.
pub open spec fn valid_uuid_value(v: u128) -> bool {
    v != 0 && v != u128::MAX
}

/// Identifier value object: a UUID value that is neither nil nor max.
#[derive(Clone, Copy, Debug, PartialEq, Eq, Structural)]
pub struct Id(pub u128);

impl Id {
    /// The identifier invariant: the wrapped value is non-nil and non-max.
    pub open spec fn wf(self) -> bool {
        valid_uuid_value(self.0)
    }

    /// Accepts a UUID value exactly when it is neither the nil nor the
    /// max sentinel.
    pub fn parse(id: u128) -> (r: Result<Id, crate::error::InvalidIdError>)
        ensures
            r is Ok <==> valid_uuid_value(id),
            r matches Ok(i) ==> i == (Id(id)),
    {
        if id == 0 || id == u128::MAX {
            Err(crate::error::InvalidIdError)
        } else {
            Ok(Id(id))
        }
    }

    /// The raw UUID value of this identifier.
    pub fn as_uuid(&self) -> (r: u128)
        ensures
            r == self.0,
    {
        self.0
    }
}

/// Mathematical shape of a [`Name`].
#[verifier::ext_equal]
pub struct NameView {
    pub first_name: Seq<char>,
    pub middle_name: Option<Seq<char>>,
    pub last_name: Seq<char>,
}

/// A person's name; the middle name is optional.
#[derive(Clone, Debug, PartialEq, Eq)]
pub struct Name {
    pub first_name: String,
    pub middle_name: Option<String>,
    pub last_name: String,
}

impl View for Name {
    type V = NameView;

    open spec fn view(&self) -> NameView {
        NameView {
            first_name: self.first_name@,
            middle_name: match self.middle_name {
                Some(m) => Some(m@),
                None => None,
            },
            last_name: self.last_name@,
        }
    }
}

/// The space-separated rendering of a name, middle name included when
/// present.
pub open spec fn spec_full_name(n: NameView) -> Seq<char> {
    match n.middle_name {
        Some(m) => n.first_name + " "@ + m + " "@ + n.last_name,
        None => n.first_name + " "@ + n.last_name,
    }
}

impl Name {
    /// Renders the name as first, optional middle, and last, separated by
    /// single spaces.
    pub fn full_name(&self) -> (r: String)
        ensures
            r@ == spec_full_name(self@),
    {
        let mut r = self.first_name.clone();
        r.append(" ");
        match &self.middle_name {
            Some(m) => {
                r.append(m.as_str());
                r.append(" ");
            },
            None => {},
        }
        r.append(self.last_name.as_str());
        proof {
            assert(r@ =~= spec_full_name(self@));
        }
        r
    }
}

/// Email address value object; the wrapped text has the accepted email
/// shape whenever the value was made by [`Email::parse`].
#[derive(Clone, Debug, PartialEq, Eq)]
pub struct Email(pub String);

impl View for Email {
    type V = Seq<char>;

    open spec fn view(&self) -> Seq<char> {
        self.0@
    }
}

impl Email {
    /// Accepts the text exactly when it has the accepted email shape.
    pub fn parse(email: String) -> (r: Result<Email, InvalidEmailError>)
        ensures
            r is Ok <==> is_valid_email(email@),
            r matches Ok(e) ==> e@ == email@,
    {
        if check_email(email.as_str()) {
            Ok(Email(email))
        } else {
            Err(InvalidEmailError)
        }
    }

    /// The address as text.
    pub fn as_string(&self) -> (r: String)
        ensures
            r@ == self@,
    {
        self.0.clone()
    }
}

/// Phone number value object; the wrapped text has the accepted phone
/// shape whenever the value was made by [`Phone::parse`].
#[derive(Clone, Debug, PartialEq, Eq)]
pub struct Phone(String);

impl View for Phone {
    type V = Seq<char>;

    closed spec fn view(&self) -> Seq<char> {
        self.0@
    }
}

impl Phone {
    /// Accepts the text exactly when it has the accepted phone shape.
    pub fn parse(phone: String) -> (r: Result<Phone, InvalidPhoneError>)
        ensures
            r is Ok <==> is_valid_phone(phone@),
            r matches Ok(p) ==> p@ == phone@,
    {
        if check_phone(phone.as_str()) {
            Ok(Phone(phone))
        } else {
            Err(InvalidPhoneError)
        }
    }

    /// The number as text.
    pub fn as_string(&self) -> (r: String)
        ensures
            r@ == self@,
    {
        self.0.clone()
    }
}

/// Mathematical shape of an [`Address`].
#[verifier::ext_equal]
pub struct AddressView {
    pub street: Seq<char>,
    pub city: Seq<char>,
    pub building_number: Seq<char>,
    pub country: Seq<char>,
    pub postal_code: Seq<char>,
}

/// A postal address. No field is validated; the empty address stands in
/// where no address is known.
#[derive(Clone, Debug, PartialEq, Eq)]
pub struct Address {
    pub street: String,
    pub city: String,
    pub building_number: String,
    pub country: String,
    pub postal_code: String,
}

impl View for Address {
    type V = AddressView;

    open spec fn view(&self) -> AddressView {
        AddressView {
            street: self.street@,
            city: self.city@,
            building_number: self.building_number@,
            country: self.country@,
            postal_code: self.postal_code@,
        }
    }
}

/// The address with every field empty.
pub open spec fn spec_empty_address() -> AddressView {
    AddressView {
        street: Seq::empty(),
        city: Seq::empty(),
        building_number: Seq::empty(),
        country: Seq::empty(),
        postal_code: Seq::empty(),
    }
}

impl Default for Address {
    /// The default address is the empty address.
    fn default() -> (r: Address)
        ensures
            r@ == spec_empty_address(),
    {
        let r = Address {
            street: String::new(),
            city: String::new(),
            building_number: String::new(),
            country: String::new(),
            postal_code: String::new(),
        };
        proof {
            assert(r@ =~= spec_empty_address());
        }
        r
    }
}

/// A structured assessment score: the achieved value together with the
/// scale it was measured on and the threshold that counts as passing.
#[derive(Clone, Copy, Debug, PartialEq, Eq, Structural)]
pub struct Score {
    pub value: u32,
    pub max: u32,
    pub min: u32,
    pub passing_score: u32,
}

impl Score {
    /// Builds a score from its four components.
    pub fn new(value: u32, max: u32, min: u32, passing_score: u32) -> (r: Score)
        ensures
            r == (Score { value, max, min, passing_score }),
    {
        Score { value, max, min, passing_score }
    }
}

/// Whether an assessment was passed.
#[derive(Clone, Copy, Debug, PartialEq, Eq, Structural)]
pub enum AssessmentResult {
    Fail,
    Pass,
}

} // verus!
