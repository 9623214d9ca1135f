//! Wire shape of a certificate recipient.

use vstd::prelude::*;

use crate::base::valid_uuid_value;

verus! {

/// Mathematical shape of a [`RecipientDto`].
#[verifier::ext_equal]
pub struct RecipientDtoView {
    pub id: u128,
    pub first_name: Seq<char>,
    pub last_name: Seq<char>,
    pub email: Seq<char>,
    pub phone: Seq<char>,
}

/// The recipient as submitted on the wire. The identifier is the 128-bit
/// value of the submitted UUID.
#[derive(Clone, Debug, PartialEq, Eq)]
pub struct RecipientDto {
    pub id: u128,
    pub first_name: String,
    pub last_name: String,
    pub email: String,
    pub phone: String,
}

impl View for RecipientDto {
    type V = RecipientDtoView;

    open spec fn view(&self) -> RecipientDtoView {
        RecipientDtoView {
            id: self.id,
            first_name: self.first_name@,
            last_name: self.last_name@,
            email: self.email@,
            phone: self.phone@,
        }
    }
}

/// A recipient is valid when its identifier is neither the nil nor the
/// max UUID and its first name, last name and email are non-empty.
pub open spec fn spec_recipient_valid(d: RecipientDtoView) -> bool {
    &&& valid_uuid_value(d.id)
    &&& d.first_name.len() > 0
    &&& d.last_name.len() > 0
    &&& d.email.len() > 0
}

impl RecipientDto {
    /// Decides whether this recipient passes validation.
    pub fn is_valid(&self) -> (r: bool)
        ensures
            r == spec_recipient_valid(self@),
    {
        self.id != 0 && self.id != u128::MAX && !self.first_name.as_str().is_empty()
            && !self.last_name.as_str().is_empty() && !self.email.as_str().is_empty()
    }
}

} // verus!
