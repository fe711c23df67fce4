//! Identifiers of users and sessions: opaque text values, freshly drawn at random
//! when a user or a session is created.

use vstd::prelude::*;

verus! {

/// Whether `c` is a lower-case hexadecimal digit.
pub open spec fn is_lower_hex(c: char) -> bool {
    ('0' <= c <= '9') || ('a' <= c <= 'f')
}

/// Whether `s` is a UUID in the hyphenated form: 36 characters, hyphens at
/// positions 8, 13, 18 and 23, lower-case hexadecimal digits elsewhere.
pub open spec fn is_hyphenated_uuid(s: Seq<char>) -> bool {
    &&& s.len() == 36
    &&& forall|i: int|
        0 <= i < 36 ==> if i == 8 || i == 13 || i == 18 || i == 23 {
            s[i] == '-'
        } else {
            is_lower_hex(#[trigger] s[i])
        }
}

/// Draws a new random identifier with `uuid::Uuid::new_v4` and writes it with
/// `Display`, which `uuid` writes as lower-case hyphenated hexadecimal
/// (`format_hyphenated`). Which digits are drawn is not claimed.
#[verifier::external_body]
fn random_id_value() -> (res: String)
    ensures
        is_hyphenated_uuid(res@),
{
    uuid::Uuid::new_v4().to_string()
}

/// The identifier of a user.
pub struct UserId {
    value: String,
}

/// The identifier of a session.
pub struct SessionId {
    value: String,
}

impl View for UserId {
    type V = Seq<char>;

    open spec fn view(&self) -> Seq<char> {
        self.spec_value()@
    }
}

impl View for SessionId {
    type V = Seq<char>;

    open spec fn view(&self) -> Seq<char> {
        self.spec_value()@
    }
}

impl UserId {
    pub closed spec fn spec_value(&self) -> String {
        self.value
    }

    /// A fresh random identifier.
    pub fn new() -> (res: Self)
        ensures
            res@.len() == 36,
            is_hyphenated_uuid(res@),
    {
        UserId { value: random_id_value() }
    }

    /// The identifier whose text is `value`.
    pub fn from_value(value: String) -> (res: Self)
        ensures
            res@ == value@,
    {
        UserId { value }
    }

    /// The identifier's text.
    pub fn value(&self) -> (res: &str)
        ensures
            res@ == self@,
    {
        self.value.as_str()
    }

    /// A copy of the identifier.
    pub fn duplicate(&self) -> (res: Self)
        ensures
            res@ == self@,
    {
        UserId { value: self.value.clone() }
    }

    /// Whether the two identifiers are the same.
    pub fn same_as(&self, other: &Self) -> (res: bool)
        ensures
            res == (self@ == other@),
    {
        self.value == other.value
    }
}

impl SessionId {
    pub closed spec fn spec_value(&self) -> String {
        self.value
    }

    /// A fresh random identifier.
    pub fn new() -> (res: Self)
        ensures
            res@.len() == 36,
            is_hyphenated_uuid(res@),
    {
        SessionId { value: random_id_value() }
    }

    /// The identifier whose text is `value`.
    pub fn from_value(value: String) -> (res: Self)
        ensures
            res@ == value@,
    {
        SessionId { value }
    }

    /// The identifier's text.
    pub fn value(&self) -> (res: &str)
        ensures
            res@ == self@,
    {
        self.value.as_str()
    }

    /// A copy of the identifier.
    pub fn duplicate(&self) -> (res: Self)
        ensures
            res@ == self@,
    {
        SessionId { value: self.value.clone() }
    }

    /// Whether the two identifiers are the same.
    pub fn same_as(&self, other: &Self) -> (res: bool)
        ensures
            res == (self@ == other@),
    {
        self.value == other.value
    }
}

} // verus!
