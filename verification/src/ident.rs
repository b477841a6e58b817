//! Identifiers of users, calendars, events and shares.
//!
//! An identifier is a 128-bit number. Its text forms are those of the `uuid`
//! crate, which reads and writes them.

use vstd::prelude::*;

verus! {

/// The error that `uuid` reports for a string that is no identifier.
#[verifier::external_type_specification]
#[verifier::external_body]
pub struct ExUuidError(uuid::Error);

/// The number that `uuid::Uuid::parse_str` reads from a string, if it reads one.
pub uninterp spec fn parsed_uuid(s: Seq<char>) -> Option<u128>;

/// The lower-case hexadecimal digit for `d` in `0..16`.
pub open spec fn hex_char(d: int) -> char {
    seq!['0', '1', '2', '3', '4', '5', '6', '7', '8', '9', 'a', 'b', 'c', 'd', 'e', 'f'][d]
}

/// The last `digits` hexadecimal digits of `v`, most significant first.
pub open spec fn hex_text(v: nat, digits: nat) -> Seq<char>
    decreases digits,
{
    if digits == 0 {
        Seq::empty()
    } else {
        hex_text(v / 16, (digits - 1) as nat).push(hex_char((v % 16) as int))
    }
}

/// The canonical text of an identifier: 32 lower-case hexadecimal digits in
/// groups of 8, 4, 4, 4 and 12, joined by hyphens.
pub open spec fn uuid_text(v: u128) -> Seq<char> {
    let h = hex_text(v as nat, 32);
    h.subrange(0, 8) + seq!['-'] + h.subrange(8, 12) + seq!['-'] + h.subrange(12, 16) + seq!['-']
        + h.subrange(16, 20) + seq!['-'] + h.subrange(20, 32)
}

/// What a parse attempt found, without the error's detail.
pub open spec fn found(r: Result<u128, uuid::Error>) -> Option<u128> {
    match r {
        Ok(v) => Some(v),
        Err(_) => None,
    }
}

/// Calls `uuid::Uuid::parse_str` and hands the identifier out as a number.
/// Trusted: the result is what `parsed_uuid` names for the same text.
#[verifier::external_body]
pub(crate) fn uuid_parse_str(s: &str) -> (r: Result<u128, uuid::Error>)
    ensures
        found(r) == parsed_uuid(s@),
{
    match uuid::Uuid::parse_str(s) {
        Ok(u) => Ok(u.as_u128()),
        Err(e) => Err(e),
    }
}

/// Calls the `Display` of `uuid::Uuid`, which writes the hyphenated lower-case form.
/// Trusted: the text is `uuid_text` of the number.
#[verifier::external_body]
pub(crate) fn uuid_to_string(v: u128) -> (s: String)
    ensures
        s@ == uuid_text(v),
{
    uuid::Uuid::from_u128(v).to_string()
}

/// An opaque unique token naming a user, a calendar, an event or a share.
#[derive(Clone, Copy, Debug, PartialEq, Eq, Hash, Structural)]
pub struct Id {
    pub value: u128,
}

impl Id {
    /// The identifier with the given number.
    pub fn from_u128(value: u128) -> (id: Id)
        ensures
            id.value == value,
    {
        Id { value }
    }

    /// The identifier's number.
    pub fn as_u128(&self) -> (value: u128)
        ensures
            value == self.value,
    {
        self.value
    }

    /// Reads an identifier from any of the text forms that `uuid` accepts.
    pub fn parse_str(s: &str) -> (r: Result<Id, uuid::Error>)
        ensures
            match parsed_uuid(s@) {
                Some(v) => r == Ok::<Id, uuid::Error>(Id { value: v }),
                None => r is Err,
            },
    {
        match uuid_parse_str(s) {
            Ok(value) => Ok(Id { value }),
            Err(e) => Err(e),
        }
    }

    /// The canonical (hyphenated, lower-case) text of the identifier.
    pub fn to_string(&self) -> (s: String)
        ensures
            s@ == uuid_text(self.value),
    {
        uuid_to_string(self.value)
    }
}

} // verus!
