use vstd::arithmetic::power::pow;
use vstd::prelude::*;
use vstd::string::StringExecFns;

use crate::error::AppError;

verus! {

/// The `k`-th hexadecimal digit of `v`, counted from the most significant
/// one (`0 <= k < 32`).
pub open spec fn nibble(v: u128, k: int) -> int {
    (v as int / pow(16, (31 - k) as nat)) % 16
}

pub open spec fn hex_digit(d: int) -> char {
    "0123456789abcdef"@[d]
}

/// Position among the 32 digits of the character at position `p` of the
/// hyphenated form.
pub open spec fn digit_index(p: int) -> int {
    if p < 8 {
        p
    } else if p < 13 {
        p - 1
    } else if p < 18 {
        p - 2
    } else if p < 23 {
        p - 3
    } else {
        p - 4
    }
}

/// The canonical text of an identity: 32 lower-case hexadecimal digits in
/// groups of 8, 4, 4, 4 and 12, separated by hyphens.
pub open spec fn hyphenated(v: u128) -> Seq<char> {
    Seq::new(
        36,
        |p: int|
            if p == 8 || p == 13 || p == 18 || p == 23 {
                '-'
            } else {
                hex_digit(nibble(v, digit_index(p)))
            },
    )
}

/// A randomly generated identity carries version 4 and the RFC 4122 variant.
pub open spec fn is_random_uuid(v: u128) -> bool {
    nibble(v, 12) == 4 && 8 <= nibble(v, 16) < 12
}

/// What `uuid::Uuid::parse_str` makes of a text, as a 128-bit value.
pub uninterp spec fn parsed_uuid(s: Seq<char>) -> Option<u128>;

/// Relies on uuid::Uuid::new_v4, which sets the version and variant bits of
/// a random value (it panics only when the system's random source fails).
#[verifier::external_body]
fn random_uuid() -> (r: u128)
    ensures
        is_random_uuid(r),
{
    uuid::Uuid::new_v4().as_u128()
}

/// Relies on uuid::Uuid::parse_str; the value is the parsed bytes in
/// big-endian order, and the hyphenated form of a value parses back to it.
#[verifier::external_body]
pub(crate) fn parse_uuid(s: &str) -> (r: Option<u128>)
    ensures
        r == parsed_uuid(s@),
        forall|v: u128| #[trigger] hyphenated(v) == s@ ==> r == Some(v),
{
    match uuid::Uuid::parse_str(s) {
        Ok(u) => Some(u.as_u128()),
        Err(_) => None,
    }
}

/// Relies on the `Display` impl of uuid::Uuid, which writes the lower-case
/// hyphenated form.
#[verifier::external_body]
fn uuid_text(v: u128) -> (r: String)
    ensures
        r@ == hyphenated(v),
{
    uuid::Uuid::from_u128(v).to_string()
}

pub open spec fn invalid_id_message() -> Seq<char> {
    "invalid user id"@
}

/// The identity of a user: a 128-bit universally unique identifier.
#[derive(Clone, Copy, Debug, Default, PartialEq, Eq)]
pub struct UserId {
    value: u128,
}

impl View for UserId {
    type V = u128;

    closed spec fn view(&self) -> u128 {
        self.value
    }
}

impl UserId {
    /// Generates a fresh random identity.
    pub fn new() -> (r: UserId)
        ensures
            is_random_uuid(r@),
    {
        UserId { value: random_uuid() }
    }

    /// The identity with the given 128-bit value.
    pub fn from_u128(value: u128) -> (r: UserId)
        ensures
            r@ == value,
    {
        UserId { value }
    }

    /// The identity's 128-bit value.
    pub fn as_u128(&self) -> (r: u128)
        ensures
            r == self@,
    {
        self.value
    }

    /// Turns the outcome of parsing an identity's text into an identity, or
    /// an `InvalidArgument` error when the text was not well formed.
    pub fn from_parsed(parsed: Option<u128>) -> (r: Result<UserId, AppError>)
        ensures
            parsed is Some <==> r is Ok,
            parsed is Some ==> r->Ok_0@ == parsed->Some_0,
            parsed is None ==> r->Err_0 is InvalidArgument && r->Err_0.spec_message()
                == invalid_id_message(),
    {
        match parsed {
            Some(value) => Ok(UserId { value }),
            None => Err(AppError::InvalidArgument(String::from_str("invalid user id"))),
        }
    }

    /// Parses the text form of an identity.
    pub fn from_str(s: &str) -> (r: Result<UserId, AppError>)
        ensures
            parsed_uuid(s@) is Some <==> r is Ok,
            r is Ok ==> r->Ok_0@ == parsed_uuid(s@)->Some_0,
            r is Err ==> r->Err_0 is InvalidArgument && r->Err_0.spec_message()
                == invalid_id_message(),
    {
        UserId::from_parsed(parse_uuid(s))
    }

    /// The canonical hyphenated text of the identity.
    pub fn to_text(&self) -> (r: String)
        ensures
            r@ == hyphenated(self@),
    {
        uuid_text(self.value)
    }
}

} // verus!
