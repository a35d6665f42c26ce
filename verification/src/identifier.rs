//! 128-bit identifiers of users, groups and files.

use vstd::arithmetic::power::pow;
use vstd::prelude::*;

verus! {

/// A UUID as its 128-bit value, most significant byte first.
#[derive(Clone, Copy, PartialEq, Eq, Structural, Hash, Debug)]
pub struct Uuid {
    pub value: u128,
}

/// The lowercase hexadecimal digit for a number below sixteen.
pub open spec fn hex_digit(d: int) -> char {
    if d < 10 {
        crate::text::decimal_digit(d as nat)
    } else if d == 10 {
        'a'
    } else if d == 11 {
        'b'
    } else if d == 12 {
        'c'
    } else if d == 13 {
        'd'
    } else if d == 14 {
        'e'
    } else {
        'f'
    }
}

/// The `k`-th of the 32 hexadecimal digits of a value, the most significant
/// first.
pub open spec fn hex_digit_at(value: u128, k: int) -> char {
    hex_digit((value as int / pow(16, (31 - k) as nat)) % 16)
}

/// The hyphenated form of a UUID: its 32 lowercase hexadecimal digits in
/// groups of 8, 4, 4, 4 and 12.
pub open spec fn hyphenated(value: u128) -> Seq<char> {
    Seq::new(
        36,
        |i: int|
            if i == 8 || i == 13 || i == 18 || i == 23 {
                '-'
            } else if i < 8 {
                hex_digit_at(value, i)
            } else if i < 13 {
                hex_digit_at(value, i - 1)
            } else if i < 18 {
                hex_digit_at(value, i - 2)
            } else if i < 23 {
                hex_digit_at(value, i - 3)
            } else {
                hex_digit_at(value, i - 4)
            },
    )
}

/// Calls `Uuid::from_u128` and `to_string` of the `uuid` crate, whose
/// `Display` writes the hyphenated form in lowercase.
#[verifier::external_body]
fn uuid_to_string(value: u128) -> (text: String)
    ensures
        text@ == hyphenated(value),
{
    uuid::Uuid::from_u128(value).to_string()
}

/// What `Uuid::parse_str` of the `uuid` crate makes of a text: the value, or
/// nothing where it reports an error.
pub uninterp spec fn parsed_uuid(text: Seq<char>) -> Option<u128>;

/// Calls `Uuid::parse_str` of the `uuid` crate. It accepts several notations,
/// which are not written out here; the hyphenated form of a value is among
/// them and gives that value back.
#[verifier::external_body]
fn uuid_parse_str(text: &str) -> (value: Option<u128>)
    ensures
        value == parsed_uuid(text@),
        forall|v: u128| text@ == #[trigger] hyphenated(v) ==> value == Some(v),
{
    uuid::Uuid::parse_str(text).ok().map(|u| u.as_u128())
}

impl Uuid {
    /// The hyphenated form.
    pub fn to_text(&self) -> (text: String)
        ensures
            text@ == hyphenated(self.value),
    {
        uuid_to_string(self.value)
    }

    /// The UUID that `text` denotes, if it denotes one.
    pub fn parse(text: &str) -> (parsed: Option<Uuid>)
        ensures
            parsed is Some <==> parsed_uuid(text@) is Some,
            parsed is Some ==> Some(parsed->0.value) == parsed_uuid(text@),
            forall|v: u128| text@ == #[trigger] hyphenated(v) ==> parsed == Some(Uuid { value: v }),
    {
        match uuid_parse_str(text) {
            Some(value) => Some(Uuid { value }),
            None => None,
        }
    }
}

} // verus!
