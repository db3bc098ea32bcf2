//! Execution identifiers: 128-bit numbers, written as UUIDs.

use vstd::arithmetic::power::pow;
use vstd::prelude::*;

verus! {

/// A hexadecimal digit, in lower case.
pub open spec fn hex_digit(n: int) -> char {
    if n < 10 {
        (48 + n) as char
    } else {
        (87 + n) as char
    }
}

/// A hexadecimal digit of an identifier, the highest one first.
pub open spec fn id_digit(id: u128, k: int) -> int {
    (id as int / pow(16, (31 - k) as nat)) % 16
}

/// The hyphenated text of an identifier: groups of eight, four, four, four and
/// twelve hexadecimal digits.
pub open spec fn id_text(id: u128) -> Seq<char> {
    Seq::new(
        36,
        |i: int|
            if i == 8 || i == 13 || i == 18 || i == 23 {
                '-'
            } else {
                hex_digit(
                    id_digit(
                        id,
                        if i < 8 {
                            i
                        } else if i < 13 {
                            i - 1
                        } else if i < 18 {
                            i - 2
                        } else if i < 23 {
                            i - 3
                        } else {
                            i - 4
                        },
                    ),
                )
            },
    )
}

/// What `uuid::Uuid::parse_str` makes of a text: nothing where the text is
/// rejected.
pub uninterp spec fn id_parsed(text: Seq<char>) -> Option<u128>;

/// Reads an identifier, by `uuid::Uuid::parse_str`. Which texts are accepted,
/// and what they stand for, is [`id_parsed`].
#[verifier::external_body]
pub(crate) fn parse_uuid(text: &str) -> (id: Option<u128>)
    ensures
        id == id_parsed(text@),
{
    uuid::Uuid::parse_str(text).ok().map(|id| id.as_u128())
}

/// Writes an identifier as hyphenated text in lower case, by the `Display` of
/// `uuid::Uuid`; `uuid::Uuid::parse_str` reads that text back.
#[verifier::external_body]
pub(crate) fn uuid_to_string(id: u128) -> (text: String)
    ensures
        text@ == id_text(id),
        id_parsed(text@) == Some(id),
{
    uuid::Uuid::from_u128(id).to_string()
}

/// Draws a random identifier, by `uuid::Uuid::new_v4`: its version digit is
/// four and its two variant bits are one and zero.
#[verifier::external_body]
pub(crate) fn new_uuid() -> (id: u128)
    ensures
        id_digit(id, 12) == 4,
        8 <= id_digit(id, 16) < 12,
{
    uuid::Uuid::new_v4().as_u128()
}

/// The identifier that a caller gave, or a new one.
pub fn id_or_new(given: Option<u128>) -> (id: u128)
    ensures
        given matches Some(g) ==> id == g,
        given is None ==> id_digit(id, 12) == 4 && 8 <= id_digit(id, 16) < 12,
{
    match given {
        Some(id) => id,
        None => new_uuid(),
    }
}

} // verus!
