//! Decimal numbers as text.

use vstd::prelude::*;

verus! {

/// Whether a character is a decimal digit.
pub open spec fn is_digit(c: char) -> bool {
    '0' <= c <= '9'
}

/// The number that a row of decimal digits stands for.
pub open spec fn digits_value(digits: Seq<char>) -> nat
    decreases digits.len(),
{
    if digits.len() == 0 {
        0
    } else {
        digits_value(digits.drop_last()) * 10 + (digits.last() as nat - '0' as nat) as nat
    }
}

/// A row of decimal digits.
pub open spec fn is_number(text: Seq<char>) -> bool {
    text.len() > 0 && forall|i: int| 0 <= i < text.len() ==> is_digit(#[trigger] text[i])
}

/// The integer that a decimal text stands for: digits behind an optional sign.
pub open spec fn integer_value(text: Seq<char>) -> Option<int> {
    if is_number(text) {
        Some(digits_value(text) as int)
    } else if text.len() > 0 && text[0] == '+' && is_number(text.skip(1)) {
        Some(digits_value(text.skip(1)) as int)
    } else if text.len() > 0 && text[0] == '-' && is_number(text.skip(1)) {
        Some(-(digits_value(text.skip(1)) as int))
    } else {
        None
    }
}

/// The 64-bit version number that a decimal text stands for.
pub open spec fn version_value(text: Seq<char>) -> Option<i64> {
    match integer_value(text) {
        Some(n) => if i64::MIN <= n <= i64::MAX {
            Some(n as i64)
        } else {
            None
        },
        None => None,
    }
}

/// The port number that a decimal text stands for. A minus sign is rejected.
pub open spec fn port_value(text: Seq<char>) -> Option<u16> {
    match integer_value(text) {
        Some(n) => if text[0] != '-' && n <= u16::MAX {
            Some(n as u16)
        } else {
            None
        },
        None => None,
    }
}

/// The shortest decimal text of a natural number.
pub open spec fn nat_text(n: nat) -> Seq<char>
    decreases n,
{
    if n < 10 {
        seq![(48 + n) as char]
    } else {
        nat_text(n / 10).push((48 + n % 10) as char)
    }
}

/// The shortest decimal text of an integer.
pub open spec fn int_text(n: int) -> Seq<char> {
    if n < 0 {
        seq!['-'] + nat_text((-n) as nat)
    } else {
        nat_text(n as nat)
    }
}

/// Reads a version number, by `str::parse::<i64>`: an optional sign, then only
/// digits, of a number that 64 bits hold.
#[verifier::external_body]
pub(crate) fn parse_version(text: &str) -> (version: Option<i64>)
    ensures
        version == version_value(text@),
{
    text.parse::<i64>().ok()
}

/// Reads a port number, by `str::parse::<u16>`: an optional plus sign, then
/// only digits, of a number that 16 bits hold.
#[verifier::external_body]
pub(crate) fn parse_port(text: &str) -> (port: Option<u16>)
    ensures
        port == port_value(text@),
{
    text.parse::<u16>().ok()
}

/// Writes a version number in decimal, by `i64::to_string`.
#[verifier::external_body]
pub(crate) fn version_text(version: i64) -> (text: String)
    ensures
        text@ == int_text(version as int),
{
    version.to_string()
}

/// Writes a port number in decimal, by `u16::to_string`.
#[verifier::external_body]
pub(crate) fn port_text(port: u16) -> (text: String)
    ensures
        text@ == nat_text(port as nat),
{
    port.to_string()
}

/// The text of a natural number is a row of digits that stands for it.
proof fn lemma_nat_text(n: nat)
    ensures
        is_number(nat_text(n)),
        digits_value(nat_text(n)) == n,
    decreases n,
{
    if n < 10 {
        let text = nat_text(n);
        assert(text.drop_last() =~= Seq::<char>::empty());
        assert(digits_value(text.drop_last()) == 0);
    } else {
        lemma_nat_text(n / 10);
        assert(nat_text(n).drop_last() =~= nat_text(n / 10));
    }
}

/// A version number that was written in decimal is read back as it was.
pub proof fn law_version_text_round_trip(version: i64)
    ensures
        version_value(int_text(version as int)) == Some(version),
{
    if version < 0 {
        let digits = nat_text((-version) as nat);
        lemma_nat_text((-version) as nat);
        let text = int_text(version as int);
        assert(text[0] == '-');
        assert(!is_digit(text[0]));
        assert(text.skip(1) =~= digits);
    } else {
        lemma_nat_text(version as nat);
    }
}

/// A port number that was written in decimal is read back as it was.
pub proof fn law_port_text_round_trip(port: u16)
    ensures
        port_value(nat_text(port as nat)) == Some(port),
{
    lemma_nat_text(port as nat);
    assert(is_digit(nat_text(port as nat)[0]));
}

} // verus!
