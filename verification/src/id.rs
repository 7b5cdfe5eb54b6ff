//! Identifiers of users, content and subscriptions, and their text form.

use vstd::prelude::*;
use crate::text::text_of;

verus! {

/// A 128-bit identifier. It is written as 32 lower-case hexadecimal digits in
/// groups of 8, 4, 4, 4 and 12, the groups joined by hyphens.
#[derive(Clone, Copy, Debug, PartialEq, Eq, Structural, Hash)]
pub struct Id {
    pub value: u128,
}

/// The lower-case hexadecimal digit for a number below 16.
pub open spec fn hex_digit(nibble: u128) -> char {
    if nibble < 10 {
        ((nibble + 0x30) as u8) as char
    } else {
        ((nibble + 0x57) as u8) as char
    }
}

/// The `k`-th hexadecimal digit of `value`, counted from the most significant
/// one, which is digit 0; the least significant one is digit 31.
pub open spec fn nibble(value: u128, k: int) -> u128 {
    (value >> ((124 - 4 * k) as u128)) & 0xf
}

/// Which digit stands at index `i` of the text form. The text has 36 places;
/// places 8, 13, 18 and 23 hold hyphens.
pub open spec fn digit_at(i: int) -> int {
    if i < 8 {
        i
    } else if i < 13 {
        i - 1
    } else if i < 18 {
        i - 2
    } else if i < 23 {
        i - 3
    } else {
        i - 4
    }
}

/// The text form of the identifier `value`:
/// `0xa1a2a3a4b1b2c1c2d1d2d3d4d5d6d7d8` is written
/// `a1a2a3a4-b1b2-c1c2-d1d2-d3d4d5d6d7d8`.
pub open spec fn hyphenated(value: u128) -> Seq<char> {
    Seq::new(
        36,
        |i: int|
            if i == 8 || i == 13 || i == 18 || i == 23 {
                '-'
            } else {
                hex_digit(nibble(value, digit_at(i)))
            },
    )
}

/// What `uuid::Uuid::parse_str` makes of a text: the 128-bit value of the
/// identifier it reads, or `None` where it reports an error.
pub uninterp spec fn parsed_uuid(text: Seq<char>) -> Option<u128>;

/// Different digits are written differently.
pub proof fn lemma_hex_digit_injective(a: u128, b: u128)
    requires
        a < 16,
        b < 16,
        hex_digit(a) == hex_digit(b),
    ensures
        a == b,
{
}

proof fn lemma_nibble_range(value: u128, shift: u128)
    ensures
        (value >> shift) & 0xf < 16,
{
    assert((value >> shift) & 0xf < 16) by (bit_vector);
}

proof fn lemma_digits_fix_value(a: u128, b: u128)
    requires
        forall|k: int| 0 <= k < 32 ==> nibble(a, k) == nibble(b, k),
    ensures
        a == b,
{
    assert(nibble(a, 0) == nibble(b, 0) && nibble(a, 1) == nibble(b, 1) && nibble(a, 2) == nibble(
        b,
        2,
    ) && nibble(a, 3) == nibble(b, 3));
    assert(nibble(a, 4) == nibble(b, 4) && nibble(a, 5) == nibble(b, 5) && nibble(a, 6) == nibble(
        b,
        6,
    ) && nibble(a, 7) == nibble(b, 7));
    assert(nibble(a, 8) == nibble(b, 8) && nibble(a, 9) == nibble(b, 9) && nibble(a, 10) == nibble(
        b,
        10,
    ) && nibble(a, 11) == nibble(b, 11));
    assert(nibble(a, 12) == nibble(b, 12) && nibble(a, 13) == nibble(b, 13) && nibble(a, 14)
        == nibble(b, 14) && nibble(a, 15) == nibble(b, 15));
    assert(nibble(a, 16) == nibble(b, 16) && nibble(a, 17) == nibble(b, 17) && nibble(a, 18)
        == nibble(b, 18) && nibble(a, 19) == nibble(b, 19));
    assert(nibble(a, 20) == nibble(b, 20) && nibble(a, 21) == nibble(b, 21) && nibble(a, 22)
        == nibble(b, 22) && nibble(a, 23) == nibble(b, 23));
    assert(nibble(a, 24) == nibble(b, 24) && nibble(a, 25) == nibble(b, 25) && nibble(a, 26)
        == nibble(b, 26) && nibble(a, 27) == nibble(b, 27));
    assert(nibble(a, 28) == nibble(b, 28) && nibble(a, 29) == nibble(b, 29) && nibble(a, 30)
        == nibble(b, 30) && nibble(a, 31) == nibble(b, 31));
    assert(a == b) by (bit_vector)
        requires
            (a >> 124) & 0xf == (b >> 124) & 0xf,
            (a >> 120) & 0xf == (b >> 120) & 0xf,
            (a >> 116) & 0xf == (b >> 116) & 0xf,
            (a >> 112) & 0xf == (b >> 112) & 0xf,
            (a >> 108) & 0xf == (b >> 108) & 0xf,
            (a >> 104) & 0xf == (b >> 104) & 0xf,
            (a >> 100) & 0xf == (b >> 100) & 0xf,
            (a >> 96) & 0xf == (b >> 96) & 0xf,
            (a >> 92) & 0xf == (b >> 92) & 0xf,
            (a >> 88) & 0xf == (b >> 88) & 0xf,
            (a >> 84) & 0xf == (b >> 84) & 0xf,
            (a >> 80) & 0xf == (b >> 80) & 0xf,
            (a >> 76) & 0xf == (b >> 76) & 0xf,
            (a >> 72) & 0xf == (b >> 72) & 0xf,
            (a >> 68) & 0xf == (b >> 68) & 0xf,
            (a >> 64) & 0xf == (b >> 64) & 0xf,
            (a >> 60) & 0xf == (b >> 60) & 0xf,
            (a >> 56) & 0xf == (b >> 56) & 0xf,
            (a >> 52) & 0xf == (b >> 52) & 0xf,
            (a >> 48) & 0xf == (b >> 48) & 0xf,
            (a >> 44) & 0xf == (b >> 44) & 0xf,
            (a >> 40) & 0xf == (b >> 40) & 0xf,
            (a >> 36) & 0xf == (b >> 36) & 0xf,
            (a >> 32) & 0xf == (b >> 32) & 0xf,
            (a >> 28) & 0xf == (b >> 28) & 0xf,
            (a >> 24) & 0xf == (b >> 24) & 0xf,
            (a >> 20) & 0xf == (b >> 20) & 0xf,
            (a >> 16) & 0xf == (b >> 16) & 0xf,
            (a >> 12) & 0xf == (b >> 12) & 0xf,
            (a >> 8) & 0xf == (b >> 8) & 0xf,
            (a >> 4) & 0xf == (b >> 4) & 0xf,
            (a >> 0) & 0xf == (b >> 0) & 0xf,
    ;
}

/// Where digit `k` stands in the text form.
pub open spec fn place_of(k: int) -> int {
    if k < 8 {
        k
    } else if k < 12 {
        k + 1
    } else if k < 16 {
        k + 2
    } else if k < 20 {
        k + 3
    } else {
        k + 4
    }
}

/// Two identifiers with the same text form are the same identifier.
pub proof fn lemma_hyphenated_injective(a: u128, b: u128)
    requires
        hyphenated(a) == hyphenated(b),
    ensures
        a == b,
{
    assert forall|k: int| 0 <= k < 32 implies nibble(a, k) == nibble(b, k) by {
        let i = place_of(k);
        assert(digit_at(i) == k);
        assert(hyphenated(a)[i] == hex_digit(nibble(a, k)));
        assert(hyphenated(b)[i] == hex_digit(nibble(b, k)));
        lemma_nibble_range(a, (124 - 4 * k) as u128);
        lemma_nibble_range(b, (124 - 4 * k) as u128);
        lemma_hex_digit_injective(nibble(a, k), nibble(b, k));
    }
    lemma_digits_fix_value(a, b);
}

/// The text form has 36 characters.
pub proof fn lemma_hyphenated_len(value: u128)
    ensures
        hyphenated(value).len() == 36,
{
}

/// Writes an identifier in its text form. The call is
/// `uuid::Uuid::from_u128(value).to_string()`: the crate's `Display` writes the
/// sixteen bytes of the value, most significant first, as two lower-case
/// hexadecimal digits each, with a hyphen after the 4th, 6th, 8th and 10th byte.
#[verifier::external_body]
fn uuid_text(value: u128) -> (text: String)
    ensures
        text@ == hyphenated(value),
{
    uuid::Uuid::from_u128(value).to_string()
}

/// Reads an identifier with `uuid::Uuid::parse_str` and returns its 128-bit
/// value (`Uuid::as_u128`), or `None` where the parser reports an error.
#[verifier::external_body]
fn uuid_parse(text: &str) -> (value: Option<u128>)
    ensures
        value == parsed_uuid(text@),
{
    match uuid::Uuid::parse_str(text) {
        Ok(id) => Some(id.as_u128()),
        Err(_) => None,
    }
}

impl Id {
    /// The text form of the identifier.
    pub fn to_text(&self) -> (text: String)
        ensures
            text@ == hyphenated(self.value),
    {
        uuid_text(self.value)
    }
}

/// The identifier that a request carries, if it carries a readable one.
/// `identity` is the text that authentication attached to the request; a
/// request without one, or with a text that is no identifier, is
/// unauthenticated.
pub open spec fn identified(identity: Option<Seq<char>>) -> Option<Id> {
    match identity {
        Some(text) => match parsed_uuid(text) {
            Some(value) => Some(Id { value }),
            None => None,
        },
        None => None,
    }
}

/// Reads the user's identifier from the identity text of a request.
pub fn get_user_id_from_request(identity: Option<&str>) -> (user: Option<Id>)
    ensures
        user == identified(text_of(identity)),
{
    match identity {
        Some(text) => match uuid_parse(text) {
            Some(value) => Some(Id { value }),
            None => None,
        },
        None => None,
    }
}

} // verus!
