//! Identifiers as text. A user's identifier is a 128-bit number; its text is
//! the hyphenated form of a UUID.

use vstd::arithmetic::power::pow;
use vstd::prelude::*;

verus! {

/// The lower-case character that stands for the hexadecimal digit `d`.
pub open spec fn hex_char(d: int) -> char {
    if d == 0 {
        '0'
    } else if d == 1 {
        '1'
    } else if d == 2 {
        '2'
    } else if d == 3 {
        '3'
    } else if d == 4 {
        '4'
    } else if d == 5 {
        '5'
    } else if d == 6 {
        '6'
    } else if d == 7 {
        '7'
    } else if d == 8 {
        '8'
    } else if d == 9 {
        '9'
    } else if d == 10 {
        'a'
    } else if d == 11 {
        'b'
    } else if d == 12 {
        'c'
    } else if d == 13 {
        'd'
    } else if d == 14 {
        'e'
    } else {
        'f'
    }
}

/// The `k`-th hexadecimal digit of `id`, counted from the most significant
/// of its 32 digits.
pub open spec fn hex_digit(id: u128, k: int) -> int {
    (id as int / pow(16, (31 - k) as nat)) % 16
}

/// Whether a hyphen stands at place `i` of the hyphenated form.
pub open spec fn is_hyphen_place(i: int) -> bool {
    i == 8 || i == 13 || i == 18 || i == 23
}

/// Which hexadecimal digit stands at place `i` of the hyphenated form.
pub open spec fn digit_at_place(i: int) -> int {
    if i < 8 {
        i
    } else if i < 13 {
        i - 1
    } else if i < 18 {
        i - 2
    } else if i < 23 {
        i - 3
    } else {
        i - 4
    }
}

/// The hyphenated form of `id`: its 32 lower-case hexadecimal digits in
/// groups of 8, 4, 4, 4 and 12, with hyphens between the groups.
pub open spec fn id_text(id: u128) -> Seq<char> {
    Seq::new(
        36,
        |i: int|
            if is_hyphen_place(i) {
                '-'
            } else {
                hex_char(hex_digit(id, digit_at_place(i)))
            },
    )
}

/// The identifier that a text is read as by `uuid::Uuid::parse_str`, as a
/// number; `None` where the text is refused.
pub uninterp spec fn parsed_id(text: Seq<char>) -> Option<u128>;

/// Writes an identifier as text, with `uuid::Uuid`'s `Display`. Trusted:
/// the text is the hyphenated lower-case form of the UUID whose big-endian
/// value is `id`, and `uuid::Uuid::parse_str` reads that text back as the
/// same UUID.
#[verifier::external_body]
pub(crate) fn id_to_text(id: u128) -> (r: String)
    ensures
        r@ == id_text(id),
        parsed_id(r@) == Some(id),
{
    uuid::Uuid::from_u128(id).to_string()
}

/// Reads an identifier from text, with `uuid::Uuid::parse_str`. Trusted:
/// the result is what that function reads, as a big-endian number, or
/// `None` where it refuses the text.
#[verifier::external_body]
pub(crate) fn text_to_id(text: &str) -> (r: Option<u128>)
    ensures
        r == parsed_id(text@),
{
    match uuid::Uuid::parse_str(text) {
        Ok(id) => Some(id.as_u128()),
        Err(_) => None,
    }
}

} // verus!
