//! Scene, cue and cue-list identifiers are UUIDs, held as their 128-bit values.
//! The projected state refers to them by their hyphenated text.
use vstd::prelude::*;

verus! {

/// The lowercase hexadecimal digit for `d < 16`.
pub open spec fn lower_hex_digit(d: u128) -> char {
    if d < 10 {
        (('0' as u32) + d as u32) as char
    } else {
        (('a' as u32) + (d - 10) as u32) as char
    }
}

/// The `k`-th hexadecimal digit of `v`, counted from the most significant one.
pub open spec fn hex_nibble(v: u128, k: int) -> u128 {
    (v >> ((124 - 4 * k) as u128)) & 0xf
}

/// Number of hyphens before position `i` of the hyphenated form.
pub open spec fn hyphens_before(i: int) -> int {
    if i > 23 {
        4
    } else if i > 18 {
        3
    } else if i > 13 {
        2
    } else if i > 8 {
        1
    } else {
        0
    }
}

/// The hyphenated lowercase text of the UUID whose big-endian value is `v`:
/// 32 hexadecimal digits in groups of 8-4-4-4-12.
pub open spec fn hyphenated_uuid(v: u128) -> Seq<char> {
    Seq::new(
        36,
        |i: int|
            if i == 8 || i == 13 || i == 18 || i == 23 {
                '-'
            } else {
                lower_hex_digit(hex_nibble(v, i - hyphens_before(i)))
            },
    )
}

/// `uuid::Uuid::from_u128(v).to_string()`: the `Display` form of a UUID, which
/// the uuid crate documents as the lowercase hyphenated form.
#[verifier::external_body]
pub(crate) fn uuid_text(v: u128) -> (s: String)
    ensures
        s@ == hyphenated_uuid(v),
{
    uuid::Uuid::from_u128(v).to_string()
}

/// Whether the projected identifier text names the UUID `v`.
pub fn id_matches(v: u128, text: &String) -> (r: bool)
    ensures
        r == (hyphenated_uuid(v) == text@),
{
    uuid_text(v) == *text
}

} // verus!
