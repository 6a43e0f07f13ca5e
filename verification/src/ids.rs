//! 128-bit identifiers (UUIDs) as plain integers, read in big-endian order,
//! and the uuid crate calls that make, parse and print them.
use vstd::prelude::*;

verus! {

/// The lowercase hexadecimal digit for a value below 16.
pub open spec fn hex_digit(n: u128) -> char {
    seq!['0', '1', '2', '3', '4', '5', '6', '7', '8', '9', 'a', 'b', 'c', 'd', 'e', 'f'][n as int]
}

/// The `k`-th hexadecimal digit of `v`, counting from the most significant
/// (`0 <= k < 32`).
pub open spec fn nibble(v: u128, k: int) -> u128 {
    (v >> ((124 - 4 * k) as u128)) & 0xf
}

/// Which hex digit of the value stands at position `j` of the hyphenated
/// form, or -1 at the four hyphens (positions 8, 13, 18 and 23).
pub open spec fn hyphenated_digit_index(j: int) -> int {
    if j < 8 {
        j
    } else if j == 8 {
        -1
    } else if j < 13 {
        j - 1
    } else if j == 13 {
        -1
    } else if j < 18 {
        j - 2
    } else if j == 18 {
        -1
    } else if j < 23 {
        j - 3
    } else if j == 23 {
        -1
    } else {
        j - 4
    }
}

/// The hyphenated lowercase form of a UUID, such as
/// `a1a2a3a4-b1b2-c1c2-d1d2-d3d4d5d6d7d8`: 36 characters, the 32 hex digits
/// of the value in groups of 8-4-4-4-12.
pub open spec fn uuid_hyphenated(v: u128) -> Seq<char> {
    Seq::new(
        36,
        |j: int|
            if hyphenated_digit_index(j) < 0 {
                '-'
            } else {
                hex_digit(nibble(v, hyphenated_digit_index(j)))
            },
    )
}

/// The value that `uuid::Uuid::parse_str` reads from a string (the simple,
/// hyphenated, braced and URN forms are all accepted), as `as_u128` gives it,
/// or `None` when the string is not a UUID.
pub uninterp spec fn uuid_parse(text: Seq<char>) -> Option<u128>;

/// The version nibble of a UUID (bits 76..80).
pub open spec fn uuid_version(v: u128) -> u128 {
    (v >> 76u128) & 0xf
}

/// The two top variant bits of a UUID (bits 62..64).
pub open spec fn uuid_variant_bits(v: u128) -> u128 {
    (v >> 62u128) & 0x3
}

/// Calls `uuid::Uuid::new_v4`. The value is random; the contract states what
/// the source shows of every outcome: the version nibble is 4 and the variant
/// bits are `10` (RFC 4122).
#[verifier::external_body]
pub(crate) fn random_uuid() -> (id: u128)
    ensures
        uuid_version(id) == 4,
        uuid_variant_bits(id) == 2,
{
    uuid::Uuid::new_v4().as_u128()
}

/// Calls `uuid::Uuid::parse_str`; the result is named `uuid_parse`.
#[verifier::external_body]
pub(crate) fn parse_uuid(text: &str) -> (r: Option<u128>)
    ensures
        r == uuid_parse(text@),
{
    match uuid::Uuid::parse_str(text) {
        Ok(u) => Some(u.as_u128()),
        Err(_) => None,
    }
}

/// Calls `to_string` on `uuid::Uuid::from_u128(v)`: the `Display` impl of
/// `Uuid` writes the hyphenated lowercase form.
#[verifier::external_body]
pub(crate) fn uuid_to_string(v: u128) -> (r: String)
    ensures
        r@ == uuid_hyphenated(v),
{
    uuid::Uuid::from_u128(v).to_string()
}

} // verus!
