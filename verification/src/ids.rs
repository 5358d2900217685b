//! UUIDs, held as their 128-bit big-endian integer value.
//!
//! Generation, hashing and parsing are done by the `uuid` crate; the
//! printed form is stated here exactly.

use vstd::prelude::*;

verus! {

/// The UUID that `Uuid::new_v5` derives (SHA-1) from a namespace UUID and
/// name bytes.
pub uninterp spec fn uuid_v5(namespace: u128, name: Seq<u8>) -> u128;

/// The UUID that `Uuid::parse_str` reads out of `text` (`None` where it
/// reports an error).
pub uninterp spec fn uuid_parse(text: Seq<char>) -> Option<u128>;

/// The lower-case hexadecimal digit for `n` (0 to 15).
pub open spec fn hex_digit(n: u128) -> char {
    if n < 10 {
        (0x30 + n) as char
    } else {
        (0x57 + n) as char
    }
}

/// For a character position `i` (0..36) of the hyphenated form that is not
/// a hyphen, the index (0..32) of the hexadecimal digit written there.
pub open spec fn hyphenated_digit_index(i: int) -> int {
    if i < 8 {
        i
    } else if i < 13 {
        i - 1
    } else if i < 18 {
        i - 2
    } else if i < 23 {
        i - 3
    } else {
        i - 4
    }
}

/// The hyphenated lower-case text of `id`, `xxxxxxxx-xxxx-xxxx-xxxx-xxxxxxxxxxxx`,
/// as `Uuid`'s `Display` writes it.
pub open spec fn uuid_text(id: u128) -> Seq<char> {
    Seq::new(
        36,
        |i: int|
            if i == 8 || i == 13 || i == 18 || i == 23 {
                '-'
            } else {
                hex_digit(
                    (id >> ((124 - 4 * hyphenated_digit_index(i)) as u128)) & 0xfu128,
                )
            },
    )
}

/// Calls `Uuid::new_v5`; claims the result is the one named by `uuid_v5`,
/// stamped with version 5 and the RFC 4122 variant.
#[verifier::external_body]
pub(crate) fn new_v5(namespace: u128, name: &[u8]) -> (r: u128)
    ensures
        r == uuid_v5(namespace, name@),
        (r >> 76u128) & 0xfu128 == 5,
        (r >> 62u128) & 0x3u128 == 2,
{
    uuid::Uuid::new_v5(&uuid::Uuid::from_u128(namespace), name).as_u128()
}

/// Calls `Uuid::new_v4`. The bits are random; what holds of every outcome is
/// the version nibble 4 and the RFC 4122 variant.
#[verifier::external_body]
pub(crate) fn new_v4() -> (r: u128)
    ensures
        (r >> 76u128) & 0xfu128 == 4,
        (r >> 62u128) & 0x3u128 == 2,
{
    uuid::Uuid::new_v4().as_u128()
}

/// Calls `Uuid::parse_str`; claims the outcome is the one named by
/// `uuid_parse`.
#[verifier::external_body]
pub(crate) fn parse(text: &str) -> (r: Option<u128>)
    ensures
        r == uuid_parse(text@),
{
    uuid::Uuid::parse_str(text).ok().map(|u| u.as_u128())
}

/// Calls `Uuid::to_string`; claims it writes the hyphenated lower-case form,
/// which `Uuid::parse_str` reads back.
#[verifier::external_body]
pub(crate) fn to_text(id: u128) -> (r: String)
    ensures
        r@ == uuid_text(id),
        uuid_parse(r@) == Some(id),
{
    uuid::Uuid::from_u128(id).to_string()
}

} // verus!
