//! Token and user ids: 128-bit values that travel as UUID text.

use vstd::arithmetic::power::pow;
use vstd::prelude::*;

verus! {

/// The character that writes the hexadecimal digit `d` in lower case.
pub open spec fn hex_char(d: int) -> char {
    if d == 10 {
        'a'
    } else if d == 11 {
        'b'
    } else if d == 12 {
        'c'
    } else if d == 13 {
        'd'
    } else if d == 14 {
        'e'
    } else if d == 15 {
        'f'
    } else {
        crate::text::digit_char(d)
    }
}

/// The 32 hexadecimal digits of `id`, most significant first.
pub open spec fn hex_digits(id: u128) -> Seq<char> {
    Seq::new(32, |k: int| hex_char((id as int / pow(16, (31 - k) as nat)) % 16))
}

/// The hyphenated lower-case UUID text of `id`: 36 characters, the 32
/// hexadecimal digits in groups of 8, 4, 4, 4 and 12.
pub open spec fn uuid_text(id: u128) -> Seq<char> {
    let h = hex_digits(id);
    h.subrange(0, 8) + seq!['-'] + h.subrange(8, 12) + seq!['-'] + h.subrange(12, 16) + seq!['-']
        + h.subrange(16, 20) + seq!['-'] + h.subrange(20, 32)
}

/// The id that `uuid::Uuid::parse_str` reads from a text, `None` where it
/// rejects the text.
pub uninterp spec fn uuid_parsed(text: Seq<char>) -> Option<u128>;

/// Writes an id as UUID text.
///
/// Calls `uuid::Uuid::from_u128` and the `Display` of `uuid::Uuid`. The crate
/// documents that display as the hyphenated lower-case form, and that
/// `parse_str` reads every form the crate writes.
#[verifier::external_body]
pub(crate) fn format_uuid(id: u128) -> (r: String)
    ensures
        r@ == uuid_text(id),
        uuid_parsed(r@) == Some(id),
{
    uuid::Uuid::from_u128(id).to_string()
}

/// Reads an id from UUID text.
///
/// Calls `uuid::Uuid::parse_str` and hands back the 128-bit value of what it
/// read.
#[verifier::external_body]
pub(crate) fn parse_uuid(text: &str) -> (r: Option<u128>)
    ensures
        r == uuid_parsed(text@),
{
    uuid::Uuid::parse_str(text).ok().map(|id| id.as_u128())
}

/// Draws a new random id. The same draw serves as the secret seed of a
/// signature.
///
/// Calls `uuid::Uuid::new_v4`. Nothing is claimed of the value.
#[verifier::external_body]
pub(crate) fn fresh_id() -> u128 {
    uuid::Uuid::new_v4().as_u128()
}

} // verus!
