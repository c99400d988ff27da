//! Identifiers: UUIDs, as the 128-bit numbers that they write.

use vstd::prelude::*;

verus! {

/// Whether a UUID is marked as a random one: version 4 of the variant of RFC 9562.
pub open spec fn random_uuid(n: u128) -> bool {
    (n >> 76) & 0xf == 4 && (n >> 62) & 0x3 == 2
}

/// `uuid::Uuid::new_v4`, as a number. Which number it is depends on chance;
/// it is marked as a random UUID.
#[verifier::external_body]
pub(crate) fn new_uuid() -> (r: u128)
    ensures
        random_uuid(r),
{
    uuid::Uuid::new_v4().as_u128()
}

/// The hexadecimal digit of `n` at `place`, counted from the left of 32.
pub open spec fn uuid_digit(n: u128, place: int) -> char {
    crate::json::hex_digit(n as int / vstd::arithmetic::power::pow(16, (31 - place) as nat) % 16)
}

/// The hyphenated text of a UUID: its 32 hexadecimal digits in groups of
/// eight, four, four, four and twelve.
pub open spec fn uuid_text(n: u128) -> Seq<char> {
    Seq::new(
        36,
        |i: int|
            if i == 8 || i == 13 || i == 18 || i == 23 {
                '-'
            } else if i < 8 {
                uuid_digit(n, i)
            } else if i < 13 {
                uuid_digit(n, i - 1)
            } else if i < 18 {
                uuid_digit(n, i - 2)
            } else if i < 23 {
                uuid_digit(n, i - 3)
            } else {
                uuid_digit(n, i - 4)
            },
    )
}

/// `to_string` on a `uuid::Uuid`: its hyphenated text, in small letters.
#[verifier::external_body]
pub(crate) fn format_uuid(n: u128) -> (r: String)
    ensures
        r@ == uuid_text(n),
{
    uuid::Uuid::from_u128(n).to_string()
}

} // verus!
