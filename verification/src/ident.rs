//! Random identifiers.

use vstd::prelude::*;

use crate::digest;

verus! {

/// Whether a 128-bit value carries the version and variant marks of a random
/// UUID.
pub open spec fn is_random_uuid(id: u128) -> bool {
    (id >> 76u128) & 0xfu128 == 4 && (id >> 62u128) & 0x3u128 == 2
}

/// Calls `uuid::Uuid::new_v4`. Claimed: the bits carry the version and variant
/// marks of a random UUID; all others are left to chance. The call panics only
/// where the system's source of random numbers fails.
#[verifier::external_body]
pub(crate) fn new_uuid() -> (id: u128)
    ensures
        is_random_uuid(id),
{
    uuid::Uuid::new_v4().as_u128()
}

/// The value of the hexadecimal digit of `id` at place `k`, counted from the
/// most significant one.
pub open spec fn uuid_nibble(id: u128, k: int) -> int {
    (id as int / vstd::arithmetic::power::pow(16, (31 - k) as nat)) % 16
}

/// Hyphenated notation of a UUID: thirty-two lower-case digits in groups of
/// 8, 4, 4, 4 and 12.
pub open spec fn uuid_digits(id: u128) -> Seq<char> {
    Seq::new(
        36,
        |i: int|
            if i == 8 || i == 13 || i == 18 || i == 23 {
                '-'
            } else if i < 8 {
                digest::hex_digit(uuid_nibble(id, i))
            } else if i < 13 {
                digest::hex_digit(uuid_nibble(id, i - 1))
            } else if i < 18 {
                digest::hex_digit(uuid_nibble(id, i - 2))
            } else if i < 23 {
                digest::hex_digit(uuid_nibble(id, i - 3))
            } else {
                digest::hex_digit(uuid_nibble(id, i - 4))
            },
    )
}

/// Notation of a UUID without hyphens: thirty-two lower-case digits.
pub open spec fn uuid_simple_digits(id: u128) -> Seq<char> {
    Seq::new(32, |i: int| digest::hex_digit(uuid_nibble(id, i)))
}

/// Calls `uuid::Uuid::from_u128` and formats it with `Uuid::simple`. Claimed:
/// the result is the lower-case notation without hyphens.
#[verifier::external_body]
pub(crate) fn uuid_simple_text(id: u128) -> (r: String)
    ensures
        r@ == uuid_simple_digits(id),
{
    uuid::Uuid::from_u128(id).simple().to_string()
}

/// Calls `uuid::Uuid::from_u128` and formats it with `Display`. Claimed: the
/// result is the hyphenated lower-case notation.
#[verifier::external_body]
pub(crate) fn uuid_text(id: u128) -> (r: String)
    ensures
        r@ == uuid_digits(id),
{
    uuid::Uuid::from_u128(id).to_string()
}

/// A written identifier has thirty-two digits, in groups of eight, four, four,
/// four and twelve with hyphens between; without the hyphens it is the simple
/// notation.
pub proof fn identifiers_are_grouped(id: u128, i: int)
    ensures
        uuid_digits(id).len() == 36,
        uuid_simple_digits(id).len() == 32,
        uuid_digits(id)[8] == '-' && uuid_digits(id)[13] == '-' && uuid_digits(id)[18] == '-'
            && uuid_digits(id)[23] == '-',
        0 <= i < 8 ==> uuid_digits(id)[i] == uuid_simple_digits(id)[i],
        8 <= i < 12 ==> uuid_digits(id)[i + 1] == uuid_simple_digits(id)[i],
        12 <= i < 16 ==> uuid_digits(id)[i + 2] == uuid_simple_digits(id)[i],
        16 <= i < 20 ==> uuid_digits(id)[i + 3] == uuid_simple_digits(id)[i],
        20 <= i < 32 ==> uuid_digits(id)[i + 4] == uuid_simple_digits(id)[i],
{
}

/// The last digit is the value of the lowest four bits, the one before it of the
/// next four.
pub proof fn low_digits_come_last(id: u128)
    ensures
        digest::hex_value(uuid_simple_digits(id)[31]) == id % 16,
        digest::hex_value(uuid_simple_digits(id)[30]) == (id / 16) % 16,
{
    vstd::arithmetic::power::lemma_pow0(16);
    vstd::arithmetic::power::lemma_pow1(16);
    assert(uuid_nibble(id, 31) == (id as int) % 16);
    assert(uuid_nibble(id, 30) == (id as int / 16) % 16);
}

/// A random identifier shows its version, four, as the thirteenth digit.
pub proof fn random_identifiers_show_their_version(id: u128)
    requires
        is_random_uuid(id),
    ensures
        uuid_simple_digits(id)[12] == '4',
{
    assert(id >> 76u128 == id / 75_557_863_725_914_323_419_136u128) by (bit_vector);
    let high = id >> 76u128;
    assert(high & 0xfu128 == high % 16) by (bit_vector);
    assert(vstd::arithmetic::power::pow(16, 19) == 75_557_863_725_914_323_419_136) by {
        reveal_with_fuel(vstd::arithmetic::power::pow, 20);
    }
    assert(uuid_nibble(id, 12) == 4);
}

} // verus!
