//! Identifiers: the text of a UUID, and the UUIDs that the `uuid` crate derives.

use vstd::prelude::*;
use vstd::arithmetic::power::pow;

verus! {

/// The lowercase hexadecimal digit for `d < 16`.
pub open spec fn hex_digit_char(d: nat) -> char {
    if d < 10 {
        ((48 + d) as u32) as char
    } else {
        ((87 + d) as u32) as char
    }
}

/// The `k`-th hexadecimal digit (0 = most significant) of a 128-bit value.
pub open spec fn uuid_nibble(id: u128, k: int) -> nat {
    ((id as nat / (pow(16, (31 - k) as nat) as nat)) % 16) as nat
}

/// Which hexadecimal digit stands at position `i` of the hyphenated text.
pub open spec fn uuid_digit_index(i: int) -> int {
    if i > 23 {
        i - 4
    } else if i > 18 {
        i - 3
    } else if i > 13 {
        i - 2
    } else if i > 8 {
        i - 1
    } else {
        i
    }
}

/// The hyphenated lowercase text of a UUID given as its 128-bit big-endian
/// value: 32 hexadecimal digits with `-` after the 8th, 12th, 16th and 20th.
pub open spec fn uuid_text(id: u128) -> Seq<char> {
    Seq::new(
        36,
        |i: int|
            if i == 8 || i == 13 || i == 18 || i == 23 {
                '-'
            } else {
                hex_digit_char(uuid_nibble(id, uuid_digit_index(i)))
            },
    )
}

/// The version-5 (SHA-1, name-based) UUID of the bytes `name` in
/// `namespace`, as the `uuid` crate derives it.
pub uninterp spec fn spec_uuid_v5(namespace: u128, name: Seq<u8>) -> u128;

/// The hyphenated text of a UUID, as `Display` for `uuid::Uuid` writes it.
///
/// Trusted: calls `uuid::Uuid::to_string` and claims the hyphenated lowercase
/// layout that the crate's `format_hyphenated` produces.
#[verifier::external_body]
pub(crate) fn uuid_to_text(id: u128) -> (r: String)
    ensures
        r@ == uuid_text(id),
{
    uuid::Uuid::from_u128(id).to_string()
}

/// The version-5 UUID of the bytes `name` in `namespace`.
///
/// Trusted: calls `uuid::Uuid::new_v5`; the result is named, not described,
/// and depends only on the namespace and the name.
#[verifier::external_body]
pub(crate) fn uuid_v5(namespace: u128, name: &[u8]) -> (r: u128)
    ensures
        r == spec_uuid_v5(namespace, name@),
{
    uuid::Uuid::new_v5(&uuid::Uuid::from_u128(namespace), name).as_u128()
}

/// Whether `id` carries the marks of a random UUID: version 4 and the
/// RFC 4122 variant.
pub open spec fn is_random_uuid(id: u128) -> bool {
    id & 0xF000_C000_0000_0000_0000u128 == 0x4000_8000_0000_0000_0000u128
}

/// A random UUID is never the nil UUID.
pub proof fn lemma_random_uuid_not_nil(id: u128)
    requires
        is_random_uuid(id),
    ensures
        id != 0,
{
    assert(id & 0xF000_C000_0000_0000_0000u128 == 0x4000_8000_0000_0000_0000u128 ==> id != 0)
        by (bit_vector);
}

/// A fresh random (version-4) UUID.
///
/// Trusted: calls `uuid::Uuid::new_v4`, which masks random bits and sets
/// the version (4) and variant (RFC 4122) bits; only those bits are
/// claimed, the rest is random.
#[verifier::external_body]
pub(crate) fn uuid_v4() -> (r: u128)
    ensures
        is_random_uuid(r),
{
    uuid::Uuid::new_v4().as_u128()
}

} // verus!
