use vstd::prelude::*;

verus! {

/// ASCII code of the lowercase hexadecimal digit with value `n` (0..16).
pub open spec fn hex_digit(n: int) -> u8
    recommends
        0 <= n < 16,
{
    if n < 10 {
        (48 + n) as u8
    } else {
        (87 + n) as u8
    }
}

/// The lowercase hexadecimal expansion of a byte string: two ASCII digits
/// per byte, high nibble first.
pub open spec fn hex_bytes(s: Seq<u8>) -> Seq<u8> {
    Seq::new(
        2 * s.len(),
        |i: int|
            if i % 2 == 0 {
                hex_digit(s[i / 2] as int / 16)
            } else {
                hex_digit(s[i / 2] as int % 16)
            },
    )
}

/// Relies on hex::encode: every input byte becomes two lowercase
/// hexadecimal ASCII digits, high nibble first.
#[verifier::external_body]
pub(crate) fn hex_encode(b: &Vec<u8>) -> (r: Vec<u8>)
    requires
        2 * b@.len() <= usize::MAX,
    ensures
        r@ == hex_bytes(b@),
{
    hex::encode(b).into_bytes()
}

/// The base58 text of a byte string, as bs58::encode renders it with its
/// default (Bitcoin) alphabet — the platform's textual form of an address.
pub uninterp spec fn base58_of(b: Seq<u8>) -> Seq<u8>;

/// Relies on bs58::encode (default Bitcoin alphabet, no check byte): the
/// result depends on the bytes alone.
#[verifier::external_body]
pub(crate) fn base58_encode(b: &Vec<u8>) -> (r: Vec<u8>)
    ensures
        r@ == base58_of(b@),
{
    bs58::encode(b).into_string().into_bytes()
}

/// Whether a byte string is valid UTF-8, as judged by core::str::from_utf8.
pub uninterp spec fn utf8_ok(b: Seq<u8>) -> bool;

/// Relies on core::str::from_utf8: it returns Ok exactly when the bytes
/// are valid UTF-8, and the verdict depends on the bytes alone.
#[verifier::external_body]
pub(crate) fn check_utf8(b: &Vec<u8>) -> (r: bool)
    ensures
        r == utf8_ok(b@),
{
    core::str::from_utf8(b.as_slice()).is_ok()
}

} // verus!
