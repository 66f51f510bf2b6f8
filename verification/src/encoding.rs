//! Hexadecimal formatting of byte strings.

use vstd::prelude::*;

verus! {

/// The lowercase hexadecimal digit of a value below 16.
pub open spec fn hex_digit(v: u8) -> char
    recommends v < 16,
{
    if v < 10 {
        ((v + 48) as u8) as char
    } else {
        ((v + 87) as u8) as char
    }
}

/// The lowercase hexadecimal encoding of a byte string, two digits per byte,
/// most significant digit first.
pub open spec fn hex_of(s: Seq<u8>) -> Seq<char> {
    Seq::new(s.len() * 2, |i: int| if i % 2 == 0 {
        hex_digit(s[i / 2] >> 4)
    } else {
        hex_digit(s[i / 2] & 15)
    })
}

/// Relies on `hex::encode`: lowercase hexadecimal, two digits per byte, most
/// significant digit first.
#[verifier::external_body]
pub(crate) fn hex_encode(b: &[u8]) -> (r: String)
    ensures
        r@ == hex_of(b@),
{
    hex::encode(b)
}

} // verus!
