//! Trusted boundary to the fixed-output hash primitive.
//!
//! The deployment's digest scheme is Blake2s with a 32-byte digest and the
//! default sequential parameters (fan-out 1, depth 1, no key, no salt, no
//! personalization).

use vstd::prelude::*;

use blake2::Digest;

verus! {

/// The 32-byte Blake2s digest of the message.
pub uninterp spec fn blake2s_of(m: Seq<u8>) -> Seq<u8>;

/// Relies on `blake2::Blake2s256`: the sequential Blake2s hash with a
/// 32-byte digest, a function of the message alone.
#[verifier::external_body]
pub(crate) fn blake2s(input: &Vec<u8>) -> (r: [u8; 32])
    ensures
        r@ == blake2s_of(input@),
{
    let digest = blake2::Blake2s256::digest(input.as_slice());
    let mut out = [0u8; 32];
    out.copy_from_slice(&digest);
    out
}

} // verus!
