//! Trusted boundary to the elliptic-curve backend.
//!
//! A point of either pairing group is carried through the library as its
//! canonical compressed byte string (95 bytes for the signature group G1,
//! 285 bytes for the public-key group G2). The group operations, the pairing
//! and the validity of an encoding are supplied by the `ark_mnt6_753` crate
//! behind the wrappers below; their results are named by uninterpreted
//! functions over the byte strings, and everything built on top is verified
//! against those names.

use vstd::prelude::*;

use ark_ec::pairing::Pairing;
use ark_ec::{CurveGroup, PrimeGroup};
use ark_mnt6_753::{G1Affine, G1Projective, G2Affine, G2Projective, MNT6_753};
use ark_serialize::{CanonicalDeserialize, CanonicalSerialize};

verus! {

/// Whether the 95 bytes are the canonical compressed encoding of a G1 point.
pub uninterp spec fn g1_valid(s: Seq<u8>) -> bool;

/// Whether the 285 bytes are the canonical compressed encoding of a G2 point.
pub uninterp spec fn g2_valid(s: Seq<u8>) -> bool;

/// The compressed encoding of the sum of the two G1 points encoded by `a` and `b`.
pub uninterp spec fn g1_add_of(a: Seq<u8>, b: Seq<u8>) -> Seq<u8>;

/// The compressed encoding of the difference of the two G1 points encoded by `a` and `b`.
pub uninterp spec fn g1_sub_of(a: Seq<u8>, b: Seq<u8>) -> Seq<u8>;

/// The compressed encoding of the sum of the two G2 points encoded by `a` and `b`.
pub uninterp spec fn g2_add_of(a: Seq<u8>, b: Seq<u8>) -> Seq<u8>;

/// The compressed encoding of the difference of the two G2 points encoded by `a` and `b`.
pub uninterp spec fn g2_sub_of(a: Seq<u8>, b: Seq<u8>) -> Seq<u8>;

/// The serialized pairing of the G1 point `a` with the G2 point `b`.
pub uninterp spec fn pairing_of(a: Seq<u8>, b: Seq<u8>) -> Seq<u8>;

/// The serialized product, in the pairing's target group, of the pairing of
/// `a0` with `b0` and the pairing of `a1` with `b1`.
pub uninterp spec fn pairing_product2_of(a0: Seq<u8>, b0: Seq<u8>, a1: Seq<u8>, b1: Seq<u8>) -> Seq<u8>;

/// Canonical compressed bytes of the fixed G1 generator.
pub const G1_GENERATOR_BYTES: [u8; 95] = [
    184, 255, 123, 58, 217, 251, 161, 247, 243, 161, 169, 239, 111, 154, 50, 35,
    65, 76, 44, 68, 157, 61, 139, 91, 137, 96, 218, 247, 203, 26, 209, 102,
    126, 134, 157, 205, 227, 206, 32, 241, 109, 123, 197, 227, 229, 156, 6, 221,
    91, 29, 31, 147, 27, 119, 24, 232, 197, 95, 13, 12, 125, 54, 9, 180,
    220, 209, 127, 153, 196, 132, 232, 55, 36, 28, 19, 136, 128, 51, 48, 79,
    40, 2, 16, 251, 44, 65, 71, 17, 131, 110, 135, 142, 95, 37, 128,
];

/// Canonical compressed bytes of the fixed G2 generator.
pub const G2_GENERATOR_BYTES: [u8; 285] = [
    188, 126, 111, 179, 240, 229, 117, 43, 84, 96, 155, 25, 36, 122, 240, 220,
    114, 240, 174, 236, 48, 52, 252, 109, 38, 13, 207, 37, 41, 225, 31, 166,
    102, 141, 21, 44, 32, 180, 41, 1, 23, 250, 184, 194, 173, 129, 236, 201,
    27, 252, 57, 64, 221, 139, 183, 7, 139, 19, 34, 41, 116, 167, 101, 192,
    248, 200, 104, 124, 148, 153, 115, 207, 247, 104, 107, 255, 41, 247, 109, 121,
    156, 164, 107, 231, 116, 44, 11, 71, 252, 31, 48, 8, 124, 38, 1, 144,
    120, 92, 131, 147, 99, 111, 10, 36, 144, 174, 89, 27, 199, 53, 131, 212,
    97, 195, 191, 116, 242, 176, 252, 19, 175, 72, 124, 47, 170, 130, 32, 192,
    221, 172, 47, 95, 159, 164, 155, 73, 48, 10, 30, 100, 252, 80, 235, 146,
    60, 248, 175, 184, 5, 133, 140, 138, 165, 121, 65, 135, 231, 171, 50, 159,
    28, 35, 205, 121, 145, 169, 37, 99, 156, 139, 4, 228, 11, 251, 24, 190,
    146, 95, 139, 55, 186, 199, 184, 183, 5, 248, 50, 119, 130, 1, 102, 133,
    54, 157, 195, 32, 240, 115, 58, 35, 255, 72, 36, 117, 251, 109, 4, 181,
    191, 233, 74, 105, 198, 3, 193, 138, 0, 170, 6, 195, 123, 254, 45, 18,
    53, 2, 241, 182, 161, 51, 109, 115, 3, 58, 68, 146, 134, 94, 68, 80,
    191, 31, 16, 43, 237, 91, 36, 41, 4, 24, 252, 187, 238, 12, 90, 137,
    175, 208, 134, 138, 159, 114, 227, 26, 194, 65, 66, 255, 219, 176, 133, 140,
    61, 196, 69, 143, 225, 206, 185, 213, 20, 17, 91, 143, 129,
];

/// Relies on `ark_serialize::CanonicalDeserialize::deserialize_compressed`
/// for `G1Affine`: it succeeds exactly when the bytes canonically encode a
/// point of the G1 subgroup.
#[verifier::external_body]
pub(crate) fn g1_is_valid(b: &[u8; 95]) -> (r: bool)
    ensures
        r == g1_valid(b@),
{
    G1Affine::deserialize_compressed(&b[..]).is_ok()
}

/// Relies on `ark_serialize::CanonicalDeserialize::deserialize_compressed`
/// for `G2Affine`: it succeeds exactly when the bytes canonically encode a
/// point of the G2 subgroup.
#[verifier::external_body]
pub(crate) fn g2_is_valid(b: &[u8; 285]) -> (r: bool)
    ensures
        r == g2_valid(b@),
{
    G2Affine::deserialize_compressed(&b[..]).is_ok()
}

/// Relies on the group law of `ark_mnt6_753` G1 (`Add` on curve points) and
/// on its canonical compressed serialization: the result encodes the sum of
/// the two encoded points, and a serialized curve point deserializes again.
#[verifier::external_body]
pub(crate) fn g1_add(a: &[u8; 95], b: &[u8; 95]) -> (r: [u8; 95])
    requires
        g1_valid(a@),
        g1_valid(b@),
    ensures
        r@ == g1_add_of(a@, b@),
        g1_valid(r@),
{
    let pa = G1Affine::deserialize_compressed(&a[..]).unwrap();
    let pb = G1Affine::deserialize_compressed(&b[..]).unwrap();
    let mut v: Vec<u8> = Vec::new();
    (pa + pb).into_affine().serialize_compressed(&mut v).unwrap();
    v.try_into().unwrap()
}

/// Relies on the group law of `ark_mnt6_753` G1 (`Sub` on curve points) and
/// on its canonical compressed serialization.
#[verifier::external_body]
pub(crate) fn g1_sub(a: &[u8; 95], b: &[u8; 95]) -> (r: [u8; 95])
    requires
        g1_valid(a@),
        g1_valid(b@),
    ensures
        r@ == g1_sub_of(a@, b@),
        g1_valid(r@),
{
    let pa = G1Affine::deserialize_compressed(&a[..]).unwrap();
    let pb = G1Affine::deserialize_compressed(&b[..]).unwrap();
    let mut v: Vec<u8> = Vec::new();
    (pa - pb).into_affine().serialize_compressed(&mut v).unwrap();
    v.try_into().unwrap()
}

/// Relies on the group law of `ark_mnt6_753` G2 (`Add` on curve points) and
/// on its canonical compressed serialization.
#[verifier::external_body]
pub(crate) fn g2_add(a: &[u8; 285], b: &[u8; 285]) -> (r: [u8; 285])
    requires
        g2_valid(a@),
        g2_valid(b@),
    ensures
        r@ == g2_add_of(a@, b@),
        g2_valid(r@),
{
    let pa = G2Affine::deserialize_compressed(&a[..]).unwrap();
    let pb = G2Affine::deserialize_compressed(&b[..]).unwrap();
    let mut v: Vec<u8> = Vec::new();
    (pa + pb).into_affine().serialize_compressed(&mut v).unwrap();
    v.try_into().unwrap()
}

/// Relies on the group law of `ark_mnt6_753` G2 (`Sub` on curve points) and
/// on its canonical compressed serialization.
#[verifier::external_body]
pub(crate) fn g2_sub(a: &[u8; 285], b: &[u8; 285]) -> (r: [u8; 285])
    requires
        g2_valid(a@),
        g2_valid(b@),
    ensures
        r@ == g2_sub_of(a@, b@),
        g2_valid(r@),
{
    let pa = G2Affine::deserialize_compressed(&a[..]).unwrap();
    let pb = G2Affine::deserialize_compressed(&b[..]).unwrap();
    let mut v: Vec<u8> = Vec::new();
    (pa - pb).into_affine().serialize_compressed(&mut v).unwrap();
    v.try_into().unwrap()
}

/// Relies on `ark_ec::PrimeGroup::generator` for G1: the backend's fixed
/// generator, whose canonical compressed bytes are `G1_GENERATOR_BYTES`.
#[verifier::external_body]
pub(crate) fn g1_generator() -> (r: [u8; 95])
    ensures
        r@ == G1_GENERATOR_BYTES@,
        g1_valid(r@),
{
    let mut v: Vec<u8> = Vec::new();
    G1Projective::generator().into_affine().serialize_compressed(&mut v).unwrap();
    v.try_into().unwrap()
}

/// Relies on `ark_ec::PrimeGroup::generator` for G2: the backend's fixed
/// generator, whose canonical compressed bytes are `G2_GENERATOR_BYTES`.
#[verifier::external_body]
pub(crate) fn g2_generator() -> (r: [u8; 285])
    ensures
        r@ == G2_GENERATOR_BYTES@,
        g2_valid(r@),
{
    let mut v: Vec<u8> = Vec::new();
    G2Projective::generator().into_affine().serialize_compressed(&mut v).unwrap();
    v.try_into().unwrap()
}

/// Relies on `ark_ec::pairing::Pairing::pairing` for MNT6-753: the result
/// serializes the pairing of the encoded points, a function of them alone.
#[verifier::external_body]
pub(crate) fn pairing(a: &[u8; 95], b: &[u8; 285]) -> (r: Vec<u8>)
    requires
        g1_valid(a@),
        g2_valid(b@),
    ensures
        r@ == pairing_of(a@, b@),
{
    let pa = G1Affine::deserialize_compressed(&a[..]).unwrap();
    let pb = G2Affine::deserialize_compressed(&b[..]).unwrap();
    let out = MNT6_753::pairing(pa, pb);
    let mut v: Vec<u8> = Vec::new();
    out.serialize_compressed(&mut v).unwrap();
    v
}

/// Relies on `ark_ec::pairing::Pairing::multi_pairing` for MNT6-753: the
/// result serializes the target-group product of the two pairings, a
/// function of the encoded points alone.
#[verifier::external_body]
pub(crate) fn pairing_product2(a0: &[u8; 95], b0: &[u8; 285], a1: &[u8; 95], b1: &[u8; 285]) -> (r: Vec<u8>)
    requires
        g1_valid(a0@),
        g2_valid(b0@),
        g1_valid(a1@),
        g2_valid(b1@),
    ensures
        r@ == pairing_product2_of(a0@, b0@, a1@, b1@),
{
    let pa0 = G1Affine::deserialize_compressed(&a0[..]).unwrap();
    let pb0 = G2Affine::deserialize_compressed(&b0[..]).unwrap();
    let pa1 = G1Affine::deserialize_compressed(&a1[..]).unwrap();
    let pb1 = G2Affine::deserialize_compressed(&b1[..]).unwrap();
    let out = MNT6_753::multi_pairing([pa0, pa1], [pb0, pb1]);
    let mut v: Vec<u8> = Vec::new();
    out.serialize_compressed(&mut v).unwrap();
    v
}

} // verus!
