use ark_ec::{CurveGroup, PrimeGroup};
use ark_ff::AdditiveGroup;
use ark_mnt6_753::{Fr, G1Projective, G2Projective};
use ark_serialize::CanonicalSerialize;

use nano_sync::bls::{CompressedSignature, PublicKey};
use nano_sync::curve::{G1_GENERATOR_BYTES, G2_GENERATOR_BYTES};
use nano_sync::errors::SynthesisError;
use nano_sync::macro_block::MacroBlockGadget;

fn g1_bytes(p: &G1Projective) -> [u8; 95] {
    let mut v: Vec<u8> = Vec::new();
    p.into_affine().serialize_compressed(&mut v).unwrap();
    v.try_into().unwrap()
}

fn g2_bytes(p: &G2Projective) -> [u8; 285] {
    let mut v: Vec<u8> = Vec::new();
    p.into_affine().serialize_compressed(&mut v).unwrap();
    v.try_into().unwrap()
}

#[test]
fn generator_constants_match_backend() {
    assert_eq!(g1_bytes(&G1Projective::generator()), G1_GENERATOR_BYTES);
    assert_eq!(g2_bytes(&G2Projective::generator()), G2_GENERATOR_BYTES);
}

#[test]
fn uncompress_accepts_exactly_valid_encodings() {
    let valid = CompressedSignature { signature: g1_bytes(&(G1Projective::generator() * Fr::from(5u64))) };
    let sig = valid.uncompress().unwrap();
    assert_eq!(sig.compress().signature, valid.signature);

    let invalid = CompressedSignature { signature: [0xffu8; 95] };
    assert!(invalid.uncompress().is_err());
}

#[test]
fn public_key_validation() {
    let good = g2_bytes(&(G2Projective::generator() * Fr::from(9u64)));
    let key = PublicKey::from_compressed(good).unwrap();
    assert_eq!(key.to_compressed(), good);
    assert!(PublicKey::from_compressed([0xffu8; 285]).is_none());
}

#[test]
fn to_hex_encodes_lowercase_pairs() {
    let c = CompressedSignature { signature: [0xabu8; 95] };
    assert_eq!(c.to_hex(), "ab".repeat(95));
    let d = CompressedSignature::default();
    assert_eq!(d.to_hex(), "00".repeat(95));
}

#[test]
fn aggregation_matches_direct_sum() {
    let gen = G2Projective::generator();
    let sks: Vec<Fr> = (0..4).map(|i| Fr::from(i as u64 + 11)).collect();
    let points: Vec<G2Projective> = sks.iter().map(|sk| gen * sk).collect();
    let keys: Vec<PublicKey> =
        points.iter().map(|p| PublicKey::from_compressed(g2_bytes(p)).unwrap()).collect();
    let bitmap = vec![true, true, false, true];
    let agg = MacroBlockGadget::aggregate_public_key(&keys, &bitmap, None, 10).unwrap();
    let expected = points[0] + points[1] + points[3];
    assert_eq!(agg.to_compressed(), g2_bytes(&expected));
}

#[test]
fn non_signer_bound_is_strict() {
    let gen = G2Projective::generator();
    let points: Vec<G2Projective> = (0..4).map(|i| gen * Fr::from(i as u64 + 3)).collect();
    let keys: Vec<PublicKey> =
        points.iter().map(|p| PublicKey::from_compressed(g2_bytes(p)).unwrap()).collect();
    // Two zeros: rejected at bound 2, accepted at bound 3.
    let bitmap = vec![true, false, true, false];
    assert_eq!(
        MacroBlockGadget::aggregate_public_key(&keys, &bitmap, None, 2).unwrap_err(),
        SynthesisError::Unsatisfiable
    );
    assert!(MacroBlockGadget::aggregate_public_key(&keys, &bitmap, None, 3).is_ok());
}

#[test]
fn all_zero_bitmap_gives_the_neutral_aggregate() {
    let gen = G2Projective::generator();
    let points: Vec<G2Projective> = (0..4).map(|i| gen * Fr::from(i as u64 + 3)).collect();
    let keys: Vec<PublicKey> =
        points.iter().map(|p| PublicKey::from_compressed(g2_bytes(p)).unwrap()).collect();
    let bitmap = vec![false; 4];
    // Legal input: the generator offset cancels to the neutral element,
    // but the bound must tolerate every position unsigned.
    let agg = MacroBlockGadget::aggregate_public_key(&keys, &bitmap, None, 5).unwrap();
    assert_eq!(agg.to_compressed(), g2_bytes(&G2Projective::ZERO));
    assert_eq!(
        MacroBlockGadget::aggregate_public_key(&keys, &bitmap, None, 4).unwrap_err(),
        SynthesisError::Unsatisfiable
    );
}

#[test]
fn commit_bit_without_prepare_bit_is_ignored() {
    let gen = G2Projective::generator();
    let points: Vec<G2Projective> = (0..4).map(|i| gen * Fr::from(i as u64 + 21)).collect();
    let keys: Vec<PublicKey> =
        points.iter().map(|p| PublicKey::from_compressed(g2_bytes(p)).unwrap()).collect();
    let commit_bitmap = vec![true, true, true, true];
    let prepare_bitmap = vec![false, true, true, true];
    // Position 0 signed commit but not prepare: it is a non-signer, so at
    // bound 1 the round is rejected; ignoring the rule would accept it.
    assert_eq!(
        MacroBlockGadget::aggregate_public_key(&keys, &commit_bitmap, Some(&prepare_bitmap), 1)
            .unwrap_err(),
        SynthesisError::Unsatisfiable
    );
    // And its key does not enter the aggregate.
    let agg =
        MacroBlockGadget::aggregate_public_key(&keys, &commit_bitmap, Some(&prepare_bitmap), 10)
            .unwrap();
    let expected = points[1] + points[2] + points[3];
    assert_eq!(agg.to_compressed(), g2_bytes(&expected));
}
