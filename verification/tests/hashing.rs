use ark_ec::{CurveGroup, PrimeGroup};
use ark_mnt6_753::{Fr, G2Projective};
use ark_serialize::CanonicalSerialize;
use blake2::{Blake2s256, Digest};

use nano_sync::bls::PublicKey;
use nano_sync::state_hash::{StateCommitmentGadget, StateHashGadget};

fn g2_bytes(p: &G2Projective) -> [u8; 285] {
    let mut v: Vec<u8> = Vec::new();
    p.into_affine().serialize_compressed(&mut v).unwrap();
    v.try_into().unwrap()
}

fn sample_keys(n: u64) -> Vec<PublicKey> {
    let gen = G2Projective::generator();
    (0..n)
        .map(|i| PublicKey::from_compressed(g2_bytes(&(gen * Fr::from(i + 5)))).unwrap())
        .collect()
}

#[test]
fn state_hash_matches_independent_recomputation() {
    // The serialization discipline: big-endian block number, then each
    // key's compressed encoding, fed to Blake2s. Recomputed here from
    // scratch, outside the library's own pipeline.
    let keys = sample_keys(3);
    let block_number: u32 = 0x0102_0304;
    let digest = StateHashGadget::evaluate_bytes(block_number, &keys);

    let mut preimage: Vec<u8> = Vec::new();
    preimage.extend_from_slice(&block_number.to_be_bytes());
    for key in &keys {
        preimage.extend_from_slice(&key.to_compressed());
    }
    let expected: [u8; 32] = Blake2s256::digest(&preimage).into();
    assert_eq!(digest, expected);
}

#[test]
fn state_words_read_digest_little_endian() {
    let keys = sample_keys(2);
    let digest = StateHashGadget::evaluate_bytes(77, &keys);
    let words = StateHashGadget::evaluate(77, &keys);
    assert_eq!(words.len(), 8);
    for i in 0..8 {
        let mut w = [0u8; 4];
        w.copy_from_slice(&digest[4 * i..4 * i + 4]);
        assert_eq!(words[i], u32::from_le_bytes(w));
    }
}

#[test]
fn state_hash_is_deterministic() {
    let keys = sample_keys(2);
    assert_eq!(
        StateHashGadget::evaluate_bytes(9, &keys),
        StateHashGadget::evaluate_bytes(9, &keys)
    );
    assert_ne!(
        StateHashGadget::evaluate_bytes(9, &keys),
        StateHashGadget::evaluate_bytes(10, &keys)
    );
}

#[test]
fn state_commitment_matches_independent_recomputation() {
    let pks_commitment: Vec<u8> = (0u8..32).collect();
    let commitment = StateCommitmentGadget::evaluate(5, &pks_commitment);
    let mut preimage: Vec<u8> = Vec::new();
    preimage.extend_from_slice(&5u32.to_be_bytes());
    preimage.extend_from_slice(&pks_commitment);
    let expected: [u8; 32] = Blake2s256::digest(&preimage).into();
    assert_eq!(commitment, expected.to_vec());
}
