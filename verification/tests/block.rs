use ark_ec::{AffineRepr, CurveGroup, PrimeGroup};
use ark_mnt6_753::{Fr, G1Affine, G1Projective, G2Projective};
use ark_serialize::{CanonicalDeserialize, CanonicalSerialize};

use nano_sync::bls::{CompressedSignature, PublicKey, Signature};
use nano_sync::circuit::MacroBlockCircuit;
use nano_sync::constants::{EPOCH_LENGTH, MAX_NON_SIGNERS, VALIDATOR_SLOTS};
use nano_sync::errors::SynthesisError;
use nano_sync::macro_block::{MacroBlockGadget, Round};
use nano_sync::primitives::MacroBlock;
use nano_sync::state_hash::StateHashGadget;

fn g1_bytes(p: &G1Projective) -> [u8; 95] {
    let mut v: Vec<u8> = Vec::new();
    p.into_affine().serialize_compressed(&mut v).unwrap();
    v.try_into().unwrap()
}

fn g2_bytes(p: &G2Projective) -> [u8; 285] {
    let mut v: Vec<u8> = Vec::new();
    p.into_affine().serialize_compressed(&mut v).unwrap();
    v.try_into().unwrap()
}

fn g1_point(bytes: &[u8; 95]) -> G1Projective {
    G1Affine::deserialize_compressed(&bytes[..]).unwrap().into_group()
}

fn signature_of(p: &G1Projective) -> Signature {
    CompressedSignature { signature: g1_bytes(p) }.uncompress().unwrap()
}

fn validator_keys() -> (Vec<Fr>, Vec<PublicKey>) {
    let gen = G2Projective::generator();
    let sks: Vec<Fr> = (0..VALIDATOR_SLOTS).map(|i| Fr::from(i as u64 + 2)).collect();
    let keys = sks
        .iter()
        .map(|sk| PublicKey::from_compressed(g2_bytes(&(gen * sk))).unwrap())
        .collect();
    (sks, keys)
}

fn next_validator_keys() -> Vec<PublicKey> {
    let gen = G2Projective::generator();
    (0..VALIDATOR_SLOTS)
        .map(|i| PublicKey::from_compressed(g2_bytes(&(gen * Fr::from(i as u64 + 100)))).unwrap())
        .collect()
}

/// Builds a block over `signer_sks` whose two-round signatures are honest
/// for the given bitmaps.
fn build_block(
    block_number: u32,
    signer_sks: &[Fr],
    next_keys: &[PublicKey],
    prepare_bitmap: Vec<bool>,
    commit_bitmap: Vec<bool>,
) -> MacroBlock {
    let dummy = signature_of(&G1Projective::generator());
    let mut block = MacroBlock {
        header_hash: [7u8; 32],
        public_keys: next_keys.to_vec(),
        prepare_signature: Some(dummy),
        prepare_signer_bitmap: prepare_bitmap.clone(),
        commit_signature: Some(dummy),
        commit_signer_bitmap: commit_bitmap.clone(),
    };
    let gadget = MacroBlockGadget::from_block(&block).unwrap();
    let h0 = gadget.hash(Round::Prepare, block_number).unwrap();
    let h1 = gadget.hash(Round::Commit, block_number).unwrap();
    let h0_point = g1_point(&h0.compress().signature);
    let h1_point = g1_point(&h1.compress().signature);
    let mut prepare_sum = Fr::from(0u64);
    let mut commit_sum = Fr::from(0u64);
    for i in 0..signer_sks.len() {
        if prepare_bitmap[i] {
            prepare_sum += signer_sks[i];
        }
        if commit_bitmap[i] && prepare_bitmap[i] {
            commit_sum += signer_sks[i];
        }
    }
    block.prepare_signature = Some(signature_of(&(h0_point * prepare_sum)));
    block.commit_signature = Some(signature_of(&(h1_point * commit_sum)));
    block
}

#[test]
fn valid_block_is_accepted() {
    let (sks, keys) = validator_keys();
    let bitmap = vec![true; VALIDATOR_SLOTS];
    let block = build_block(42, &sks, &next_validator_keys(), bitmap.clone(), bitmap);
    let gadget = MacroBlockGadget::from_block(&block).unwrap();
    assert_eq!(gadget.verify(&keys, MAX_NON_SIGNERS, 42), Ok(()));
}

#[test]
fn non_signer_boundary_on_full_block() {
    let (sks, keys) = validator_keys();
    // Exactly MAX_NON_SIGNERS zeros: rejected.
    let mut bitmap = vec![true; VALIDATOR_SLOTS];
    for i in 0..MAX_NON_SIGNERS as usize {
        bitmap[i] = false;
    }
    let block = build_block(42, &sks, &next_validator_keys(), bitmap.clone(), bitmap);
    let gadget = MacroBlockGadget::from_block(&block).unwrap();
    assert_eq!(
        gadget.verify(&keys, MAX_NON_SIGNERS, 42),
        Err(SynthesisError::Unsatisfiable)
    );

    // One zero fewer: accepted.
    let mut bitmap2 = vec![true; VALIDATOR_SLOTS];
    for i in 0..(MAX_NON_SIGNERS as usize - 1) {
        bitmap2[i] = false;
    }
    let block2 = build_block(42, &sks, &next_validator_keys(), bitmap2.clone(), bitmap2);
    let gadget2 = MacroBlockGadget::from_block(&block2).unwrap();
    assert_eq!(gadget2.verify(&keys, MAX_NON_SIGNERS, 42), Ok(()));
}

#[test]
fn flipped_signature_bit_is_rejected() {
    let (sks, keys) = validator_keys();
    let bitmap = vec![true; VALIDATOR_SLOTS];
    let block = build_block(42, &sks, &next_validator_keys(), bitmap.clone(), bitmap);
    let mut compressed = block.prepare_signature.unwrap().compress();
    compressed.signature[0] ^= 1;
    match compressed.uncompress() {
        Err(_) => (),
        Ok(tampered) => {
            let mut bad = block;
            bad.prepare_signature = Some(tampered);
            let gadget = MacroBlockGadget::from_block(&bad).unwrap();
            assert!(gadget.verify(&keys, MAX_NON_SIGNERS, 42).is_err());
        },
    }
}

#[test]
fn flipped_public_key_bit_is_rejected() {
    let (sks, keys) = validator_keys();
    let bitmap = vec![true; VALIDATOR_SLOTS];
    let block = build_block(42, &sks, &next_validator_keys(), bitmap.clone(), bitmap);
    let mut key_bytes = keys[0].to_compressed();
    key_bytes[0] ^= 1;
    match PublicKey::from_compressed(key_bytes) {
        None => (),
        Some(tampered) => {
            let mut bad_keys = keys;
            bad_keys[0] = tampered;
            let gadget = MacroBlockGadget::from_block(&block).unwrap();
            assert!(gadget.verify(&bad_keys, MAX_NON_SIGNERS, 42).is_err());
        },
    }
}

#[test]
fn missing_signature_is_a_construction_error() {
    let (sks, keys) = validator_keys();
    let _ = keys;
    let bitmap = vec![true; VALIDATOR_SLOTS];
    let mut block = build_block(42, &sks, &next_validator_keys(), bitmap.clone(), bitmap);
    block.commit_signature = None;
    assert_eq!(
        MacroBlockGadget::from_block(&block).unwrap_err(),
        SynthesisError::AssignmentMissing
    );
    let mut short = build_block(
        42,
        &sks,
        &next_validator_keys(),
        vec![true; VALIDATOR_SLOTS],
        vec![true; VALIDATOR_SLOTS],
    );
    short.prepare_signer_bitmap.pop();
    assert_eq!(
        MacroBlockGadget::from_block(&short).unwrap_err(),
        SynthesisError::MalformedWitness
    );
}

#[test]
fn state_transition_circuit_accepts_valid_witness() {
    let (sks, prev_keys) = validator_keys();
    let next_keys = next_validator_keys();
    let bitmap = vec![true; VALIDATOR_SLOTS];
    let block = build_block(42, &sks, &next_keys, bitmap.clone(), bitmap);
    let initial = StateHashGadget::evaluate(42, &prev_keys);
    let final_words = StateHashGadget::evaluate(42 + EPOCH_LENGTH, &block.public_keys);
    let circuit = MacroBlockCircuit::new(prev_keys, 42, block, initial, final_words);
    assert_eq!(circuit.generate_constraints(), Ok(()));
}

#[test]
fn wrong_final_block_number_is_rejected() {
    let (sks, prev_keys) = validator_keys();
    let next_keys = next_validator_keys();
    let bitmap = vec![true; VALIDATOR_SLOTS];
    let block = build_block(42, &sks, &next_keys, bitmap.clone(), bitmap);
    let initial = StateHashGadget::evaluate(42, &prev_keys);
    let wrong_final = StateHashGadget::evaluate(42 + EPOCH_LENGTH + 1, &block.public_keys);
    let circuit = MacroBlockCircuit::new(prev_keys, 42, block, initial, wrong_final);
    assert_eq!(
        circuit.generate_constraints(),
        Err(SynthesisError::Unsatisfiable)
    );
}

#[test]
fn wrong_initial_state_is_rejected() {
    let (sks, prev_keys) = validator_keys();
    let next_keys = next_validator_keys();
    let bitmap = vec![true; VALIDATOR_SLOTS];
    let block = build_block(42, &sks, &next_keys, bitmap.clone(), bitmap);
    let wrong_initial = StateHashGadget::evaluate(43, &prev_keys);
    let final_words = StateHashGadget::evaluate(42 + EPOCH_LENGTH, &block.public_keys);
    let circuit = MacroBlockCircuit::new(prev_keys, 42, block, wrong_initial, final_words);
    assert_eq!(
        circuit.generate_constraints(),
        Err(SynthesisError::Unsatisfiable)
    );
}
