use ark_ec::{AffineRepr, CurveGroup, PrimeGroup};
use ark_mnt6_753::{Fr, G1Affine, G1Projective, G2Projective};
use ark_serialize::{CanonicalDeserialize, CanonicalSerialize};
use blake2::{Blake2s256, Digest};

use nano_sync::bls::{CompressedSignature, PublicKey, Signature};
use nano_sync::constants::{EPOCH_LENGTH, PK_TREE_BREADTH, VALIDATOR_SLOTS};
use nano_sync::errors::SynthesisError;
use nano_sync::hash_to_curve::try_and_increment;
use nano_sync::macro_block::MacroBlockGadget;
use nano_sync::pk_tree::{
    commit_to_aggregate, fold_commitments, leaf_aggregate, recompose_aggregate, split_into_chunks,
};
use nano_sync::primitives::MacroBlock;
use nano_sync::recursive::MacroBlockCircuit;
use nano_sync::state_hash::StateCommitmentGadget;

fn g1_bytes(p: &G1Projective) -> [u8; 95] {
    let mut v: Vec<u8> = Vec::new();
    p.into_affine().serialize_compressed(&mut v).unwrap();
    v.try_into().unwrap()
}

fn g2_bytes(p: &G2Projective) -> [u8; 285] {
    let mut v: Vec<u8> = Vec::new();
    p.into_affine().serialize_compressed(&mut v).unwrap();
    v.try_into().unwrap()
}

fn make_keys(n: usize, offset: u64) -> Vec<PublicKey> {
    let gen = G2Projective::generator();
    (0..n)
        .map(|i| {
            PublicKey::from_compressed(g2_bytes(&(gen * Fr::from(i as u64 + offset)))).unwrap()
        })
        .collect()
}

#[test]
fn chunked_aggregation_equals_direct_aggregation() {
    // Split the set, aggregate each chunk at a leaf, recompose, and compare
    // with aggregating the whole set at once: the chunking loses nothing.
    let keys = make_keys(VALIDATOR_SLOTS, 31);
    let bitmap: Vec<bool> = (0..VALIDATOR_SLOTS).map(|i| i % 3 != 0).collect();
    let (key_chunks, bitmap_chunks) = split_into_chunks(&keys, &bitmap, PK_TREE_BREADTH);
    let mut chunk_aggregates: Vec<PublicKey> = Vec::new();
    for c in 0..PK_TREE_BREADTH {
        chunk_aggregates.push(leaf_aggregate(&key_chunks[c], &bitmap_chunks[c], None));
    }
    let recomposed = recompose_aggregate(&chunk_aggregates);
    let direct = MacroBlockGadget::aggregate_public_key(&keys, &bitmap, None, u64::MAX).unwrap();
    assert_eq!(recomposed.to_compressed(), direct.to_compressed());
    assert_eq!(
        commit_to_aggregate(&recomposed),
        commit_to_aggregate(&direct)
    );
}

#[test]
fn split_into_chunks_covers_the_set_in_order() {
    let keys = make_keys(8, 3);
    let bitmap: Vec<bool> = (0..8).map(|i| i % 2 == 0).collect();
    let (key_chunks, bitmap_chunks) = split_into_chunks(&keys, &bitmap, 4);
    assert_eq!(key_chunks.len(), 4);
    let mut flat_keys: Vec<PublicKey> = Vec::new();
    let mut flat_bits: Vec<bool> = Vec::new();
    for c in 0..4 {
        assert_eq!(key_chunks[c].len(), 2);
        flat_keys.extend_from_slice(&key_chunks[c]);
        flat_bits.extend_from_slice(&bitmap_chunks[c]);
    }
    for i in 0..8 {
        assert_eq!(flat_keys[i].to_compressed(), keys[i].to_compressed());
    }
    assert_eq!(flat_bits, bitmap);
}

#[test]
fn node_commitment_folds_children() {
    let left: Vec<u8> = (0u8..32).collect();
    let right: Vec<u8> = (100u8..132).collect();
    let parent = fold_commitments(&left, &right);
    let mut preimage = left.clone();
    preimage.extend_from_slice(&right);
    let expected: [u8; 32] = Blake2s256::digest(&preimage).into();
    assert_eq!(parent, expected.to_vec());
}

#[test]
fn aggregate_commitment_hashes_the_encoding() {
    let keys = make_keys(1, 9);
    let expected: [u8; 32] = Blake2s256::digest(&keys[0].to_compressed()).into();
    assert_eq!(commit_to_aggregate(&keys[0]), expected.to_vec());
}

#[test]
fn recursive_circuit_accepts_valid_witness() {
    let gen2 = G2Projective::generator();
    let sks: Vec<Fr> = (0..VALIDATOR_SLOTS).map(|i| Fr::from(i as u64 + 2)).collect();
    let keys = make_keys(VALIDATOR_SLOTS, 2);
    let next_keys = make_keys(VALIDATOR_SLOTS, 100);
    let bitmap = vec![true; VALIDATOR_SLOTS];

    let initial_pks_commitment: Vec<u8> = (0u8..32).collect();
    let mut final_pks_commitment: Vec<u8> = Vec::new();
    for key in &next_keys {
        final_pks_commitment.extend_from_slice(&key.to_compressed());
    }
    let final_pks_commitment: Vec<u8> = Blake2s256::digest(&final_pks_commitment).to_vec();

    let block_number: u32 = 7;
    let header = [9u8; 32];

    // Message points in the commitment form, recomputed from scratch.
    let digest_for = |tag: u8| -> [u8; 32] {
        let mut m: Vec<u8> = Vec::new();
        m.push(tag);
        m.extend_from_slice(&block_number.to_be_bytes());
        m.extend_from_slice(&header);
        m.extend_from_slice(&final_pks_commitment);
        Blake2s256::digest(&m).into()
    };
    let h0 = try_and_increment(&digest_for(0)).unwrap();
    let h1 = try_and_increment(&digest_for(1)).unwrap();
    let to_point = |s: &Signature| -> G1Projective {
        G1Affine::deserialize_compressed(&s.compress().signature[..]).unwrap().into_group()
    };
    let sk_sum: Fr = sks.iter().copied().sum();
    let prepare_signature = CompressedSignature {
        signature: g1_bytes(&(to_point(&h0) * sk_sum)),
    }
    .uncompress()
    .unwrap();
    let commit_signature = CompressedSignature {
        signature: g1_bytes(&(to_point(&h1) * sk_sum)),
    }
    .uncompress()
    .unwrap();

    let block = MacroBlock {
        header_hash: header,
        public_keys: next_keys,
        prepare_signature: Some(prepare_signature),
        prepare_signer_bitmap: bitmap.clone(),
        commit_signature: Some(commit_signature),
        commit_signer_bitmap: bitmap,
    };

    // The aggregate of all keys, handed over as two chunks that carry the
    // generator offset: `apk + G` and the bare generator.
    let apk: G2Projective = sks.iter().map(|sk| gen2 * sk).sum();
    let chunk0 = PublicKey::from_compressed(g2_bytes(&(apk + gen2))).unwrap();
    let chunk1 = PublicKey::from_compressed(g2_bytes(&gen2)).unwrap();

    let initial_state_commitment =
        StateCommitmentGadget::evaluate(block_number, &initial_pks_commitment);
    let final_state_commitment =
        StateCommitmentGadget::evaluate(block_number + EPOCH_LENGTH, &final_pks_commitment);

    let circuit = MacroBlockCircuit::new(
        vec![chunk0, chunk1],
        vec![chunk0, chunk1],
        initial_pks_commitment,
        block_number,
        final_pks_commitment,
        block,
        initial_state_commitment,
        final_state_commitment,
    );
    assert_eq!(circuit.generate_constraints(true), Ok(()));
    // The same witness with the tree's root proof rejected is unsatisfiable.
    assert_eq!(
        circuit.generate_constraints(false),
        Err(SynthesisError::Unsatisfiable)
    );

    let inputs = circuit.public_inputs();
    assert_eq!(inputs.len(), 8);
    assert_eq!(inputs[0], circuit.initial_state_commitment);
    assert_eq!(inputs[1].len(), VALIDATOR_SLOTS / 8);
    assert_eq!(inputs[2], commit_to_aggregate(&circuit.prepare_agg_pk_chunks[0]));
    assert_eq!(inputs[7], vec![0u8]);
}
