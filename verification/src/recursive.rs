//! The state-transition circuit whose size is independent of the validator
//! set: key aggregation is delegated to the tree of key-aggregation
//! circuits.
//!
//! The witness carries the two rounds' aggregate keys in chunks, a
//! commitment to each key set instead of the keys themselves, and the tree's
//! root proof. The circuit recomputes both state commitments, recomposes the
//! aggregates from the chunks, and checks the block against them; the root
//! proof is checked by the outer proof system against exactly the public
//! input blocks this module assembles, and the circuit takes that verdict
//! as an input.

use vstd::prelude::*;

use crate::bls::{PublicKey, Signature};
use crate::circuit::{compute_next_block_number, next_block_number};
use crate::constants::{MAX_NON_SIGNERS, VALIDATOR_SLOTS};
use crate::curve::{
    g1_add, g1_generator, g1_sub, pairing_of, pairing_product2_of, G2_GENERATOR_BYTES,
};
use crate::errors::SynthesisError;
use crate::hash_to_curve::{hash_ctr_of, hash_point_of, try_and_increment};
use crate::hashes::{blake2s, blake2s_of};
use crate::macro_block::{
    combined_signature_of, CheckSigGadget, MacroBlockGadget, Round,
};
use crate::pk_tree::{commit_to_aggregate, key_commitment_of, recomposed_aggregate_of,
    recompose_aggregate};
use crate::primitives::MacroBlock;
use crate::serialize::{key_views, u32_be_bytes, u32_to_be_bytes};
use crate::state_hash::{state_commitment_of, StateCommitmentGadget};
use crate::utils::{
    bits_of_bytes, bits_to_bytes, bits_to_bytes_le, bytes_eq, bytes_from_bits, bytes_from_bits_le,
    bytes_to_bits, copy_vec,
};

verus! {

/// The digest of a round's message in the commitment form: the key set is
/// represented by its commitment rather than by the keys themselves.
pub open spec fn commitment_message_digest_of(
    round_tag: u8,
    block_number: u32,
    header_hash: Seq<u8>,
    pks_commitment: Seq<u8>,
) -> Seq<u8> {
    blake2s_of(
        bytes_from_bits(
            bits_of_bytes(seq![round_tag]) + bits_of_bytes(u32_be_bytes(block_number))
                + bits_of_bytes(header_hash) + bits_of_bytes(pks_commitment),
        ),
    )
}

/// The macro block circuit in its recursive form.
pub struct MacroBlockCircuit {
    pub prepare_agg_pk_chunks: Vec<PublicKey>,
    pub commit_agg_pk_chunks: Vec<PublicKey>,
    pub initial_pks_commitment: Vec<u8>,
    pub initial_block_number: u32,
    pub final_pks_commitment: Vec<u8>,
    pub block: MacroBlock,
    pub initial_state_commitment: Vec<u8>,
    pub final_state_commitment: Vec<u8>,
}

impl MacroBlockCircuit {
    /// Assembles a circuit instance from its witness and public inputs.
    pub fn new(
        prepare_agg_pk_chunks: Vec<PublicKey>,
        commit_agg_pk_chunks: Vec<PublicKey>,
        initial_pks_commitment: Vec<u8>,
        initial_block_number: u32,
        final_pks_commitment: Vec<u8>,
        block: MacroBlock,
        initial_state_commitment: Vec<u8>,
        final_state_commitment: Vec<u8>,
    ) -> (r: Self)
        ensures
            r.prepare_agg_pk_chunks@ == prepare_agg_pk_chunks@,
            r.commit_agg_pk_chunks@ == commit_agg_pk_chunks@,
            r.initial_pks_commitment@ == initial_pks_commitment@,
            r.initial_block_number == initial_block_number,
            r.final_pks_commitment@ == final_pks_commitment@,
            r.block == block,
            r.initial_state_commitment@ == initial_state_commitment@,
            r.final_state_commitment@ == final_state_commitment@,
    {
        Self {
            prepare_agg_pk_chunks,
            commit_agg_pk_chunks,
            initial_pks_commitment,
            initial_block_number,
            final_pks_commitment,
            block,
            initial_state_commitment,
            final_state_commitment,
        }
    }

    /// The witness has the lengths the circuit shape fixes: two chunks per
    /// round, 32-byte commitments, and a well-formed block.
    pub open spec fn wf_witness(self) -> bool {
        &&& self.prepare_agg_pk_chunks@.len() == 2
        &&& self.commit_agg_pk_chunks@.len() == 2
        &&& self.initial_pks_commitment@.len() == 32
        &&& self.final_pks_commitment@.len() == 32
        &&& self.initial_state_commitment@.len() == 32
        &&& self.final_state_commitment@.len() == 32
        &&& self.block.wf_witness()
    }

    /// The initial public input equals the recomputed state commitment.
    pub open spec fn initial_state_ok(self) -> bool {
        self.initial_state_commitment@ == state_commitment_of(
            self.initial_block_number,
            self.initial_pks_commitment@,
        )
    }

    /// The final public input equals the state commitment of the stepped
    /// block number and the final key-set commitment.
    pub open spec fn final_state_ok(self) -> bool {
        self.final_state_commitment@ == state_commitment_of(
            next_block_number(self.initial_block_number),
            self.final_pks_commitment@,
        )
    }

    /// A round's aggregate key, recomposed from its chunks.
    pub open spec fn round_aggregate(self, round: Round) -> Seq<u8> {
        match round {
            Round::Prepare => recomposed_aggregate_of(key_views(self.prepare_agg_pk_chunks@)),
            Round::Commit => recomposed_aggregate_of(key_views(self.commit_agg_pk_chunks@)),
        }
    }

    /// The digest of a round's message over the final key-set commitment.
    pub open spec fn message_digest(self, round: Round) -> Seq<u8> {
        commitment_message_digest_of(
            round.spec_tag(),
            self.initial_block_number,
            self.block.header_hash@,
            self.final_pks_commitment@,
        )
    }

    /// Whether both rounds' message digests map onto curve points.
    pub open spec fn hashes_found(self) -> bool {
        &&& hash_ctr_of(self.message_digest(Round::Prepare)) < 256
        &&& hash_ctr_of(self.message_digest(Round::Commit)) < 256
    }

    /// Whether the combined signature passes the pairing check against the
    /// recomposed aggregates.
    pub open spec fn signatures_valid(self) -> bool {
        pairing_of(
            combined_signature_of(
                self.block.prepare_signature.unwrap()@,
                self.block.commit_signature.unwrap()@,
            ),
            G2_GENERATOR_BYTES@,
        ) == pairing_product2_of(
            hash_point_of(self.message_digest(Round::Prepare)),
            self.round_aggregate(Round::Prepare),
            hash_point_of(self.message_digest(Round::Commit)),
            self.round_aggregate(Round::Commit),
        )
    }

    /// The circuit is satisfied: state commitments match, the tree's root
    /// proof was accepted, both bounds hold and the pairing check passes.
    pub open spec fn satisfied(self, pk_tree_proof_accepted: bool) -> bool {
        &&& self.wf_witness()
        &&& self.initial_state_ok()
        &&& self.final_state_ok()
        &&& pk_tree_proof_accepted
        &&& self.hashes_found()
        &&& self.block.round_count_ok(Round::Prepare, MAX_NON_SIGNERS)
        &&& self.block.round_count_ok(Round::Commit, MAX_NON_SIGNERS)
        &&& self.signatures_valid()
    }

    /// The error `generate_constraints` reports, by the first check that
    /// fails.
    pub open spec fn error_of(self, pk_tree_proof_accepted: bool) -> SynthesisError {
        if self.prepare_agg_pk_chunks@.len() != 2 || self.commit_agg_pk_chunks@.len() != 2
            || self.initial_pks_commitment@.len() != 32 || self.final_pks_commitment@.len() != 32
            || self.initial_state_commitment@.len() != 32
            || self.final_state_commitment@.len() != 32
            || self.block.public_keys@.len() != VALIDATOR_SLOTS as int
            || self.block.prepare_signer_bitmap@.len() != VALIDATOR_SLOTS as int
            || self.block.commit_signer_bitmap@.len() != VALIDATOR_SLOTS as int {
            SynthesisError::MalformedWitness
        } else if !(self.block.prepare_signature is Some && self.block.commit_signature is Some) {
            SynthesisError::AssignmentMissing
        } else if !self.initial_state_ok() {
            SynthesisError::Unsatisfiable
        } else if !self.final_state_ok() {
            SynthesisError::Unsatisfiable
        } else if !pk_tree_proof_accepted {
            SynthesisError::Unsatisfiable
        } else if hash_ctr_of(self.message_digest(Round::Prepare)) >= 256 {
            SynthesisError::DigestPointNotFound
        } else if !self.block.round_count_ok(Round::Prepare, MAX_NON_SIGNERS) {
            SynthesisError::Unsatisfiable
        } else if hash_ctr_of(self.message_digest(Round::Commit)) >= 256 {
            SynthesisError::DigestPointNotFound
        } else {
            SynthesisError::Unsatisfiable
        }
    }

    /// The public input blocks of the tree's root proof, in their fixed
    /// order: the initial state commitment, then per round the signer
    /// bitmap's bytes and the two chunk commitments, then the reserved
    /// position byte.
    pub fn public_inputs(&self) -> (r: Vec<Vec<u8>>)
        requires
            self.wf_witness(),
        ensures
            r@.len() == 8,
            r@[0]@ == self.initial_state_commitment@,
            r@[1]@ == bytes_from_bits_le(self.block.prepare_signer_bitmap@),
            r@[2]@ == key_commitment_of(self.prepare_agg_pk_chunks@[0]@),
            r@[3]@ == key_commitment_of(self.prepare_agg_pk_chunks@[1]@),
            r@[4]@ == bytes_from_bits_le(self.block.commit_signer_bitmap@),
            r@[5]@ == key_commitment_of(self.commit_agg_pk_chunks@[0]@),
            r@[6]@ == key_commitment_of(self.commit_agg_pk_chunks@[1]@),
            r@[7]@ == seq![0u8],
    {
        let mut inputs: Vec<Vec<u8>> = Vec::new();
        inputs.push(copy_vec(&self.initial_state_commitment));
        inputs.push(bits_to_bytes_le(&self.block.prepare_signer_bitmap));
        inputs.push(commit_to_aggregate(&self.prepare_agg_pk_chunks[0]));
        inputs.push(commit_to_aggregate(&self.prepare_agg_pk_chunks[1]));
        inputs.push(bits_to_bytes_le(&self.block.commit_signer_bitmap));
        inputs.push(commit_to_aggregate(&self.commit_agg_pk_chunks[0]));
        inputs.push(commit_to_aggregate(&self.commit_agg_pk_chunks[1]));
        let mut position: Vec<u8> = Vec::new();
        position.push(0u8);
        proof {
            assert(position@ =~= seq![0u8]);
        }
        inputs.push(position);
        inputs
    }

    /// The message point of a round over the final key-set commitment.
    fn message_point(&self, round: Round) -> (r: Result<Signature, SynthesisError>)
        requires
            self.wf_witness(),
        ensures
            r is Ok <==> hash_ctr_of(self.message_digest(round)) < 256,
            r is Ok ==> r.unwrap()@ == hash_point_of(self.message_digest(round)),
            r is Err ==> r.unwrap_err() == SynthesisError::DigestPointNotFound,
    {
        let mut tag_byte: Vec<u8> = Vec::new();
        tag_byte.push(round.tag());
        let mut bits = bytes_to_bits(tag_byte.as_slice());
        proof {
            assert(tag_byte@ =~= seq![round.spec_tag()]);
        }
        let bn_bytes = u32_to_be_bytes(self.initial_block_number);
        let mut bn_bits = bytes_to_bits(bn_bytes.as_slice());
        bits.append(&mut bn_bits);
        let mut header_bits = bytes_to_bits(self.block.header_hash.as_slice());
        bits.append(&mut header_bits);
        let mut commitment_bits = bytes_to_bits(self.final_pks_commitment.as_slice());
        bits.append(&mut commitment_bits);
        proof {
            assert(bits@ =~= bits_of_bytes(seq![round.spec_tag()]) + bits_of_bytes(
                u32_be_bytes(self.initial_block_number),
            ) + bits_of_bytes(self.block.header_hash@) + bits_of_bytes(
                self.final_pks_commitment@,
            ));
            assert(bits@.len() % 8 == 0);
        }
        let bytes = bits_to_bytes(&bits);
        let digest = blake2s(&bytes);
        try_and_increment(&digest)
    }

    /// Evaluates the circuit: `Ok` exactly when it is satisfied with the
    /// given root-proof verdict, the typed construction error on a
    /// malformed witness, and `Unsatisfiable` on any failed equality,
    /// bound, proof or pairing check.
    pub fn generate_constraints(&self, pk_tree_proof_accepted: bool) -> (r: Result<
        (),
        SynthesisError,
    >)
        ensures
            r is Ok <==> self.satisfied(pk_tree_proof_accepted),
            r is Err ==> r.unwrap_err() == self.error_of(pk_tree_proof_accepted),
    {
        if self.prepare_agg_pk_chunks.len() != 2 || self.commit_agg_pk_chunks.len() != 2
            || self.initial_pks_commitment.len() != 32 || self.final_pks_commitment.len() != 32
            || self.initial_state_commitment.len() != 32 || self.final_state_commitment.len() != 32
            || self.block.public_keys.len() != VALIDATOR_SLOTS
            || self.block.prepare_signer_bitmap.len() != VALIDATOR_SLOTS
            || self.block.commit_signer_bitmap.len() != VALIDATOR_SLOTS {
            return Err(SynthesisError::MalformedWitness);
        }
        let prepare_signature = match &self.block.prepare_signature {
            Some(s) => *s,
            None => {
                return Err(SynthesisError::AssignmentMissing);
            },
        };
        let commit_signature = match &self.block.commit_signature {
            Some(s) => *s,
            None => {
                return Err(SynthesisError::AssignmentMissing);
            },
        };
        let reference_commitment = StateCommitmentGadget::evaluate(
            self.initial_block_number,
            &self.initial_pks_commitment,
        );
        if !bytes_eq(&self.initial_state_commitment, &reference_commitment) {
            return Err(SynthesisError::Unsatisfiable);
        }
        let final_block_number = compute_next_block_number(self.initial_block_number);
        let final_reference_commitment = StateCommitmentGadget::evaluate(
            final_block_number,
            &self.final_pks_commitment,
        );
        if !bytes_eq(&self.final_state_commitment, &final_reference_commitment) {
            return Err(SynthesisError::Unsatisfiable);
        }
        if !pk_tree_proof_accepted {
            return Err(SynthesisError::Unsatisfiable);
        }
        let prepare_agg_pk = recompose_aggregate(&self.prepare_agg_pk_chunks);
        let commit_agg_pk = recompose_aggregate(&self.commit_agg_pk_chunks);
        let hash0 = match self.message_point(Round::Prepare) {
            Ok(h) => h,
            Err(e) => {
                return Err(e);
            },
        };
        let prepare_count = MacroBlockGadget::count_non_signers(
            &self.block.prepare_signer_bitmap,
            None,
        );
        if prepare_count >= MAX_NON_SIGNERS {
            return Err(SynthesisError::Unsatisfiable);
        }
        let hash1 = match self.message_point(Round::Commit) {
            Ok(h) => h,
            Err(e) => {
                return Err(e);
            },
        };
        let commit_count = MacroBlockGadget::count_non_signers(
            &self.block.commit_signer_bitmap,
            Some(&self.block.prepare_signer_bitmap),
        );
        if commit_count >= MAX_NON_SIGNERS {
            return Err(SynthesisError::Unsatisfiable);
        }
        let gen = g1_generator();
        prepare_signature.note_valid();
        commit_signature.note_valid();
        let with_prepare = g1_add(&gen, prepare_signature.as_bytes());
        let with_commit = g1_add(&with_prepare, commit_signature.as_bytes());
        let combined_bytes = g1_sub(&with_commit, &gen);
        let combined = Signature::from_bytes(combined_bytes);
        if CheckSigGadget::check_signatures(
            &prepare_agg_pk,
            &commit_agg_pk,
            &combined,
            &hash0,
            &hash1,
        ) {
            Ok(())
        } else {
            Err(SynthesisError::Unsatisfiable)
        }
    }
}

} // verus!
