//! The state-transition circuit over the full validator key set.
//!
//! Its public inputs are the initial and final state hashes; the witness
//! holds the previous keys, the initial block number and the macro block.
//! The circuit recomputes the initial state hash from the witness, checks
//! the macro block against the previous keys, steps the block number by the
//! epoch length, recomputes the final state hash from the block's keys, and
//! is satisfied exactly when both recomputed hashes equal the public inputs
//! and the block is valid.

use vstd::prelude::*;

use crate::bls::PublicKey;
use crate::constants::{EPOCH_LENGTH, MAX_NON_SIGNERS, VALIDATOR_SLOTS};
use crate::errors::SynthesisError;
use crate::macro_block::{MacroBlockGadget, Round};
use crate::primitives::MacroBlock;
use crate::serialize::key_views;
use crate::state_hash::{state_words_of, StateHashGadget};

verus! {

/// The block number one epoch after `n`, wrapping as the 32-bit circuit
/// addition does.
pub open spec fn next_block_number(n: u32) -> u32 {
    ((n as int + EPOCH_LENGTH as int) % 0x100000000) as u32
}

/// The block number one epoch after `n`.
pub fn compute_next_block_number(n: u32) -> (r: u32)
    ensures
        r == next_block_number(n),
{
    let s: u64 = n as u64 + EPOCH_LENGTH as u64;
    (s % 0x100000000u64) as u32
}

/// Compares two word vectors for equality.
fn words_eq(a: &Vec<u32>, b: &Vec<u32>) -> (r: bool)
    ensures
        r == (a@ == b@),
{
    if a.len() != b.len() {
        return false;
    }
    let n = a.len();
    for i in 0..n
        invariant
            n == a@.len(),
            n == b@.len(),
            forall|k: int| 0 <= k < i ==> a@[k] == b@[k],
    {
        if a[i] != b[i] {
            return false;
        }
    }
    proof {
        assert(a@ =~= b@);
    }
    true
}

/// The macro block circuit: it certifies that a valid macro block moves the
/// initial state to the final state.
pub struct MacroBlockCircuit {
    pub prev_keys: Vec<PublicKey>,
    pub block_number: u32,
    pub block: MacroBlock,
    pub initial_state_hash: Vec<u32>,
    pub final_state_hash: Vec<u32>,
}

impl MacroBlockCircuit {
    /// Assembles a circuit instance from its witness and public inputs.
    pub fn new(
        prev_keys: Vec<PublicKey>,
        block_number: u32,
        block: MacroBlock,
        initial_state_hash: Vec<u32>,
        final_state_hash: Vec<u32>,
    ) -> (r: Self)
        ensures
            r.prev_keys@ == prev_keys@,
            r.block_number == block_number,
            r.block == block,
            r.initial_state_hash@ == initial_state_hash@,
            r.final_state_hash@ == final_state_hash@,
    {
        Self { prev_keys, block_number, block, initial_state_hash, final_state_hash }
    }

    /// The witness has the lengths the circuit shape fixes.
    pub open spec fn wf_witness(self) -> bool {
        &&& self.initial_state_hash@.len() == 8
        &&& self.final_state_hash@.len() == 8
        &&& self.prev_keys@.len() == VALIDATOR_SLOTS as int
        &&& self.block.wf_witness()
    }

    /// The initial public input equals the state hash recomputed from the
    /// witness.
    pub open spec fn initial_state_ok(self) -> bool {
        self.initial_state_hash@ == state_words_of(self.block_number, key_views(self.prev_keys@))
    }

    /// The final public input equals the state hash of the stepped block
    /// number and the block's key set.
    pub open spec fn final_state_ok(self) -> bool {
        self.final_state_hash@ == state_words_of(
            next_block_number(self.block_number),
            key_views(self.block.public_keys@),
        )
    }

    /// The circuit is satisfied: a well-formed witness whose state hashes
    /// match and whose macro block is valid over the previous keys.
    pub open spec fn satisfied(self) -> bool {
        &&& self.wf_witness()
        &&& self.initial_state_ok()
        &&& self.block.hashes_found(self.block_number)
        &&& self.block.valid(key_views(self.prev_keys@), MAX_NON_SIGNERS, self.block_number)
        &&& self.final_state_ok()
    }

    /// The error `generate_constraints` reports, by the first check that
    /// fails.
    pub open spec fn error_of(self) -> SynthesisError {
        if self.initial_state_hash@.len() != 8 || self.final_state_hash@.len() != 8
            || self.prev_keys@.len() != VALIDATOR_SLOTS as int {
            SynthesisError::MalformedWitness
        } else if self.block.public_keys@.len() != VALIDATOR_SLOTS as int
            || self.block.prepare_signer_bitmap@.len() != VALIDATOR_SLOTS as int
            || self.block.commit_signer_bitmap@.len() != VALIDATOR_SLOTS as int {
            SynthesisError::MalformedWitness
        } else if !(self.block.prepare_signature is Some && self.block.commit_signature is Some) {
            SynthesisError::AssignmentMissing
        } else if !self.initial_state_ok() {
            SynthesisError::Unsatisfiable
        } else if !(self.block.hashes_found(self.block_number) && self.block.valid(
            key_views(self.prev_keys@),
            MAX_NON_SIGNERS,
            self.block_number,
        )) {
            self.block.verify_error(MAX_NON_SIGNERS, self.block_number)
        } else {
            SynthesisError::Unsatisfiable
        }
    }

    /// Evaluates the circuit: `Ok` exactly when it is satisfied, the typed
    /// construction error on a malformed witness, and `Unsatisfiable` when a
    /// recomputed state hash differs from its public input or the block
    /// fails a bound or the pairing check.
    pub fn generate_constraints(&self) -> (r: Result<(), SynthesisError>)
        ensures
            r is Ok <==> self.satisfied(),
            r is Err ==> r.unwrap_err() == self.error_of(),
    {
        if self.initial_state_hash.len() != 8 || self.final_state_hash.len() != 8
            || self.prev_keys.len() != VALIDATOR_SLOTS {
            return Err(SynthesisError::MalformedWitness);
        }
        let gadget = match MacroBlockGadget::from_block(&self.block) {
            Ok(g) => g,
            Err(e) => {
                return Err(e);
            },
        };
        let reference_hash = StateHashGadget::evaluate(self.block_number, &self.prev_keys);
        if !words_eq(&self.initial_state_hash, &reference_hash) {
            return Err(SynthesisError::Unsatisfiable);
        }
        proof {
            lemma_gadget_mirrors_block(gadget, self.block);
        }
        match gadget.verify(&self.prev_keys, MAX_NON_SIGNERS, self.block_number) {
            Ok(()) => (),
            Err(e) => {
                return Err(e);
            },
        }
        let final_block_number = compute_next_block_number(self.block_number);
        let final_reference_hash = StateHashGadget::evaluate(
            final_block_number,
            gadget.public_keys(),
        );
        if !words_eq(&self.final_state_hash, &final_reference_hash) {
            return Err(SynthesisError::Unsatisfiable);
        }
        Ok(())
    }
}

/// A satisfied circuit pins the final state to exactly one block number:
/// the initial one stepped by the epoch length, modulo the 32-bit range.
pub proof fn lemma_final_block_number_exact(c: MacroBlockCircuit)
    requires
        c.satisfied(),
    ensures
        c.final_state_hash@ == state_words_of(
            next_block_number(c.block_number),
            key_views(c.block.public_keys@),
        ),
        next_block_number(c.block_number) as int == (c.block_number as int + EPOCH_LENGTH as int)
            % 0x100000000,
{
}

/// A final state hash computed at any other block number is rejected,
/// provided the two states' digests differ — the digest scheme is
/// collision-resistant, and a collision is the one case left out here.
pub proof fn lemma_wrong_final_block_number_rejected(c: MacroBlockCircuit, other: u32)
    requires
        other != next_block_number(c.block_number),
        state_words_of(other, key_views(c.block.public_keys@)) != state_words_of(
            next_block_number(c.block_number),
            key_views(c.block.public_keys@),
        ),
        c.final_state_hash@ == state_words_of(other, key_views(c.block.public_keys@)),
    ensures
        !c.satisfied(),
{
}

/// The gadget built from a block checks the same predicate as the block's
/// own specification: every component is a function of fields the
/// construction carries over unchanged.
proof fn lemma_gadget_mirrors_block(g: MacroBlockGadget, b: MacroBlock)
    requires
        b.wf_witness(),
        g.header_hash@ == crate::utils::bits_of_bytes(b.header_hash@),
        g.public_keys@ == b.public_keys@,
        g.prepare_signature == b.prepare_signature.unwrap(),
        g.prepare_signer_bitmap@ == b.prepare_signer_bitmap@,
        g.commit_signature == b.commit_signature.unwrap(),
        g.commit_signer_bitmap@ == b.commit_signer_bitmap@,
    ensures
        forall|round: Round, bn: u32| g.message_digest(round, bn) == b.message_digest(round, bn),
        forall|round: Round| g.round_bitmap(round) == b.round_bitmap(round),
        forall|round: Round| g.round_reference(round) == b.round_reference(round),
        forall|bn: u32| g.hashes_found(bn) == b.hashes_found(bn),
        forall|round: Round, max: u64|
            g.round_count_ok(round, max) == b.round_count_ok(round, max),
        forall|round: Round, prev: Seq<Seq<u8>>|
            g.round_aggregate(round, prev) == b.round_aggregate(round, prev),
        forall|prev: Seq<Seq<u8>>, bn: u32|
            g.signatures_valid(prev, bn) == b.signatures_valid(prev, bn),
        forall|prev: Seq<Seq<u8>>, max: u64, bn: u32|
            g.valid(prev, max, bn) == b.valid(prev, max, bn),
        forall|max: u64, bn: u32| g.verify_error(max, bn) == b.verify_error(max, bn),
{
    assert forall|round: Round| g.round_bitmap(round) == b.round_bitmap(round) by {
        match round {
            Round::Prepare => {},
            Round::Commit => {},
        }
    }
    assert forall|round: Round| g.round_reference(round) == b.round_reference(round) by {
        match round {
            Round::Prepare => {},
            Round::Commit => {},
        }
    }
}

} // verus!
