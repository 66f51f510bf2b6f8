//! The macro block gadget: the predicate that accepts a valid macro block.
//!
//! A block is checked in two rounds, prepare then commit, against the
//! previous validator set. Each round contributes a round-tagged message
//! digest mapped onto a curve point and an aggregate public key gated by
//! its signer bitmap; a commit-round signer counts only where it also
//! signed the prepare round. The two aggregate signatures are combined
//! through a generator offset, because the arithmetic this mirrors has no
//! identity element, and checked in a single pairing equation.

use vstd::prelude::*;

use crate::bls::{PublicKey, Signature};
use crate::constants::VALIDATOR_SLOTS;
use crate::curve::{
    g1_add, g1_add_of, g1_generator, g1_sub, g1_sub_of, g2_add, g2_add_of, g2_generator, g2_sub,
    g2_sub_of, g2_valid, pairing, pairing_of, pairing_product2, pairing_product2_of,
    G1_GENERATOR_BYTES, G2_GENERATOR_BYTES,
};
use crate::errors::SynthesisError;
use crate::hash_to_curve::{hash_ctr_of, hash_point_of, try_and_increment};
use crate::hashes::blake2s;
use crate::hashes::blake2s_of;
use crate::primitives::MacroBlock;
use crate::serialize::{append_keys_bits, key_views, keys_bits, u32_be_bytes, u32_to_be_bytes};
use crate::utils::{
    bits_of_bytes, bits_to_bytes, bytes_eq, bytes_from_bits, bytes_to_bits, copy_vec,
};

verus! {

/// The two rounds of signing of a macro block.
#[derive(Clone, Copy, PartialEq, Eq, PartialOrd, Ord, Structural)]
pub enum Round {
    Prepare,
    Commit,
}

impl Round {
    /// The one-byte tag that opens the round's message.
    pub open spec fn spec_tag(self) -> u8 {
        match self {
            Round::Prepare => 0,
            Round::Commit => 1,
        }
    }

    /// The one-byte tag that opens the round's message.
    pub fn tag(self) -> (r: u8)
        ensures
            r == self.spec_tag(),
    {
        match self {
            Round::Prepare => 0,
            Round::Commit => 1,
        }
    }
}

/// Whether position `i` counts as included: its bitmap bit is set and, where
/// a reference bitmap is given, the reference bit as well.
pub open spec fn included(bitmap: Seq<bool>, reference: Option<Seq<bool>>, i: int) -> bool {
    bitmap[i] && (match reference {
        Some(r) => r[i],
        None => true,
    })
}

/// The number of positions below `n` that do not count as included.
pub open spec fn non_signer_count(bitmap: Seq<bool>, reference: Option<Seq<bool>>, n: int) -> int
    decreases n,
{
    if n <= 0 {
        0
    } else {
        non_signer_count(bitmap, reference, n - 1) + (if included(bitmap, reference, n - 1) {
            0int
        } else {
            1int
        })
    }
}

/// The running key sum after the first `n` positions, started at `acc`:
/// each included position adds its key.
pub open spec fn agg_sum(
    acc: Seq<u8>,
    keys: Seq<Seq<u8>>,
    bitmap: Seq<bool>,
    reference: Option<Seq<bool>>,
    n: int,
) -> Seq<u8>
    decreases n,
{
    if n <= 0 {
        acc
    } else {
        let prev = agg_sum(acc, keys, bitmap, reference, n - 1);
        if included(bitmap, reference, n - 1) {
            g2_add_of(prev, keys[n - 1])
        } else {
            prev
        }
    }
}

/// The aggregate public key of the included positions: the running sum is
/// started at the generator and the generator is subtracted at the end.
pub open spec fn aggregate_of(
    keys: Seq<Seq<u8>>,
    bitmap: Seq<bool>,
    reference: Option<Seq<bool>>,
) -> Seq<u8> {
    g2_sub_of(
        agg_sum(G2_GENERATOR_BYTES@, keys, bitmap, reference, keys.len() as int),
        G2_GENERATOR_BYTES@,
    )
}

/// The serialization bits of a round's message:
/// `round tag || block number || header hash || public keys`.
pub open spec fn message_preimage_bits(
    round_tag: u8,
    block_number: u32,
    header: Seq<bool>,
    keys: Seq<Seq<u8>>,
) -> Seq<bool> {
    bits_of_bytes(seq![round_tag]) + bits_of_bytes(u32_be_bytes(block_number)) + header
        + keys_bits(keys)
}

/// The digest of a round's message.
pub open spec fn message_digest_of(
    round_tag: u8,
    block_number: u32,
    header: Seq<bool>,
    keys: Seq<Seq<u8>>,
) -> Seq<u8> {
    blake2s_of(bytes_from_bits(message_preimage_bits(round_tag, block_number, header, keys)))
}

/// The two aggregate signatures combined through the generator offset.
pub open spec fn combined_signature_of(prepare: Seq<u8>, commit: Seq<u8>) -> Seq<u8> {
    g1_sub_of(g1_add_of(g1_add_of(G1_GENERATOR_BYTES@, prepare), commit), G1_GENERATOR_BYTES@)
}

/// Selects one of two encodings by a bit, with no data-dependent shape:
/// the circuit analogue of a branch.
pub fn conditionally_select(bit: bool, a: &[u8; 285], b: &[u8; 285]) -> (r: [u8; 285])
    ensures
        r@ == (if bit {
            a@
        } else {
            b@
        }),
{
    if bit {
        *a
    } else {
        *b
    }
}

/// The pairing check of the combined signature against the two
/// `(message point, aggregate key)` pairs.
pub struct CheckSigGadget;

impl CheckSigGadget {
    /// Whether the pairing of the signature with the generator equals the
    /// product of the pairings of each message point with its aggregate key.
    pub fn check_signatures(
        pub_key0: &PublicKey,
        pub_key1: &PublicKey,
        signature: &Signature,
        hash0: &Signature,
        hash1: &Signature,
    ) -> (r: bool)
        ensures
            r == (pairing_of(signature@, G2_GENERATOR_BYTES@) == pairing_product2_of(
                hash0@,
                pub_key0@,
                hash1@,
                pub_key1@,
            )),
    {
        signature.note_valid();
        hash0.note_valid();
        hash1.note_valid();
        pub_key0.note_valid();
        pub_key1.note_valid();
        let gen2 = g2_generator();
        let lhs = pairing(signature.as_bytes(), &gen2);
        let rhs = pairing_product2(
            hash0.as_bytes(),
            pub_key0.as_bytes(),
            hash1.as_bytes(),
            pub_key1.as_bytes(),
        );
        bytes_eq(&lhs, &rhs)
    }
}

/// A macro block in the form the predicate works on: the header hash as
/// serialization bits, validated keys and signatures, and the two signer
/// bitmaps.
#[derive(Debug)]
pub struct MacroBlockGadget {
    pub header_hash: Vec<bool>,
    pub public_keys: Vec<PublicKey>,
    pub prepare_signature: Signature,
    pub prepare_signer_bitmap: Vec<bool>,
    pub commit_signature: Signature,
    pub commit_signer_bitmap: Vec<bool>,
}

impl MacroBlockGadget {
    /// Every field has the length the circuit shape fixes.
    pub open spec fn wf(self) -> bool {
        &&& self.header_hash@.len() == 256
        &&& self.public_keys@.len() == VALIDATOR_SLOTS as int
        &&& self.prepare_signer_bitmap@.len() == VALIDATOR_SLOTS as int
        &&& self.commit_signer_bitmap@.len() == VALIDATOR_SLOTS as int
    }

    /// The signer bitmap of a round.
    pub open spec fn round_bitmap(self, round: Round) -> Seq<bool> {
        match round {
            Round::Prepare => self.prepare_signer_bitmap@,
            Round::Commit => self.commit_signer_bitmap@,
        }
    }

    /// The reference bitmap of a round: the commit round is checked against
    /// the prepare round's bitmap, the prepare round against none.
    pub open spec fn round_reference(self, round: Round) -> Option<Seq<bool>> {
        match round {
            Round::Prepare => None,
            Round::Commit => Some(self.prepare_signer_bitmap@),
        }
    }

    /// The digest of a round's message for this block.
    pub open spec fn message_digest(self, round: Round, block_number: u32) -> Seq<u8> {
        message_digest_of(
            round.spec_tag(),
            block_number,
            self.header_hash@,
            key_views(self.public_keys@),
        )
    }

    /// Whether a round's non-signer count is strictly below the bound.
    pub open spec fn round_count_ok(self, round: Round, max_non_signers: u64) -> bool {
        non_signer_count(
            self.round_bitmap(round),
            self.round_reference(round),
            self.round_bitmap(round).len() as int,
        ) < max_non_signers
    }

    /// A round's aggregate public key over the previous validator set.
    pub open spec fn round_aggregate(self, round: Round, prev_keys: Seq<Seq<u8>>) -> Seq<u8> {
        aggregate_of(prev_keys, self.round_bitmap(round), self.round_reference(round))
    }

    /// Whether both rounds' message digests map onto curve points.
    pub open spec fn hashes_found(self, block_number: u32) -> bool {
        &&& hash_ctr_of(self.message_digest(Round::Prepare, block_number)) < 256
        &&& hash_ctr_of(self.message_digest(Round::Commit, block_number)) < 256
    }

    /// Whether the combined signature passes the pairing check against the
    /// two rounds' message points and aggregate keys.
    pub open spec fn signatures_valid(
        self,
        prev_keys: Seq<Seq<u8>>,
        block_number: u32,
    ) -> bool {
        pairing_of(
            combined_signature_of(self.prepare_signature@, self.commit_signature@),
            G2_GENERATOR_BYTES@,
        ) == pairing_product2_of(
            hash_point_of(self.message_digest(Round::Prepare, block_number)),
            self.round_aggregate(Round::Prepare, prev_keys),
            hash_point_of(self.message_digest(Round::Commit, block_number)),
            self.round_aggregate(Round::Commit, prev_keys),
        )
    }

    /// The whole predicate: both bounds hold and the pairing check passes.
    pub open spec fn valid(
        self,
        prev_keys: Seq<Seq<u8>>,
        max_non_signers: u64,
        block_number: u32,
    ) -> bool {
        &&& self.round_count_ok(Round::Prepare, max_non_signers)
        &&& self.round_count_ok(Round::Commit, max_non_signers)
        &&& self.signatures_valid(prev_keys, block_number)
    }

    /// The error that `verify` reports, by the first check that fails.
    pub open spec fn verify_error(self, max_non_signers: u64, block_number: u32) -> SynthesisError {
        if hash_ctr_of(self.message_digest(Round::Prepare, block_number)) >= 256 {
            SynthesisError::DigestPointNotFound
        } else if !self.round_count_ok(Round::Prepare, max_non_signers) {
            SynthesisError::Unsatisfiable
        } else if hash_ctr_of(self.message_digest(Round::Commit, block_number)) >= 256 {
            SynthesisError::DigestPointNotFound
        } else {
            SynthesisError::Unsatisfiable
        }
    }

    /// Builds the gadget form of a block, rejecting a malformed witness: a
    /// key set or bitmap of the wrong length is a `MalformedWitness` error
    /// and a missing signature an `AssignmentMissing` error.
    pub fn from_block(block: &MacroBlock) -> (r: Result<MacroBlockGadget, SynthesisError>)
        ensures
            r is Ok <==> ({
                &&& block.public_keys@.len() == VALIDATOR_SLOTS as int
                &&& block.prepare_signer_bitmap@.len() == VALIDATOR_SLOTS as int
                &&& block.commit_signer_bitmap@.len() == VALIDATOR_SLOTS as int
                &&& block.prepare_signature is Some
                &&& block.commit_signature is Some
            }),
            r is Ok ==> ({
                let g = r.unwrap();
                &&& g.header_hash@ == bits_of_bytes(block.header_hash@)
                &&& g.public_keys@ == block.public_keys@
                &&& g.prepare_signature == block.prepare_signature.unwrap()
                &&& g.prepare_signer_bitmap@ == block.prepare_signer_bitmap@
                &&& g.commit_signature == block.commit_signature.unwrap()
                &&& g.commit_signer_bitmap@ == block.commit_signer_bitmap@
                &&& g.wf()
            }),
            r is Err ==> r.unwrap_err() == (if block.public_keys@.len() != VALIDATOR_SLOTS as int
                || block.prepare_signer_bitmap@.len() != VALIDATOR_SLOTS as int
                || block.commit_signer_bitmap@.len() != VALIDATOR_SLOTS as int {
                SynthesisError::MalformedWitness
            } else {
                SynthesisError::AssignmentMissing
            }),
    {
        if block.public_keys.len() != VALIDATOR_SLOTS || block.prepare_signer_bitmap.len()
            != VALIDATOR_SLOTS || block.commit_signer_bitmap.len() != VALIDATOR_SLOTS {
            return Err(SynthesisError::MalformedWitness);
        }
        let prepare_signature = match &block.prepare_signature {
            Some(s) => *s,
            None => {
                return Err(SynthesisError::AssignmentMissing);
            },
        };
        let commit_signature = match &block.commit_signature {
            Some(s) => *s,
            None => {
                return Err(SynthesisError::AssignmentMissing);
            },
        };
        let header_hash = bytes_to_bits(block.header_hash.as_slice());
        Ok(
            MacroBlockGadget {
                header_hash,
                public_keys: copy_vec(&block.public_keys),
                prepare_signature,
                prepare_signer_bitmap: copy_vec(&block.prepare_signer_bitmap),
                commit_signature,
                commit_signer_bitmap: copy_vec(&block.commit_signer_bitmap),
            },
        )
    }

    /// The public keys the block installs for the next epoch.
    pub fn public_keys(&self) -> (r: &Vec<PublicKey>)
        ensures
            r@ == self.public_keys@,
    {
        &self.public_keys
    }

    /// The message point of a round: the round-tagged message
    /// `round tag || block number || header hash || public keys` is
    /// serialized, hashed and mapped onto the signature group.
    pub fn hash(&self, round: Round, block_number: u32) -> (r: Result<Signature, SynthesisError>)
        requires
            self.wf(),
        ensures
            r is Ok <==> hash_ctr_of(self.message_digest(round, block_number)) < 256,
            r is Ok ==> r.unwrap()@ == hash_point_of(self.message_digest(round, block_number)),
            r is Err ==> r.unwrap_err() == SynthesisError::DigestPointNotFound,
    {
        let mut tag_byte: Vec<u8> = Vec::new();
        tag_byte.push(round.tag());
        let mut bits = bytes_to_bits(tag_byte.as_slice());
        proof {
            assert(tag_byte@ =~= seq![round.spec_tag()]);
        }
        let bn_bytes = u32_to_be_bytes(block_number);
        let mut bn_bits = bytes_to_bits(bn_bytes.as_slice());
        bits.append(&mut bn_bits);
        let mut header = copy_vec(&self.header_hash);
        bits.append(&mut header);
        append_keys_bits(&mut bits, &self.public_keys);
        proof {
            assert(bits@ =~= message_preimage_bits(
                round.spec_tag(),
                block_number,
                self.header_hash@,
                key_views(self.public_keys@),
            ));
            assert(bits@.len() == 296 + 2280 * (self.public_keys@.len() as int));
            assert((296 + 2280 * (self.public_keys@.len() as int)) % 8 == 0) by (nonlinear_arith);
        }
        let bytes = bits_to_bytes(&bits);
        let digest = blake2s(&bytes);
        try_and_increment(&digest)
    }

    /// A round's aggregate public key over the included positions, with the
    /// bound on non-signers enforced: strictly fewer than `max_non_signers`
    /// positions may be left out, equality is rejected. Where a reference
    /// bitmap is given, a position is included only where both bitmaps set
    /// its bit, in the sum and in the count alike.
    pub fn aggregate_public_key(
        public_keys: &Vec<PublicKey>,
        key_bitmap: &Vec<bool>,
        reference_bitmap: Option<&Vec<bool>>,
        max_non_signers: u64,
    ) -> (r: Result<PublicKey, SynthesisError>)
        requires
            public_keys@.len() == key_bitmap@.len(),
            reference_bitmap is Some ==> reference_bitmap.unwrap()@.len() == key_bitmap@.len(),
        ensures
            r is Ok <==> non_signer_count(
                key_bitmap@,
                spec_reference(reference_bitmap),
                key_bitmap@.len() as int,
            ) < max_non_signers,
            r is Ok ==> r.unwrap()@ == aggregate_of(
                key_views(public_keys@),
                key_bitmap@,
                spec_reference(reference_bitmap),
            ),
            r is Err ==> r.unwrap_err() == SynthesisError::Unsatisfiable,
    {
        let ghost rf = spec_reference(reference_bitmap);
        let ghost kv = key_views(public_keys@);
        let mut num_non_signers: u64 = 0;
        let mut sum: [u8; 285] = g2_generator();
        let n = public_keys.len();
        for i in 0..n
            invariant
                n == public_keys@.len(),
                n == key_bitmap@.len(),
                rf == spec_reference(reference_bitmap),
                rf is Some ==> rf.unwrap().len() == n,
                kv == key_views(public_keys@),
                g2_valid(sum@),
                sum@ == agg_sum(G2_GENERATOR_BYTES@, kv, key_bitmap@, rf, i as int),
                num_non_signers == non_signer_count(key_bitmap@, rf, i as int),
                num_non_signers <= i,
        {
            let key = &public_keys[i];
            key.note_valid();
            let new_sum = g2_add(&sum, key.as_bytes());
            let incl = key_bitmap[i] && (match reference_bitmap {
                Some(r) => r[i],
                None => true,
            });
            proof {
                assert(incl == included(key_bitmap@, rf, i as int));
            }
            sum = conditionally_select(incl, &new_sum, &sum);
            if !incl {
                num_non_signers = num_non_signers + 1;
            }
        }
        let gen = g2_generator();
        let aggregate = g2_sub(&sum, &gen);
        if num_non_signers < max_non_signers {
            Ok(PublicKey::from_bytes(aggregate))
        } else {
            Err(SynthesisError::Unsatisfiable)
        }
    }

    /// The number of non-signers of a bitmap, a position counting only
    /// where the reference bitmap, if given, also sets its bit.
    pub fn count_non_signers(
        bitmap: &Vec<bool>,
        reference_bitmap: Option<&Vec<bool>>,
    ) -> (r: u64)
        requires
            reference_bitmap is Some ==> reference_bitmap.unwrap()@.len() == bitmap@.len(),
        ensures
            r == non_signer_count(
                bitmap@,
                spec_reference(reference_bitmap),
                bitmap@.len() as int,
            ),
    {
        let ghost rf = spec_reference(reference_bitmap);
        let mut count: u64 = 0;
        let n = bitmap.len();
        for i in 0..n
            invariant
                n == bitmap@.len(),
                rf == spec_reference(reference_bitmap),
                rf is Some ==> rf.unwrap().len() == n,
                count == non_signer_count(bitmap@, rf, i as int),
                count <= i,
        {
            let incl = bitmap[i] && (match reference_bitmap {
                Some(r) => r[i],
                None => true,
            });
            proof {
                assert(incl == included(bitmap@, rf, i as int));
            }
            if !incl {
                count = count + 1;
            }
        }
        count
    }

    /// A round's message point and aggregate public key; the digest mapping
    /// is tried first, the non-signer bound second.
    fn get_hash_and_public_keys(
        &self,
        round: Round,
        prev_public_keys: &Vec<PublicKey>,
        max_non_signers: u64,
        block_number: u32,
    ) -> (r: Result<(Signature, PublicKey), SynthesisError>)
        requires
            self.wf(),
            prev_public_keys@.len() == VALIDATOR_SLOTS as int,
        ensures
            r is Ok <==> (hash_ctr_of(self.message_digest(round, block_number)) < 256
                && self.round_count_ok(round, max_non_signers)),
            r is Ok ==> ({
                let (h, k) = r.unwrap();
                &&& h@ == hash_point_of(self.message_digest(round, block_number))
                &&& k@ == self.round_aggregate(round, key_views(prev_public_keys@))
            }),
            r is Err ==> r.unwrap_err() == (if hash_ctr_of(self.message_digest(round, block_number))
                >= 256 {
                SynthesisError::DigestPointNotFound
            } else {
                SynthesisError::Unsatisfiable
            }),
    {
        let hash_point = match self.hash(round, block_number) {
            Ok(h) => h,
            Err(e) => {
                return Err(e);
            },
        };
        let signer_bitmap = match round {
            Round::Prepare => &self.prepare_signer_bitmap,
            Round::Commit => &self.commit_signer_bitmap,
        };
        let reference_bitmap = match round {
            Round::Prepare => None,
            Round::Commit => Some(&self.prepare_signer_bitmap),
        };
        let aggregate = match Self::aggregate_public_key(
            prev_public_keys,
            signer_bitmap,
            reference_bitmap,
            max_non_signers,
        ) {
            Ok(k) => k,
            Err(e) => {
                return Err(e);
            },
        };
        Ok((hash_point, aggregate))
    }

    /// Verifies the macro block against the previous validator set: both
    /// rounds' bounds must hold and the combined signature must pass the
    /// pairing check. `Ok` exactly on a valid block whose digests map onto
    /// points; a bound or pairing failure is `Unsatisfiable`.
    pub fn verify(
        &self,
        prev_public_keys: &Vec<PublicKey>,
        max_non_signers: u64,
        block_number: u32,
    ) -> (r: Result<(), SynthesisError>)
        requires
            self.wf(),
            prev_public_keys@.len() == VALIDATOR_SLOTS as int,
        ensures
            r is Ok <==> (self.hashes_found(block_number) && self.valid(
                key_views(prev_public_keys@),
                max_non_signers,
                block_number,
            )),
            r is Err ==> r.unwrap_err() == self.verify_error(max_non_signers, block_number),
    {
        let (hash0, pub_key0) = match self.get_hash_and_public_keys(
            Round::Prepare,
            prev_public_keys,
            max_non_signers,
            block_number,
        ) {
            Ok(v) => v,
            Err(e) => {
                return Err(e);
            },
        };
        let (hash1, pub_key1) = match self.get_hash_and_public_keys(
            Round::Commit,
            prev_public_keys,
            max_non_signers,
            block_number,
        ) {
            Ok(v) => v,
            Err(e) => {
                return Err(e);
            },
        };
        let gen = g1_generator();
        self.prepare_signature.note_valid();
        self.commit_signature.note_valid();
        let with_prepare = g1_add(&gen, self.prepare_signature.as_bytes());
        let with_commit = g1_add(&with_prepare, self.commit_signature.as_bytes());
        let combined_bytes = g1_sub(&with_commit, &gen);
        let combined = Signature::from_bytes(combined_bytes);
        if CheckSigGadget::check_signatures(&pub_key0, &pub_key1, &combined, &hash0, &hash1) {
            Ok(())
        } else {
            Err(SynthesisError::Unsatisfiable)
        }
    }
}

/// Both the running sum and the non-signer count ignore a bitmap bit at a
/// position the reference bitmap leaves out.
proof fn lemma_unprepared_bit_helper(
    acc: Seq<u8>,
    keys: Seq<Seq<u8>>,
    bitmap: Seq<bool>,
    reference: Seq<bool>,
    i: int,
    n: int,
)
    requires
        0 <= i < bitmap.len(),
        n <= bitmap.len(),
        !reference[i],
    ensures
        agg_sum(acc, keys, bitmap.update(i, false), Some(reference), n) == agg_sum(
            acc,
            keys,
            bitmap,
            Some(reference),
            n,
        ),
        non_signer_count(bitmap.update(i, false), Some(reference), n) == non_signer_count(
            bitmap,
            Some(reference),
            n,
        ),
    decreases n,
{
    if n > 0 {
        lemma_unprepared_bit_helper(acc, keys, bitmap, reference, i, n - 1);
        assert(included(bitmap.update(i, false), Some(reference), n - 1) == included(
            bitmap,
            Some(reference),
            n - 1,
        ));
    }
}

/// A commit-round bitmap bit set at a position whose prepare-round bit is
/// clear counts that validator neither into the commit aggregate nor out of
/// the non-signer count: the result is the same as with the bit cleared.
pub proof fn lemma_unprepared_commit_bit_ignored(
    keys: Seq<Seq<u8>>,
    bitmap: Seq<bool>,
    reference: Seq<bool>,
    i: int,
)
    requires
        0 <= i < bitmap.len(),
        keys.len() == bitmap.len(),
        !reference[i],
    ensures
        aggregate_of(keys, bitmap.update(i, false), Some(reference)) == aggregate_of(
            keys,
            bitmap,
            Some(reference),
        ),
        non_signer_count(bitmap.update(i, false), Some(reference), bitmap.len() as int)
            == non_signer_count(bitmap, Some(reference), bitmap.len() as int),
{
    lemma_unprepared_bit_helper(
        G2_GENERATOR_BYTES@,
        keys,
        bitmap,
        reference,
        i,
        keys.len() as int,
    );
    lemma_unprepared_bit_helper(
        G2_GENERATOR_BYTES@,
        keys,
        bitmap,
        reference,
        i,
        bitmap.len() as int,
    );
}

/// The view of an optional reference bitmap.
pub open spec fn spec_reference(reference_bitmap: Option<&Vec<bool>>) -> Option<Seq<bool>> {
    match reference_bitmap {
        Some(r) => Some(r@),
        None => None,
    }
}

impl MacroBlock {
    /// The witness is well formed: key set and bitmaps have the fixed
    /// length and both signatures are supplied.
    pub open spec fn wf_witness(self) -> bool {
        &&& self.public_keys@.len() == VALIDATOR_SLOTS as int
        &&& self.prepare_signer_bitmap@.len() == VALIDATOR_SLOTS as int
        &&& self.commit_signer_bitmap@.len() == VALIDATOR_SLOTS as int
        &&& self.prepare_signature is Some
        &&& self.commit_signature is Some
    }

    /// The signer bitmap of a round.
    pub open spec fn round_bitmap(self, round: Round) -> Seq<bool> {
        match round {
            Round::Prepare => self.prepare_signer_bitmap@,
            Round::Commit => self.commit_signer_bitmap@,
        }
    }

    /// The reference bitmap of a round.
    pub open spec fn round_reference(self, round: Round) -> Option<Seq<bool>> {
        match round {
            Round::Prepare => None,
            Round::Commit => Some(self.prepare_signer_bitmap@),
        }
    }

    /// The digest of a round's message for this block.
    pub open spec fn message_digest(self, round: Round, block_number: u32) -> Seq<u8> {
        message_digest_of(
            round.spec_tag(),
            block_number,
            bits_of_bytes(self.header_hash@),
            key_views(self.public_keys@),
        )
    }

    /// Whether both rounds' message digests map onto curve points.
    pub open spec fn hashes_found(self, block_number: u32) -> bool {
        &&& hash_ctr_of(self.message_digest(Round::Prepare, block_number)) < 256
        &&& hash_ctr_of(self.message_digest(Round::Commit, block_number)) < 256
    }

    /// Whether a round's non-signer count is strictly below the bound.
    pub open spec fn round_count_ok(self, round: Round, max_non_signers: u64) -> bool {
        non_signer_count(
            self.round_bitmap(round),
            self.round_reference(round),
            self.round_bitmap(round).len() as int,
        ) < max_non_signers
    }

    /// A round's aggregate public key over the previous validator set.
    pub open spec fn round_aggregate(self, round: Round, prev_keys: Seq<Seq<u8>>) -> Seq<u8> {
        aggregate_of(prev_keys, self.round_bitmap(round), self.round_reference(round))
    }

    /// Whether the combined signature passes the pairing check.
    pub open spec fn signatures_valid(self, prev_keys: Seq<Seq<u8>>, block_number: u32) -> bool {
        pairing_of(
            combined_signature_of(
                self.prepare_signature.unwrap()@,
                self.commit_signature.unwrap()@,
            ),
            G2_GENERATOR_BYTES@,
        ) == pairing_product2_of(
            hash_point_of(self.message_digest(Round::Prepare, block_number)),
            self.round_aggregate(Round::Prepare, prev_keys),
            hash_point_of(self.message_digest(Round::Commit, block_number)),
            self.round_aggregate(Round::Commit, prev_keys),
        )
    }

    /// The whole predicate over the plain block.
    pub open spec fn valid(self, prev_keys: Seq<Seq<u8>>, max_non_signers: u64, block_number: u32) -> bool {
        &&& self.round_count_ok(Round::Prepare, max_non_signers)
        &&& self.round_count_ok(Round::Commit, max_non_signers)
        &&& self.signatures_valid(prev_keys, block_number)
    }

    /// The error the block check reports, by the first check that fails.
    pub open spec fn verify_error(self, max_non_signers: u64, block_number: u32) -> SynthesisError {
        if hash_ctr_of(self.message_digest(Round::Prepare, block_number)) >= 256 {
            SynthesisError::DigestPointNotFound
        } else if !self.round_count_ok(Round::Prepare, max_non_signers) {
            SynthesisError::Unsatisfiable
        } else if hash_ctr_of(self.message_digest(Round::Commit, block_number)) >= 256 {
            SynthesisError::DigestPointNotFound
        } else {
            SynthesisError::Unsatisfiable
        }
    }
}

} // verus!
