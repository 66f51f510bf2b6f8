//! The state hash: the digest that commits a chain state.
//!
//! A state is a block number together with the public keys of the validator
//! list committed at that block. Its hash is the Blake2s digest of the
//! big-endian block number bits followed by the serialization bits of each
//! key in set order, regrouped into bytes; the digest is returned as the
//! eight 32-bit words that read it in little-endian byte order, matching
//! the word form in which the hash primitive produces it.

use vstd::prelude::*;

use crate::bls::PublicKey;
use crate::hashes::{blake2s, blake2s_of};
use crate::serialize::{append_keys_bits, key_views, keys_bits, u32_be_bytes, u32_to_be_bytes};
use crate::utils::{bits_of_bytes, bits_to_bytes, bytes_from_bits, bytes_to_bits};

verus! {

/// The 32-byte state hash of `(block_number, keys)`, over the encodings of
/// the keys.
pub open spec fn state_hash_of(block_number: u32, keys: Seq<Seq<u8>>) -> Seq<u8> {
    blake2s_of(bytes_from_bits(bits_of_bytes(u32_be_bytes(block_number)) + keys_bits(keys)))
}

/// The 32-bit word that reads four bytes in little-endian order.
pub open spec fn u32_from_le(b0: u8, b1: u8, b2: u8, b3: u8) -> u32 {
    (b0 as u32) | ((b1 as u32) << 8) | ((b2 as u32) << 16) | ((b3 as u32) << 24)
}

/// The state hash as eight 32-bit words, each reading four digest bytes in
/// little-endian order.
pub open spec fn state_words_of(block_number: u32, keys: Seq<Seq<u8>>) -> Seq<u32> {
    let d = state_hash_of(block_number, keys);
    Seq::new(8, |i: int| u32_from_le(d[4 * i], d[4 * i + 1], d[4 * i + 2], d[4 * i + 3]))
}

/// Computes the state hash in the exact serialization discipline that the
/// state-publishing collaborators reproduce outside the circuit.
pub struct StateHashGadget;

impl StateHashGadget {
    /// The state hash of the block number and key set, as digest bytes.
    pub fn evaluate_bytes(block_number: u32, public_keys: &Vec<PublicKey>) -> (r: [u8; 32])
        ensures
            r@ == state_hash_of(block_number, key_views(public_keys@)),
    {
        let bn_bytes = u32_to_be_bytes(block_number);
        let mut bits = bytes_to_bits(bn_bytes.as_slice());
        append_keys_bits(&mut bits, public_keys);
        proof {
            assert(bits@.len() == 32 + 2280 * (public_keys@.len() as int));
            assert((32 + 2280 * (public_keys@.len() as int)) % 8 == 0) by (nonlinear_arith);
        }
        let bytes = bits_to_bytes(&bits);
        blake2s(&bytes)
    }

    /// The state hash of the block number and key set, as the eight words of
    /// the digest.
    pub fn evaluate(block_number: u32, public_keys: &Vec<PublicKey>) -> (r: Vec<u32>)
        ensures
            r@ == state_words_of(block_number, key_views(public_keys@)),
            r@.len() == 8,
    {
        let digest = Self::evaluate_bytes(block_number, public_keys);
        let mut words: Vec<u32> = Vec::new();
        let ghost spec_words = state_words_of(block_number, key_views(public_keys@));
        for i in 0..8usize
            invariant
                digest@ == state_hash_of(block_number, key_views(public_keys@)),
                spec_words == state_words_of(block_number, key_views(public_keys@)),
                words@.len() == i,
                forall|k: int| 0 <= k < i ==> words@[k] == spec_words[k],
        {
            let w: u32 = (digest[4 * i] as u32) | ((digest[4 * i + 1] as u32) << 8)
                | ((digest[4 * i + 2] as u32) << 16) | ((digest[4 * i + 3] as u32) << 24);
            proof {
                let d = state_hash_of(block_number, key_views(public_keys@));
                assert(spec_words[i as int] == u32_from_le(
                    d[4 * i],
                    d[4 * i + 1],
                    d[4 * i + 2],
                    d[4 * i + 3],
                ));
                assert(w == spec_words[i as int]);
            }
            words.push(w);
        }
        proof {
            assert(words@ =~= spec_words);
        }
        words
    }
}

/// The state serialization is injective: two states — a block number with a
/// sequence of full-length key encodings — hand the hash primitive the same
/// byte string only if they are the same state. This is what lets a
/// collaborator outside the circuit recompute and publish commitments:
/// every digest stands for at most one state, up to collisions of the
/// digest itself.
pub proof fn lemma_state_serialization_injective(
    b1: u32,
    k1: Seq<Seq<u8>>,
    b2: u32,
    k2: Seq<Seq<u8>>,
)
    requires
        k1.len() == k2.len(),
        forall|i: int| 0 <= i < k1.len() ==> (#[trigger] k1[i]).len() == 285,
        forall|i: int| 0 <= i < k2.len() ==> (#[trigger] k2[i]).len() == 285,
        bytes_from_bits(bits_of_bytes(u32_be_bytes(b1)) + keys_bits(k1)) == bytes_from_bits(
            bits_of_bytes(u32_be_bytes(b2)) + keys_bits(k2),
        ),
    ensures
        b1 == b2,
        k1 == k2,
{
    let p1 = bits_of_bytes(u32_be_bytes(b1)) + keys_bits(k1);
    let p2 = bits_of_bytes(u32_be_bytes(b2)) + keys_bits(k2);
    crate::serialize::lemma_keys_bits_len(k1);
    crate::serialize::lemma_keys_bits_len(k2);
    assert(p1.len() == 32 + 2280 * k1.len());
    assert(p2.len() == 32 + 2280 * k2.len());
    assert((32 + 2280 * (k1.len() as int)) % 8 == 0) by (nonlinear_arith);
    crate::utils::lemma_bytes_from_bits_injective(p1, p2);
    assert(bits_of_bytes(u32_be_bytes(b1)) =~= p1.subrange(0, 32));
    assert(bits_of_bytes(u32_be_bytes(b2)) =~= p2.subrange(0, 32));
    crate::utils::lemma_bits_of_bytes_injective(u32_be_bytes(b1), u32_be_bytes(b2));
    crate::serialize::lemma_u32_be_bytes_injective(b1, b2);
    assert(keys_bits(k1) =~= p1.skip(32));
    assert(keys_bits(k2) =~= p2.skip(32));
    crate::serialize::lemma_keys_bits_injective(k1, k2);
}

/// The 32-byte state commitment of a block number and a key-set commitment,
/// in the same serialization discipline as the state hash: big-endian block
/// number bits, then the commitment bytes' bits.
pub open spec fn state_commitment_of(block_number: u32, pks_commitment: Seq<u8>) -> Seq<u8> {
    blake2s_of(
        bytes_from_bits(bits_of_bytes(u32_be_bytes(block_number)) + bits_of_bytes(pks_commitment)),
    )
}

/// Computes the state commitment that binds a block number to a key-set
/// commitment.
pub struct StateCommitmentGadget;

impl StateCommitmentGadget {
    /// The state commitment of the block number and key-set commitment.
    pub fn evaluate(block_number: u32, pks_commitment: &Vec<u8>) -> (r: Vec<u8>)
        ensures
            r@ == state_commitment_of(block_number, pks_commitment@),
    {
        let bn_bytes = u32_to_be_bytes(block_number);
        let mut bits = bytes_to_bits(bn_bytes.as_slice());
        let mut commitment_bits = bytes_to_bits(pks_commitment.as_slice());
        bits.append(&mut commitment_bits);
        proof {
            assert(bits@.len() == 32 + 8 * pks_commitment@.len());
            assert((32 + 8 * (pks_commitment@.len() as int)) % 8 == 0) by (nonlinear_arith);
        }
        let bytes = bits_to_bytes(&bits);
        let digest = blake2s(&bytes);
        vstd::slice::slice_to_vec(digest.as_slice())
    }
}

} // verus!
