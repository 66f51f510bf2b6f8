//! Deterministic mapping of a 32-byte digest onto a point of the signature
//! group.
//!
//! The digest is expanded, together with a one-byte counter and a one-byte
//! block index, into 95 candidate bytes whose two flag bits are cleared; the
//! first counter whose candidate is a canonical point encoding yields the
//! point. Each candidate is valid with probability about one half, so the
//! 256 counters fail together only with negligible probability; that case is
//! still reported as a typed error, never ignored.

use vstd::prelude::*;

use crate::bls::Signature;
use crate::curve::{g1_is_valid, g1_valid};
use crate::errors::SynthesisError;
use crate::hashes::{blake2s, blake2s_of};

verus! {

/// The 95 candidate bytes derived from a digest and a counter: three
/// expansion digests concatenated, truncated to 95 bytes, with the two flag
/// bits of the final byte cleared.
pub open spec fn g1_seed(digest: Seq<u8>, c: u8) -> Seq<u8> {
    let e = blake2s_of(digest.push(c).push(0)) + blake2s_of(digest.push(c).push(1))
        + blake2s_of(digest.push(c).push(2));
    let t = e.subrange(0, 95);
    t.update(94, t[94] & 0x3f)
}

/// The first counter at or after `c` whose candidate encodes a point, or 256
/// if none below 256 does.
pub open spec fn first_seed_ctr_from(digest: Seq<u8>, c: int) -> int
    decreases (if c < 256 { 256 - c } else { 0 }),
{
    if 0 <= c < 256 {
        if g1_valid(g1_seed(digest, c as u8)) {
            c
        } else {
            first_seed_ctr_from(digest, c + 1)
        }
    } else {
        256
    }
}

/// The counter that maps this digest onto a point.
pub open spec fn hash_ctr_of(digest: Seq<u8>) -> int {
    first_seed_ctr_from(digest, 0)
}

/// The point this digest maps onto; meaningful when `hash_ctr_of` is below
/// 256.
pub open spec fn hash_point_of(digest: Seq<u8>) -> Seq<u8> {
    g1_seed(digest, hash_ctr_of(digest) as u8)
}

/// While every counter in `i..c` has an invalid candidate, the search from
/// `i` and the search from `c` agree.
proof fn lemma_first_ctr_advance(digest: Seq<u8>, i: int, c: int)
    requires
        0 <= i <= c <= 256,
        forall|j: u8| i <= j < c ==> !g1_valid(#[trigger] g1_seed(digest, j)),
    ensures
        first_seed_ctr_from(digest, i) == first_seed_ctr_from(digest, c),
    decreases c - i,
{
    if i < c {
        assert(!g1_valid(g1_seed(digest, i as u8)));
        lemma_first_ctr_advance(digest, i + 1, c);
    }
}

/// The expansion message `digest || c || block`.
fn expansion_message(digest: &[u8; 32], c: u8, block: u8) -> (r: Vec<u8>)
    ensures
        r@ == digest@.push(c).push(block),
{
    let mut m: Vec<u8> = Vec::new();
    for k in 0..32usize
        invariant
            m@ == digest@.take(k as int),
    {
        m.push(digest[k]);
        proof {
            assert(m@ =~= digest@.take(k + 1));
        }
    }
    proof {
        assert(digest@.take(32) =~= digest@);
    }
    m.push(c);
    m.push(block);
    m
}

/// Maps a digest onto the point of the first valid candidate, trying the
/// counters in order.
pub fn try_and_increment(digest: &[u8; 32]) -> (r: Result<Signature, SynthesisError>)
    ensures
        r is Ok <==> hash_ctr_of(digest@) < 256,
        r is Ok ==> r.unwrap()@ == hash_point_of(digest@),
        r is Err ==> r.unwrap_err() == SynthesisError::DigestPointNotFound,
{
    for c in 0..256usize
        invariant
            forall|j: u8| j < c ==> !g1_valid(#[trigger] g1_seed(digest@, j)),
    {
        let h0 = blake2s(&expansion_message(digest, c as u8, 0));
        let h1 = blake2s(&expansion_message(digest, c as u8, 1));
        let h2 = blake2s(&expansion_message(digest, c as u8, 2));
        let mut cand = [0u8; 95];
        for k in 0..32usize
            invariant
                forall|t: int| 0 <= t < k ==> cand@[t] == h0@[t],
        {
            cand[k] = h0[k];
        }
        for k in 0..32usize
            invariant
                forall|t: int| 0 <= t < 32 ==> cand@[t] == h0@[t],
                forall|t: int| 0 <= t < k ==> cand@[32 + t] == h1@[t],
        {
            cand[32 + k] = h1[k];
        }
        for k in 0..30usize
            invariant
                forall|t: int| 0 <= t < 32 ==> cand@[t] == h0@[t],
                forall|t: int| 0 <= t < 32 ==> cand@[32 + t] == h1@[t],
                forall|t: int| 0 <= t < k ==> cand@[64 + t] == h2@[t],
        {
            cand[64 + k] = h2[k];
        }
        cand[94] = h2[30] & 0x3f;
        proof {
            let e = h0@ + h1@ + h2@;
            assert forall|t: int| 0 <= t < 95 implies cand@[t] == g1_seed(digest@, c as u8)[t] by {
                assert(e[t] == (if t < 32 {
                    h0@[t]
                } else if t < 64 {
                    h1@[t - 32]
                } else {
                    h2@[t - 64]
                }));
            }
            assert(cand@ =~= g1_seed(digest@, c as u8));
        }
        if g1_is_valid(&cand) {
            proof {
                lemma_first_ctr_advance(digest@, 0, c as int);
            }
            return Ok(Signature::from_bytes(cand));
        }
    }
    proof {
        lemma_first_ctr_advance(digest@, 0, 256);
    }
    Err(SynthesisError::DigestPointNotFound)
}

} // verus!
