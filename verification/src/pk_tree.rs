//! The tree of key-aggregation circuits.
//!
//! The previous validator set is split into equal chunks. A leaf aggregates
//! one chunk's keys under its bitmap slice, keeping the generator offset so
//! that a chunk with no signer still avoids the identity element, and
//! commits to the partial aggregate. Each inner node folds its two
//! children's commitments into one parent commitment, and the top level
//! recomposes the full aggregate from the chunk aggregates by adding each
//! chunk and subtracting one generator offset per step.

use vstd::prelude::*;

use crate::bls::PublicKey;
use crate::curve::{
    g2_add, g2_add_of, g2_generator, g2_sub, g2_sub_of, g2_valid, G2_GENERATOR_BYTES,
};
use crate::hashes::{blake2s, blake2s_of};
use crate::macro_block::{agg_sum, conditionally_select, included, spec_reference};
use crate::serialize::key_views;
use vstd::slice::slice_to_vec;

verus! {

/// The partial aggregate of a chunk: the running sum of the included keys,
/// started at the generator and not corrected, so that the chunk's result
/// carries the generator offset with it.
pub open spec fn chunk_aggregate_of(
    keys: Seq<Seq<u8>>,
    bitmap: Seq<bool>,
    reference: Option<Seq<bool>>,
) -> Seq<u8> {
    agg_sum(G2_GENERATOR_BYTES@, keys, bitmap, reference, keys.len() as int)
}

/// The commitment to an aggregate key: the digest of its serialized form,
/// which is exactly its compressed encoding.
pub open spec fn key_commitment_of(key: Seq<u8>) -> Seq<u8> {
    blake2s_of(key)
}

/// The parent commitment of an inner node: the digest of the two child
/// commitments in order.
pub open spec fn parent_commitment_of(left: Seq<u8>, right: Seq<u8>) -> Seq<u8> {
    blake2s_of(left + right)
}

/// The running recomposition of chunk aggregates: each step adds one chunk
/// and subtracts the generator offset the chunk carries.
pub open spec fn recompose_sum(chunks: Seq<Seq<u8>>, n: int) -> Seq<u8>
    decreases n,
{
    if n <= 0 {
        G2_GENERATOR_BYTES@
    } else {
        g2_sub_of(g2_add_of(recompose_sum(chunks, n - 1), chunks[n - 1]), G2_GENERATOR_BYTES@)
    }
}

/// The full aggregate recomposed from the chunk aggregates: the running
/// recomposition with the initial generator subtracted at the end.
pub open spec fn recomposed_aggregate_of(chunks: Seq<Seq<u8>>) -> Seq<u8> {
    g2_sub_of(recompose_sum(chunks, chunks.len() as int), G2_GENERATOR_BYTES@)
}

/// The keys of the included positions, in position order.
pub open spec fn included_keys(
    keys: Seq<Seq<u8>>,
    bitmap: Seq<bool>,
    reference: Option<Seq<bool>>,
    n: int,
) -> Seq<Seq<u8>>
    decreases n,
{
    if n <= 0 {
        Seq::empty()
    } else {
        included_keys(keys, bitmap, reference, n - 1) + (if included(bitmap, reference, n - 1) {
            seq![keys[n - 1]]
        } else {
            Seq::empty()
        })
    }
}

/// A leaf of the tree: one chunk's partial aggregate under its bitmap
/// slice, generator offset kept.
pub fn leaf_aggregate(
    chunk_keys: &Vec<PublicKey>,
    chunk_bitmap: &Vec<bool>,
    reference_bitmap: Option<&Vec<bool>>,
) -> (r: PublicKey)
    requires
        chunk_keys@.len() == chunk_bitmap@.len(),
        reference_bitmap is Some ==> reference_bitmap.unwrap()@.len() == chunk_bitmap@.len(),
    ensures
        r@ == chunk_aggregate_of(
            key_views(chunk_keys@),
            chunk_bitmap@,
            spec_reference(reference_bitmap),
        ),
{
    let ghost rf = spec_reference(reference_bitmap);
    let ghost kv = key_views(chunk_keys@);
    let mut sum: [u8; 285] = g2_generator();
    let n = chunk_keys.len();
    for i in 0..n
        invariant
            n == chunk_keys@.len(),
            n == chunk_bitmap@.len(),
            rf == spec_reference(reference_bitmap),
            rf is Some ==> rf.unwrap().len() == n,
            kv == key_views(chunk_keys@),
            g2_valid(sum@),
            sum@ == agg_sum(G2_GENERATOR_BYTES@, kv, chunk_bitmap@, rf, i as int),
    {
        let key = &chunk_keys[i];
        key.note_valid();
        let new_sum = g2_add(&sum, key.as_bytes());
        let incl = chunk_bitmap[i] && (match reference_bitmap {
            Some(r) => r[i],
            None => true,
        });
        proof {
            assert(incl == included(chunk_bitmap@, rf, i as int));
        }
        sum = conditionally_select(incl, &new_sum, &sum);
    }
    PublicKey::from_bytes(sum)
}

/// The commitment to an aggregate key.
pub fn commit_to_aggregate(key: &PublicKey) -> (r: Vec<u8>)
    ensures
        r@ == key_commitment_of(key@),
{
    key.note_valid();
    let bytes = slice_to_vec(key.as_bytes().as_slice());
    let digest = blake2s(&bytes);
    slice_to_vec(digest.as_slice())
}

/// Folds two child commitments into the parent commitment.
pub fn fold_commitments(left: &Vec<u8>, right: &Vec<u8>) -> (r: Vec<u8>)
    ensures
        r@ == parent_commitment_of(left@, right@),
{
    let mut m = slice_to_vec(left.as_slice());
    let mut right_copy = slice_to_vec(right.as_slice());
    m.append(&mut right_copy);
    let digest = blake2s(&m);
    slice_to_vec(digest.as_slice())
}

/// Recomposes the full aggregate from the chunk aggregates.
pub fn recompose_aggregate(chunks: &Vec<PublicKey>) -> (r: PublicKey)
    ensures
        r@ == recomposed_aggregate_of(key_views(chunks@)),
{
    let ghost kv = key_views(chunks@);
    let gen = g2_generator();
    let mut sum: [u8; 285] = gen;
    let n = chunks.len();
    for i in 0..n
        invariant
            n == chunks@.len(),
            kv == key_views(chunks@),
            g2_valid(sum@),
            sum@ == recompose_sum(kv, i as int),
    {
        let chunk = &chunks[i];
        chunk.note_valid();
        let added = g2_add(&sum, chunk.as_bytes());
        let gen_again = g2_generator();
        sum = g2_sub(&added, &gen_again);
    }
    let gen_final = g2_generator();
    let aggregate = g2_sub(&sum, &gen_final);
    PublicKey::from_bytes(aggregate)
}

/// Splits a key set and its bitmap into `num_chunks` equal chunks.
pub fn split_into_chunks(
    keys: &Vec<PublicKey>,
    bitmap: &Vec<bool>,
    num_chunks: usize,
) -> (r: (Vec<Vec<PublicKey>>, Vec<Vec<bool>>))
    requires
        num_chunks >= 1,
        keys@.len() == bitmap@.len(),
        keys@.len() as int % (num_chunks as int) == 0,
    ensures
        r.0@.len() == num_chunks,
        r.1@.len() == num_chunks,
        ({
            let size = keys@.len() as int / num_chunks as int;
            &&& forall|c: int|
                0 <= c < num_chunks ==> (#[trigger] r.0@[c])@ == keys@.subrange(
                    c * size,
                    (c + 1) * size,
                )
            &&& forall|c: int|
                0 <= c < num_chunks ==> (#[trigger] r.1@[c])@ == bitmap@.subrange(
                    c * size,
                    (c + 1) * size,
                )
        }),
{
    let ghost size_g = keys@.len() as int / num_chunks as int;
    let size = keys.len() / num_chunks;
    proof {
        assert(keys@.len() <= usize::MAX);
        assert(size as int == size_g);
        assert(size_g >= 0);
        assert(size_g * num_chunks as int == keys@.len() as int) by (nonlinear_arith)
            requires
                size_g == keys@.len() as int / num_chunks as int,
                keys@.len() as int % (num_chunks as int) == 0,
                num_chunks >= 1,
        ;
    }
    let mut key_chunks: Vec<Vec<PublicKey>> = Vec::new();
    let mut bitmap_chunks: Vec<Vec<bool>> = Vec::new();
    for c in 0..num_chunks
        invariant
            size as int == size_g,
            size_g >= 0,
            size_g * num_chunks as int == keys@.len() as int,
            keys@.len() <= usize::MAX,
            keys@.len() == bitmap@.len(),
            key_chunks@.len() == c,
            bitmap_chunks@.len() == c,
            forall|k: int|
                0 <= k < c ==> (#[trigger] key_chunks@[k])@ == keys@.subrange(
                    k * size_g,
                    (k + 1) * size_g,
                ),
            forall|k: int|
                0 <= k < c ==> (#[trigger] bitmap_chunks@[k])@ == bitmap@.subrange(
                    k * size_g,
                    (k + 1) * size_g,
                ),
    {
        proof {
            assert((c as int + 1) * size_g <= keys@.len() as int) by (nonlinear_arith)
                requires
                    c as int + 1 <= num_chunks as int,
                    size_g >= 0,
                    size_g * (num_chunks as int) == keys@.len() as int,
            ;
            assert(c as int * size_g + size_g == (c as int + 1) * size_g) by (nonlinear_arith);
            assert(c as int * size_g >= 0) by (nonlinear_arith)
                requires
                    c as int >= 0,
                    size_g >= 0,
            ;
            assert(c as int * (size as int) == c as int * size_g);
        }
        let mut kc: Vec<PublicKey> = Vec::new();
        let mut bc: Vec<bool> = Vec::new();
        let base = c * size;
        proof {
            assert(base as int == c as int * size_g);
            assert(kc@ =~= keys@.subrange(base as int, base as int));
            assert(bc@ =~= bitmap@.subrange(base as int, base as int));
        }
        for j in 0..size
            invariant
                size as int == size_g,
                base as int == c as int * size_g,
                base as int + size_g <= keys@.len() as int,
                keys@.len() <= usize::MAX,
                keys@.len() == bitmap@.len(),
                kc@ == keys@.subrange(base as int, base as int + j as int),
                bc@ == bitmap@.subrange(base as int, base as int + j as int),
        {
            kc.push(keys[base + j]);
            bc.push(bitmap[base + j]);
            proof {
                assert(kc@ =~= keys@.subrange(base as int, base as int + j + 1));
                assert(bc@ =~= bitmap@.subrange(base as int, base as int + j + 1));
            }
        }
        key_chunks.push(kc);
        bitmap_chunks.push(bc);
    }
    (key_chunks, bitmap_chunks)
}

/// `included_keys` reads only the first `n` positions, so sequences that
/// agree there produce the same result.
proof fn lemma_included_keys_agree(
    keys1: Seq<Seq<u8>>,
    bitmap1: Seq<bool>,
    keys2: Seq<Seq<u8>>,
    bitmap2: Seq<bool>,
    n: int,
)
    requires
        forall|i: int| 0 <= i < n ==> keys1[i] == keys2[i],
        forall|i: int| 0 <= i < n ==> bitmap1[i] == bitmap2[i],
    ensures
        included_keys(keys1, bitmap1, None, n) == included_keys(keys2, bitmap2, None, n),
    decreases n,
{
    if n > 0 {
        lemma_included_keys_agree(keys1, bitmap1, keys2, bitmap2, n - 1);
    }
}

/// Splitting a set at any cut loses no information about which keys enter
/// the aggregation: the included keys of the whole set are exactly the
/// included keys of the left part followed by those of the right part.
/// This is the content of the tree decomposition at every inner node: the
/// two children together process exactly the positions of the parent, in
/// the parent's order.
pub proof fn lemma_split_preserves_included_keys(keys: Seq<Seq<u8>>, bitmap: Seq<bool>, cut: int)
    requires
        0 <= cut <= keys.len(),
        keys.len() == bitmap.len(),
    ensures
        included_keys(keys, bitmap, None, keys.len() as int) == included_keys(
            keys.take(cut),
            bitmap.take(cut),
            None,
            cut,
        ) + included_keys(
            keys.skip(cut),
            bitmap.skip(cut),
            None,
            keys.len() - cut,
        ),
{
    lemma_split_included_upto(keys, bitmap, cut, keys.len() as int);
    lemma_included_keys_agree(keys.take(cut), bitmap.take(cut), keys, bitmap, cut);
}

/// For every `m` between `cut` and the length, the included keys of the
/// first `m` positions split at `cut`.
proof fn lemma_split_included_upto(keys: Seq<Seq<u8>>, bitmap: Seq<bool>, cut: int, m: int)
    requires
        0 <= cut <= m <= keys.len(),
        keys.len() == bitmap.len(),
    ensures
        included_keys(keys, bitmap, None, m) == included_keys(keys, bitmap, None, cut)
            + included_keys(keys.skip(cut), bitmap.skip(cut), None, m - cut),
    decreases m - cut,
{
    if m == cut {
        assert(included_keys(keys.skip(cut), bitmap.skip(cut), None, 0) == Seq::<Seq<u8>>::empty());
        assert(included_keys(keys, bitmap, None, m) =~= included_keys(keys, bitmap, None, cut)
            + Seq::<Seq<u8>>::empty());
    } else {
        lemma_split_included_upto(keys, bitmap, cut, m - 1);
        assert(keys.skip(cut)[m - 1 - cut] == keys[m - 1]);
        assert(bitmap.skip(cut)[m - 1 - cut] == bitmap[m - 1]);
        assert(included_keys(keys, bitmap, None, m) =~= included_keys(keys, bitmap, None, cut)
            + included_keys(keys.skip(cut), bitmap.skip(cut), None, m - cut));
    }
}

} // verus!
