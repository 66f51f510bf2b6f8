//! The serialization discipline shared by the hashing gadgets.
//!
//! Every digest preimage is assembled as one bit string, most significant
//! bit first: the big-endian bits of the fixed-width integers, then the
//! other fields in order, each public key contributing the bits of its
//! compressed encoding (x-coordinate plus the sign bit of the y-coordinate,
//! padded to whole bytes, so that the point is injectively recoverable).
//! The bit string is then regrouped into bytes for the hash primitive.

use vstd::prelude::*;

use crate::bls::PublicKey;
use crate::utils::{bits_of_bytes, bytes_to_bits};

verus! {

/// The big-endian bytes of a 32-bit integer.
pub open spec fn u32_be_bytes(n: u32) -> Seq<u8> {
    seq![(n >> 24) as u8, (n >> 16) as u8, (n >> 8) as u8, n as u8]
}

/// The compressed encodings of a sequence of public keys.
pub open spec fn key_views(keys: Seq<PublicKey>) -> Seq<Seq<u8>> {
    keys.map_values(|k: PublicKey| k@)
}

/// The concatenated serialization bits of a sequence of key encodings.
pub open spec fn keys_bits(keys: Seq<Seq<u8>>) -> Seq<bool>
    decreases keys.len(),
{
    if keys.len() == 0 {
        Seq::empty()
    } else {
        bits_of_bytes(keys.first()) + keys_bits(keys.drop_first())
    }
}

/// Appending one key appends its bits.
pub proof fn lemma_keys_bits_push(keys: Seq<Seq<u8>>, k: Seq<u8>)
    ensures
        keys_bits(keys.push(k)) == keys_bits(keys) + bits_of_bytes(k),
    decreases keys.len(),
{
    let p = keys.push(k);
    if keys.len() == 0 {
        assert(p.first() == k);
        assert(p.drop_first() =~= Seq::<Seq<u8>>::empty());
        assert(keys_bits(p) == bits_of_bytes(k) + keys_bits(Seq::<Seq<u8>>::empty()));
        assert(keys_bits(p) =~= keys_bits(keys) + bits_of_bytes(k));
    } else {
        assert(p.first() == keys.first());
        assert(p.drop_first() =~= keys.drop_first().push(k));
        lemma_keys_bits_push(keys.drop_first(), k);
        assert(keys_bits(p) == bits_of_bytes(keys.first()) + keys_bits(keys.drop_first().push(k)));
        assert(keys_bits(p) =~= keys_bits(keys) + bits_of_bytes(k));
    }
}

/// The big-endian byte form of a 32-bit integer determines the integer.
pub proof fn lemma_u32_be_bytes_injective(n1: u32, n2: u32)
    requires
        u32_be_bytes(n1) == u32_be_bytes(n2),
    ensures
        n1 == n2,
{
    assert(u32_be_bytes(n1)[0] == u32_be_bytes(n2)[0]);
    assert(u32_be_bytes(n1)[1] == u32_be_bytes(n2)[1]);
    assert(u32_be_bytes(n1)[2] == u32_be_bytes(n2)[2]);
    assert(u32_be_bytes(n1)[3] == u32_be_bytes(n2)[3]);
    assert(n1 == n2) by (bit_vector)
        requires
            (n1 >> 24) as u8 == (n2 >> 24) as u8,
            (n1 >> 16) as u8 == (n2 >> 16) as u8,
            (n1 >> 8) as u8 == (n2 >> 8) as u8,
            n1 as u8 == n2 as u8,
    ;
}

/// The serialization bits of a key sequence whose encodings all have the
/// full key length take 2280 bits per key.
pub proof fn lemma_keys_bits_len(keys: Seq<Seq<u8>>)
    requires
        forall|i: int| 0 <= i < keys.len() ==> (#[trigger] keys[i]).len() == 285,
    ensures
        keys_bits(keys).len() == 2280 * keys.len(),
    decreases keys.len(),
{
    if keys.len() > 0 {
        assert(keys.first().len() == 285);
        assert forall|i: int| 0 <= i < keys.drop_first().len() implies (#[trigger] keys.drop_first()[i]).len() == 285 by {
            assert(keys.drop_first()[i] == keys[i + 1]);
        }
        lemma_keys_bits_len(keys.drop_first());
    }
}

/// The concatenated key serialization determines each key: sequences of
/// equally many full-length encodings with the same bits are the same.
pub proof fn lemma_keys_bits_injective(k1: Seq<Seq<u8>>, k2: Seq<Seq<u8>>)
    requires
        k1.len() == k2.len(),
        forall|i: int| 0 <= i < k1.len() ==> (#[trigger] k1[i]).len() == 285,
        forall|i: int| 0 <= i < k2.len() ==> (#[trigger] k2[i]).len() == 285,
        keys_bits(k1) == keys_bits(k2),
    ensures
        k1 == k2,
    decreases k1.len(),
{
    if k1.len() == 0 {
        assert(k1 =~= k2);
    } else {
        let head1 = crate::utils::bits_of_bytes(k1.first());
        let head2 = crate::utils::bits_of_bytes(k2.first());
        assert(head1.len() == 2280);
        assert(head2.len() == 2280);
        assert(head1 =~= keys_bits(k1).subrange(0, 2280));
        assert(head2 =~= keys_bits(k2).subrange(0, 2280));
        crate::utils::lemma_bits_of_bytes_injective(k1.first(), k2.first());
        assert forall|i: int| 0 <= i < k1.drop_first().len() implies (#[trigger] k1.drop_first()[
            i
        ]).len() == 285 by {
            assert(k1.drop_first()[i] == k1[i + 1]);
        }
        assert forall|i: int| 0 <= i < k2.drop_first().len() implies (#[trigger] k2.drop_first()[
            i
        ]).len() == 285 by {
            assert(k2.drop_first()[i] == k2[i + 1]);
        }
        assert(keys_bits(k1.drop_first()) =~= keys_bits(k1).skip(2280));
        assert(keys_bits(k2.drop_first()) =~= keys_bits(k2).skip(2280));
        lemma_keys_bits_injective(k1.drop_first(), k2.drop_first());
        assert forall|i: int| 0 <= i < k1.len() implies k1[i] == k2[i] by {
            if i == 0 {
                assert(k1[0] == k1.first());
                assert(k2[0] == k2.first());
            } else {
                assert(k1.drop_first()[i - 1] == k1[i]);
                assert(k2.drop_first()[i - 1] == k2[i]);
            }
        }
        assert(k1 =~= k2);
    }
}

/// The big-endian bytes of a 32-bit integer.
pub fn u32_to_be_bytes(n: u32) -> (r: Vec<u8>)
    ensures
        r@ == u32_be_bytes(n),
{
    let mut r: Vec<u8> = Vec::new();
    r.push((n >> 24) as u8);
    r.push((n >> 16) as u8);
    r.push((n >> 8) as u8);
    r.push(n as u8);
    assert(r@ =~= u32_be_bytes(n));
    r
}

/// Appends the serialization bits of each public key, in set order, to `bits`.
pub fn append_keys_bits(bits: &mut Vec<bool>, keys: &Vec<PublicKey>)
    ensures
        final(bits)@ == old(bits)@ + keys_bits(key_views(keys@)),
        final(bits)@.len() == old(bits)@.len() + 2280 * keys@.len(),
{
    let ghost prefix = bits@;
    let n = keys.len();
    for i in 0..n
        invariant
            n == keys@.len(),
            bits@ == prefix + keys_bits(key_views(keys@.take(i as int))),
            bits@.len() == prefix.len() + 2280 * i,
    {
        let key = &keys[i];
        key.note_valid();
        let mut kb = bytes_to_bits(key.as_bytes().as_slice());
        assert(kb@.len() == 2280);
        bits.append(&mut kb);
        proof {
            assert(keys@.take(i + 1) =~= keys@.take(i as int).push(keys@[i as int]));
            assert(key_views(keys@.take(i + 1)) =~= key_views(keys@.take(i as int)).push(
                keys@[i as int]@,
            ));
            lemma_keys_bits_push(key_views(keys@.take(i as int)), keys@[i as int]@);
        }
    }
    proof {
        assert(keys@.take(n as int) =~= keys@);
    }
}

} // verus!
