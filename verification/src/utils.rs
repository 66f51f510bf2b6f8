//! Bit- and byte-level helpers shared by the serialization disciplines.
//!
//! Everything here is pure: a byte string is read most-significant bit first,
//! and the helpers that regroup bits into bytes are exact inverses of that
//! reading, which the contracts state.

use vstd::prelude::*;

verus! {

/// Bit `j` (0 = most significant) of byte `b`.
pub open spec fn byte_bit(b: u8, j: int) -> bool
    recommends 0 <= j < 8,
{
    (b >> ((7 - j) as u8)) & 1 == 1
}

/// The bits of a byte string, most significant bit of each byte first.
pub open spec fn bits_of_bytes(s: Seq<u8>) -> Seq<bool> {
    Seq::new(s.len() * 8, |i: int| byte_bit(s[i / 8], i % 8))
}

/// The byte whose bits, most significant first, are `s`.
pub open spec fn byte_from_bits(s: Seq<bool>) -> u8
    recommends s.len() == 8,
{
    (if s[0] { 128u8 } else { 0u8 }) | (if s[1] { 64u8 } else { 0u8 })
        | (if s[2] { 32u8 } else { 0u8 }) | (if s[3] { 16u8 } else { 0u8 })
        | (if s[4] { 8u8 } else { 0u8 }) | (if s[5] { 4u8 } else { 0u8 })
        | (if s[6] { 2u8 } else { 0u8 }) | (if s[7] { 1u8 } else { 0u8 })
}

/// The bytes whose bits, most significant first, are `s`.
pub open spec fn bytes_from_bits(s: Seq<bool>) -> Seq<u8>
    recommends s.len() % 8 == 0,
{
    Seq::new(s.len() / 8, |i: int| byte_from_bits(s.subrange(8 * i, 8 * i + 8)))
}

/// `s` with the bits of each 8-bit chunk reversed in place.
pub open spec fn reversed_inner_byte_order(s: Seq<bool>) -> Seq<bool>
    recommends s.len() % 8 == 0,
{
    Seq::new(s.len(), |i: int| s[8 * (i / 8) + 7 - (i % 8)])
}

/// The big-endian 32-bit integer at offset `i` of a byte string.
pub open spec fn be_u32_at(d: Seq<u8>, i: int) -> u32 {
    ((d[i] as u32) << 24) | ((d[i + 1] as u32) << 16) | ((d[i + 2] as u32) << 8) | (d[i + 3] as u32)
}

/// The big-endian 64-bit integer at offset `i` of a byte string.
pub open spec fn be_u64_at(d: Seq<u8>, i: int) -> u64 {
    ((d[i] as u64) << 56) | ((d[i + 1] as u64) << 48) | ((d[i + 2] as u64) << 40) | ((d[i + 3]
        as u64) << 32) | ((d[i + 4] as u64) << 24) | ((d[i + 5] as u64) << 16) | ((d[i + 6]
        as u64) << 8) | (d[i + 7] as u64)
}

/// Reads the big-endian 32-bit integer at offset `i`.
pub fn read_u32_be(d: &[u8], i: usize) -> (r: u32)
    requires
        i + 4 <= d@.len(),
    ensures
        r == be_u32_at(d@, i as int),
{
    let n = d.len();
    assert(i + 4 <= n);
    ((d[i] as u32) << 24) | ((d[i + 1] as u32) << 16) | ((d[i + 2] as u32) << 8) | (d[i + 3] as u32)
}

/// Reads the big-endian 64-bit integer at offset `i`.
pub fn read_u64_be(d: &[u8], i: usize) -> (r: u64)
    requires
        i + 8 <= d@.len(),
    ensures
        r == be_u64_at(d@, i as int),
{
    let n = d.len();
    assert(i + 8 <= n);
    ((d[i] as u64) << 56) | ((d[i + 1] as u64) << 48) | ((d[i + 2] as u64) << 40) | ((d[i + 3]
        as u64) << 32) | ((d[i + 4] as u64) << 24) | ((d[i + 5] as u64) << 16) | ((d[i + 6]
        as u64) << 8) | (d[i + 7] as u64)
}

/// A 768-bit integer as twelve 64-bit limbs, least significant limb first.
#[derive(Clone, Copy, Debug, PartialEq, Eq)]
pub struct BigInteger768 {
    pub limbs: [u64; 12],
}

/// Reads a 768-bit integer from the first 96 bytes, given big-endian: the
/// first eight bytes hold the most significant limb.
pub fn big_int_from_bytes_be(bytes: &[u8]) -> (r: BigInteger768)
    requires
        bytes@.len() >= 96,
    ensures
        forall|k: int| 0 <= k < 12 ==> r.limbs@[k] == be_u64_at(bytes@, 8 * (11 - k)),
{
    let mut limbs = [0u64; 12];
    for k in 0..12usize
        invariant
            bytes@.len() >= 96,
            forall|t: int| 0 <= t < k ==> limbs@[11 - t] == #[trigger] be_u64_at(bytes@, 8 * t),
    {
        limbs[11 - k] = read_u64_be(bytes, 8 * k);
    }
    proof {
        assert forall|k: int| 0 <= k < 12 implies limbs@[k] == be_u64_at(bytes@, 8 * (11 - k)) by {
            assert(limbs@[11 - (11 - k)] == be_u64_at(bytes@, 8 * (11 - k)));
        }
    }
    BigInteger768 { limbs }
}

/// A byte is determined by its eight bits.
pub proof fn lemma_byte_bits_determine(a: u8, b: u8)
    requires
        forall|j: int| 0 <= j < 8 ==> byte_bit(a, j) == byte_bit(b, j),
    ensures
        a == b,
{
    assert(byte_bit(a, 0) == byte_bit(b, 0));
    assert(byte_bit(a, 1) == byte_bit(b, 1));
    assert(byte_bit(a, 2) == byte_bit(b, 2));
    assert(byte_bit(a, 3) == byte_bit(b, 3));
    assert(byte_bit(a, 4) == byte_bit(b, 4));
    assert(byte_bit(a, 5) == byte_bit(b, 5));
    assert(byte_bit(a, 6) == byte_bit(b, 6));
    assert(byte_bit(a, 7) == byte_bit(b, 7));
    assert(a == b) by (bit_vector)
        requires
            ((a >> 7u8) & 1 == 1) == ((b >> 7u8) & 1 == 1),
            ((a >> 6u8) & 1 == 1) == ((b >> 6u8) & 1 == 1),
            ((a >> 5u8) & 1 == 1) == ((b >> 5u8) & 1 == 1),
            ((a >> 4u8) & 1 == 1) == ((b >> 4u8) & 1 == 1),
            ((a >> 3u8) & 1 == 1) == ((b >> 3u8) & 1 == 1),
            ((a >> 2u8) & 1 == 1) == ((b >> 2u8) & 1 == 1),
            ((a >> 1u8) & 1 == 1) == ((b >> 1u8) & 1 == 1),
            ((a >> 0u8) & 1 == 1) == ((b >> 0u8) & 1 == 1),
    ;
}

/// Byte strings of equal length with the same bits are the same.
pub proof fn lemma_bits_of_bytes_injective(s1: Seq<u8>, s2: Seq<u8>)
    requires
        s1.len() == s2.len(),
        bits_of_bytes(s1) == bits_of_bytes(s2),
    ensures
        s1 == s2,
{
    assert forall|i: int| 0 <= i < s1.len() implies s1[i] == s2[i] by {
        assert forall|j: int| 0 <= j < 8 implies byte_bit(s1[i], j) == byte_bit(s2[i], j) by {
            assert(bits_of_bytes(s1)[8 * i + j] == byte_bit(s1[i], j));
            assert(bits_of_bytes(s2)[8 * i + j] == byte_bit(s2[i], j));
        }
        lemma_byte_bits_determine(s1[i], s2[i]);
    }
    assert(s1 =~= s2);
}

/// The most-significant-first packing of a byte's bits gives the byte back:
/// each bit of the packed byte is the bit that was packed into it.
proof fn lemma_byte_from_bits_roundtrip(s: Seq<bool>)
    requires
        s.len() == 8,
    ensures
        forall|j: int| 0 <= j < 8 ==> byte_bit(byte_from_bits(s), j) == s[j],
{
    let u0: u8 = if s[0] { 128 } else { 0 };
    let u1: u8 = if s[1] { 64 } else { 0 };
    let u2: u8 = if s[2] { 32 } else { 0 };
    let u3: u8 = if s[3] { 16 } else { 0 };
    let u4: u8 = if s[4] { 8 } else { 0 };
    let u5: u8 = if s[5] { 4 } else { 0 };
    let u6: u8 = if s[6] { 2 } else { 0 };
    let u7: u8 = if s[7] { 1 } else { 0 };
    let x = byte_from_bits(s);
    assert(x == u0 | u1 | u2 | u3 | u4 | u5 | u6 | u7);
    assert(((x >> 7u8) & 1 == 1) == (u0 == 128) && ((x >> 6u8) & 1 == 1) == (u1 == 64) && ((x
        >> 5u8) & 1 == 1) == (u2 == 32) && ((x >> 4u8) & 1 == 1) == (u3 == 16) && ((x >> 3u8) & 1
        == 1) == (u4 == 8) && ((x >> 2u8) & 1 == 1) == (u5 == 4) && ((x >> 1u8) & 1 == 1) == (u6
        == 2) && ((x >> 0u8) & 1 == 1) == (u7 == 1)) by (bit_vector)
        requires
            x == u0 | u1 | u2 | u3 | u4 | u5 | u6 | u7,
            u0 == 128 || u0 == 0,
            u1 == 64 || u1 == 0,
            u2 == 32 || u2 == 0,
            u3 == 16 || u3 == 0,
            u4 == 8 || u4 == 0,
            u5 == 4 || u5 == 0,
            u6 == 2 || u6 == 0,
            u7 == 1 || u7 == 0,
    ;
    assert forall|j: int| 0 <= j < 8 implies byte_bit(x, j) == s[j] by {
        if j == 0 {
            assert(byte_bit(x, 0) == ((x >> 7u8) & 1 == 1));
        } else if j == 1 {
            assert(byte_bit(x, 1) == ((x >> 6u8) & 1 == 1));
        } else if j == 2 {
            assert(byte_bit(x, 2) == ((x >> 5u8) & 1 == 1));
        } else if j == 3 {
            assert(byte_bit(x, 3) == ((x >> 4u8) & 1 == 1));
        } else if j == 4 {
            assert(byte_bit(x, 4) == ((x >> 3u8) & 1 == 1));
        } else if j == 5 {
            assert(byte_bit(x, 5) == ((x >> 2u8) & 1 == 1));
        } else if j == 6 {
            assert(byte_bit(x, 6) == ((x >> 1u8) & 1 == 1));
        } else {
            assert(byte_bit(x, 7) == ((x >> 0u8) & 1 == 1));
        }
    }
}

/// The byte packing loses no bit: bit strings of equal length that pack to
/// the same bytes are the same.
pub proof fn lemma_bytes_from_bits_injective(s1: Seq<bool>, s2: Seq<bool>)
    requires
        s1.len() == s2.len(),
        s1.len() % 8 == 0,
        bytes_from_bits(s1) == bytes_from_bits(s2),
    ensures
        s1 == s2,
{
    assert forall|t: int| 0 <= t < s1.len() implies s1[t] == s2[t] by {
        let i = t / 8;
        let j = t % 8;
        let c1 = s1.subrange(8 * i, 8 * i + 8);
        let c2 = s2.subrange(8 * i, 8 * i + 8);
        assert(bytes_from_bits(s1)[i] == byte_from_bits(c1));
        assert(bytes_from_bits(s2)[i] == byte_from_bits(c2));
        lemma_byte_from_bits_roundtrip(c1);
        lemma_byte_from_bits_roundtrip(c2);
        assert(c1[j] == byte_bit(byte_from_bits(c1), j));
        assert(c2[j] == byte_bit(byte_from_bits(c2), j));
        assert(s1[t] == c1[j]);
        assert(s2[t] == c2[j]);
    }
    assert(s1 =~= s2);
}

/// Transforms a byte string into the corresponding bit string, most
/// significant bit of each byte first.
pub fn bytes_to_bits(bytes: &[u8]) -> (r: Vec<bool>)
    ensures
        r@ == bits_of_bytes(bytes@),
{
    let mut bits: Vec<bool> = Vec::new();
    let n = bytes.len();
    for i in 0..n
        invariant
            n == bytes@.len(),
            bits@.len() == 8 * i,
            forall|k: int| 0 <= k < 8 * i ==> bits@[k] == byte_bit(bytes@[k / 8], k % 8),
    {
        let byte = bytes[i];
        for j in 0..8usize
            invariant
                n == bytes@.len(),
                i < n,
                byte == bytes@[i as int],
                bits@.len() == 8 * i + j,
                forall|k: int| 0 <= k < 8 * i + j ==> bits@[k] == byte_bit(bytes@[k / 8], k % 8),
        {
            let b: bool = (byte >> ((7 - j) as u8)) & 1 == 1;
            bits.push(b);
            assert(b == byte_bit(bytes@[i as int], j as int));
            assert(forall|k: int|
                0 <= k < 8 * i + j + 1 ==> bits@[k] == byte_bit(bytes@[k / 8], k % 8));
        }
    }
    assert(bits@ =~= bits_of_bytes(bytes@));
    bits
}

/// Transforms a bit string whose length is a multiple of 8 into the byte
/// string that reads its bits most significant first.
pub fn bits_to_bytes(bits: &Vec<bool>) -> (r: Vec<u8>)
    requires
        bits@.len() % 8 == 0,
    ensures
        r@ == bytes_from_bits(bits@),
{
    let mut bytes: Vec<u8> = Vec::new();
    let n = bits.len() / 8;
    assert(8 * n <= usize::MAX);
    for i in 0..n
        invariant
            bits@.len() == 8 * n,
            8 * n <= usize::MAX,
            bytes@.len() == i,
            forall|k: int|
                0 <= k < i ==> bytes@[k] == byte_from_bits(bits@.subrange(8 * k, 8 * k + 8)),
    {
        let b = 8 * i;
        let byte: u8 = (if bits[b] { 128u8 } else { 0u8 }) | (if bits[b + 1] { 64u8 } else { 0u8 })
            | (if bits[b + 2] { 32u8 } else { 0u8 }) | (if bits[b + 3] { 16u8 } else { 0u8 })
            | (if bits[b + 4] { 8u8 } else { 0u8 }) | (if bits[b + 5] { 4u8 } else { 0u8 })
            | (if bits[b + 6] { 2u8 } else { 0u8 }) | (if bits[b + 7] { 1u8 } else { 0u8 });
        assert(bits@.subrange(8 * i, 8 * i + 8)[0] == bits@[8 * i]);
        assert(byte == byte_from_bits(bits@.subrange(8 * i, 8 * i + 8)));
        bytes.push(byte);
    }
    assert(bytes@ =~= bytes_from_bits(bits@));
    bytes
}

/// The byte whose bits, least significant first, are `s`.
pub open spec fn byte_from_bits_le(s: Seq<bool>) -> u8
    recommends s.len() == 8,
{
    (if s[0] { 1u8 } else { 0u8 }) | (if s[1] { 2u8 } else { 0u8 })
        | (if s[2] { 4u8 } else { 0u8 }) | (if s[3] { 8u8 } else { 0u8 })
        | (if s[4] { 16u8 } else { 0u8 }) | (if s[5] { 32u8 } else { 0u8 })
        | (if s[6] { 64u8 } else { 0u8 }) | (if s[7] { 128u8 } else { 0u8 })
}

/// The bytes whose bits, least significant first within each byte, are `s`.
pub open spec fn bytes_from_bits_le(s: Seq<bool>) -> Seq<u8>
    recommends s.len() % 8 == 0,
{
    Seq::new(s.len() / 8, |i: int| byte_from_bits_le(s.subrange(8 * i, 8 * i + 8)))
}

/// Transforms a bit string whose length is a multiple of 8 into the byte
/// string that reads each 8-bit chunk least significant bit first.
pub fn bits_to_bytes_le(bits: &Vec<bool>) -> (r: Vec<u8>)
    requires
        bits@.len() % 8 == 0,
    ensures
        r@ == bytes_from_bits_le(bits@),
{
    let mut bytes: Vec<u8> = Vec::new();
    let n = bits.len() / 8;
    assert(8 * n <= usize::MAX);
    for i in 0..n
        invariant
            bits@.len() == 8 * n,
            8 * n <= usize::MAX,
            bytes@.len() == i,
            forall|k: int|
                0 <= k < i ==> bytes@[k] == byte_from_bits_le(bits@.subrange(8 * k, 8 * k + 8)),
    {
        let b = 8 * i;
        let byte: u8 = (if bits[b] { 1u8 } else { 0u8 }) | (if bits[b + 1] { 2u8 } else { 0u8 })
            | (if bits[b + 2] { 4u8 } else { 0u8 }) | (if bits[b + 3] { 8u8 } else { 0u8 })
            | (if bits[b + 4] { 16u8 } else { 0u8 }) | (if bits[b + 5] { 32u8 } else { 0u8 })
            | (if bits[b + 6] { 64u8 } else { 0u8 }) | (if bits[b + 7] { 128u8 } else { 0u8 });
        assert(bits@.subrange(8 * i, 8 * i + 8)[0] == bits@[8 * i]);
        assert(byte == byte_from_bits_le(bits@.subrange(8 * i, 8 * i + 8)));
        bytes.push(byte);
    }
    proof {
        assert(bytes@ =~= bytes_from_bits_le(bits@));
    }
    bytes
}

/// Compares two byte strings for equality.
pub fn bytes_eq(a: &Vec<u8>, b: &Vec<u8>) -> (r: bool)
    ensures
        r == (a@ == b@),
{
    if a.len() != b.len() {
        return false;
    }
    let n = a.len();
    for i in 0..n
        invariant
            n == a@.len(),
            n == b@.len(),
            forall|k: int| 0 <= k < i ==> a@[k] == b@[k],
    {
        if a[i] != b[i] {
            return false;
        }
    }
    proof {
        assert(a@ =~= b@);
    }
    true
}

/// Copies a vector of copyable values.
pub fn copy_vec<T: Copy>(v: &Vec<T>) -> (r: Vec<T>)
    ensures
        r@ == v@,
{
    let mut r: Vec<T> = Vec::new();
    let n = v.len();
    for i in 0..n
        invariant
            n == v@.len(),
            r@ == v@.take(i as int),
    {
        r.push(v[i]);
        proof {
            assert(r@ =~= v@.take(i + 1));
        }
    }
    proof {
        assert(v@.take(n as int) =~= v@);
    }
    r
}

/// Reverses the bit order inside each 8-bit chunk of the string, turning the
/// most-significant-first reading into the least-significant-first one that
/// the hash primitive's byte packing expects.
pub fn reverse_inner_byte_order(bits: &Vec<bool>) -> (r: Vec<bool>)
    requires
        bits@.len() % 8 == 0,
    ensures
        r@ == reversed_inner_byte_order(bits@),
{
    let mut out: Vec<bool> = Vec::new();
    let n = bits.len() / 8;
    assert(8 * n <= usize::MAX);
    for i in 0..n
        invariant
            bits@.len() == 8 * n,
            8 * n <= usize::MAX,
            out@.len() == 8 * i,
            forall|k: int| 0 <= k < 8 * i ==> out@[k] == bits@[8 * (k / 8) + 7 - (k % 8)],
    {
        for j in 0..8usize
            invariant
                bits@.len() == 8 * n,
                8 * n <= usize::MAX,
                i < n,
                out@.len() == 8 * i + j,
                forall|k: int| 0 <= k < 8 * i + j ==> out@[k] == bits@[8 * (k / 8) + 7 - (k % 8)],
        {
            out.push(bits[8 * i + 7 - j]);
            assert(forall|k: int|
                0 <= k < 8 * i + j + 1 ==> out@[k] == bits@[8 * (k / 8) + 7 - (k % 8)]);
        }
    }
    assert(out@ =~= reversed_inner_byte_order(bits@));
    out
}

} // verus!
