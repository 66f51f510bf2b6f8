//! Compressed and validated forms of the curve points of the signature
//! scheme.
//!
//! A `CompressedSignature` or a compressed public key is a plain byte string
//! that may or may not encode a point; `Signature` and `PublicKey` carry the
//! invariant that their bytes do encode one, so that every group operation
//! on them is total.

use vstd::prelude::*;

use crate::constants::G1_SERIALIZED_SIZE;
use crate::curve::{g1_is_valid, g1_valid, g2_is_valid, g2_valid};
use crate::encoding::{hex_encode, hex_of};
use crate::errors::SerializationError;

verus! {

/// The serialized compressed form of a signature: the x-coordinate of the
/// point with one bit for the sign of the y-coordinate and one bit for the
/// point at infinity, packed into the spare high bits of the final byte.
#[derive(Clone, Copy, Debug)]
pub struct CompressedSignature {
    pub signature: [u8; 95],
}

impl CompressedSignature {
    /// Transforms the compressed form into a validated signature.
    pub fn uncompress(&self) -> (r: Result<Signature, SerializationError>)
        ensures
            r is Ok <==> g1_valid(self.signature@),
            r is Ok ==> r.unwrap()@ == self.signature@,
            r is Err ==> r.unwrap_err() == SerializationError::InvalidData,
    {
        if g1_is_valid(&self.signature) {
            Ok(Signature { compressed: self.signature })
        } else {
            Err(SerializationError::InvalidData)
        }
    }

    /// Formats the compressed form as a hexadecimal string.
    pub fn to_hex(&self) -> (r: String)
        ensures
            r@ == hex_of(self.signature@),
    {
        hex_encode(&self.signature)
    }

    /// The serialized size in bytes of the compressed form.
    pub fn size() -> (r: usize)
        ensures
            r == G1_SERIALIZED_SIZE,
    {
        G1_SERIALIZED_SIZE
    }
}

impl Default for CompressedSignature {
    /// The all-zero byte string; it encodes no point.
    fn default() -> (r: Self)
        ensures
            r.signature@ == Seq::new(95, |i: int| 0u8),
    {
        let r = CompressedSignature { signature: [0u8; 95] };
        proof {
            assert(r.signature@ =~= Seq::new(95, |i: int| 0u8));
        }
        r
    }
}

/// A signature: a point of the signature group G1, stored compressed and
/// known to be a valid encoding.
#[derive(Clone, Copy, Debug)]
pub struct Signature {
    compressed: [u8; 95],
}

impl View for Signature {
    type V = Seq<u8>;

    closed spec fn view(&self) -> Seq<u8> {
        self.compressed@
    }
}

impl Signature {
    #[verifier::type_invariant]
    spec fn type_inv(self) -> bool {
        g1_valid(self.compressed@)
    }

    /// Surfaces the type invariant: a signature's bytes encode a point of G1.
    pub fn note_valid(&self)
        ensures
            g1_valid(self@),
            self@.len() == 95,
    {
        proof {
            use_type_invariant(self);
        }
    }

    /// The compressed form of the signature.
    pub fn compress(&self) -> (r: CompressedSignature)
        ensures
            r.signature@ == self@,
    {
        CompressedSignature { signature: self.compressed }
    }

    pub(crate) fn from_bytes(bytes: [u8; 95]) -> (r: Self)
        requires
            g1_valid(bytes@),
        ensures
            r@ == bytes@,
    {
        Signature { compressed: bytes }
    }

    pub(crate) fn as_bytes(&self) -> (r: &[u8; 95])
        ensures
            r@ == self@,
    {
        &self.compressed
    }
}

/// A validator public key: a point of the public-key group G2, stored
/// compressed and known to be a valid encoding.
#[derive(Clone, Copy, Debug)]
pub struct PublicKey {
    compressed: [u8; 285],
}

impl View for PublicKey {
    type V = Seq<u8>;

    closed spec fn view(&self) -> Seq<u8> {
        self.compressed@
    }
}

impl PublicKey {
    #[verifier::type_invariant]
    spec fn type_inv(self) -> bool {
        g2_valid(self.compressed@)
    }

    /// Surfaces the type invariant: a public key's bytes encode a point of G2.
    pub fn note_valid(&self)
        ensures
            g2_valid(self@),
            self@.len() == 285,
    {
        proof {
            use_type_invariant(self);
        }
    }

    /// Validates a compressed encoding and builds the key it encodes.
    pub fn from_compressed(bytes: [u8; 285]) -> (r: Option<PublicKey>)
        ensures
            r is Some <==> g2_valid(bytes@),
            r is Some ==> r.unwrap()@ == bytes@,
    {
        if g2_is_valid(&bytes) {
            Some(PublicKey { compressed: bytes })
        } else {
            None
        }
    }

    /// The compressed encoding of the key.
    pub fn to_compressed(&self) -> (r: [u8; 285])
        ensures
            r@ == self@,
    {
        self.compressed
    }

    pub(crate) fn from_bytes(bytes: [u8; 285]) -> (r: Self)
        requires
            g2_valid(bytes@),
        ensures
            r@ == bytes@,
    {
        PublicKey { compressed: bytes }
    }

    pub(crate) fn as_bytes(&self) -> (r: &[u8; 285])
        ensures
            r@ == self@,
    {
        &self.compressed
    }
}

} // verus!
