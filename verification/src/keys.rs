//! Account signing keys.
//!
//! A private key is the 32-byte seed of the account signature scheme; this
//! module holds and validates the bytes, while key generation and signing
//! belong to the cryptographic layer outside the library.

use vstd::prelude::*;

use crate::encoding::{hex_encode, hex_of};
use crate::errors::KeysError;

verus! {

/// A private key: 32 seed bytes.
#[derive(Clone, Debug)]
pub struct PrivateKey {
    bytes: [u8; 32],
}

impl View for PrivateKey {
    type V = Seq<u8>;

    closed spec fn view(&self) -> Seq<u8> {
        self.bytes@
    }
}

impl PrivateKey {
    /// The size in bytes of a private key.
    pub fn size() -> (r: usize)
        ensures
            r == 32,
    {
        32
    }

    /// The seed bytes of the key.
    pub fn as_bytes(&self) -> (r: &[u8; 32])
        ensures
            r@ == self@,
    {
        &self.bytes
    }

    /// Builds a key from raw bytes; exactly a 32-byte string is accepted.
    pub fn from_bytes(bytes: &[u8]) -> (r: Result<Self, KeysError>)
        ensures
            r is Ok <==> bytes@.len() == 32,
            r is Ok ==> r.unwrap()@ == bytes@,
            r is Err ==> r.unwrap_err() == KeysError::InvalidLength,
    {
        if bytes.len() != 32 {
            return Err(KeysError::InvalidLength);
        }
        let mut seed = [0u8; 32];
        for i in 0..32usize
            invariant
                bytes@.len() == 32,
                forall|k: int| 0 <= k < i ==> seed@[k] == bytes@[k],
        {
            seed[i] = bytes[i];
        }
        proof {
            assert(seed@ =~= bytes@);
        }
        Ok(PrivateKey { bytes: seed })
    }

    /// Formats the key as a hexadecimal string.
    pub fn to_hex(&self) -> (r: String)
        ensures
            r@ == hex_of(self@),
    {
        hex_encode(&self.bytes)
    }
}

impl Default for PrivateKey {
    /// The all-zero key.
    fn default() -> (r: Self)
        ensures
            r@ == Seq::new(32, |i: int| 0u8),
    {
        let r = PrivateKey { bytes: [0u8; 32] };
        proof {
            assert(r@ =~= Seq::new(32, |i: int| 0u8));
        }
        r
    }
}

} // verus!
