//! The plain data of a macro block, as the witness hands it to the circuit.

use vstd::prelude::*;

use crate::bls::{PublicKey, Signature};

verus! {

/// A macro block: the hash of its header, the keys of the validator set it
/// installs for the next epoch, and the two-round aggregate signatures with
/// their signer bitmaps. Both bitmaps are over the previous validator set,
/// not over `public_keys`.
///
/// The signatures are optional because a witness may omit them; building the
/// gadget from such a block fails with a typed error.
#[derive(Clone)]
pub struct MacroBlock {
    pub header_hash: [u8; 32],
    pub public_keys: Vec<PublicKey>,
    pub prepare_signature: Option<Signature>,
    pub prepare_signer_bitmap: Vec<bool>,
    pub commit_signature: Option<Signature>,
    pub commit_signer_bitmap: Vec<bool>,
}

} // verus!
