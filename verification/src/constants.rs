//! Deployment-wide constants. They are baked into the shape of the circuit:
//! changing any of them changes the predicate and invalidates existing
//! verifying keys.

use vstd::prelude::*;

verus! {

/// Number of validator slots; every key set and signer bitmap has exactly
/// this length.
pub const VALIDATOR_SLOTS: usize = 16;

/// Strict upper bound on the number of non-signers of a round: a round is
/// valid only if its count of non-signers is strictly below this value.
pub const MAX_NON_SIGNERS: u64 = 5;

/// Number of blocks between two macro blocks; the final block number of a
/// transition is the initial one plus this length.
pub const EPOCH_LENGTH: u32 = 128;

/// Depth of the tree of key-aggregation circuits.
pub const PK_TREE_DEPTH: usize = 2;

/// Number of leaves of the tree of key-aggregation circuits, `2 ^ PK_TREE_DEPTH`.
pub const PK_TREE_BREADTH: usize = 4;

/// Size in bytes of a compressed point of the signature group.
pub const G1_SERIALIZED_SIZE: usize = 95;

/// Size in bytes of a compressed point of the public-key group.
pub const G2_SERIALIZED_SIZE: usize = 285;

/// Size in bytes of a state hash digest.
pub const STATE_HASH_SIZE: usize = 32;

} // verus!
