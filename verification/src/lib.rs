//! A verified reference implementation of the predicate that certifies one
//! epoch transition of a BFT proof-of-stake chain: a macro block carrying a
//! two-round aggregate signature over the previous validator set moves the
//! state `(block number, validator keys)` to the next epoch's state.
//!
//! The elliptic-curve group operations, the pairing product and the Blake2s
//! compression are supplied by outside crates behind trusted wrappers; all
//! serialization, aggregation bookkeeping, bound checks and the predicate
//! itself are verified.

pub mod bls;
pub mod circuit;
pub mod constants;
pub mod curve;
pub mod encoding;
pub mod errors;
pub mod hash_to_curve;
pub mod hashes;
pub mod keys;
pub mod macro_block;
pub mod network;
pub mod pk_tree;
pub mod primitives;
pub mod recursive;
pub mod serialize;
pub mod state_hash;
pub mod utils;
pub mod validator;
pub mod vesting;
