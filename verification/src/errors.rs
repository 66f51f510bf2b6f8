//! Error types of the library.
//!
//! Construction-time failures (malformed witness data) are kept apart from
//! unsatisfiability (well-formed witness data that does not satisfy the
//! predicate), as the two call for different handling by the caller.

use vstd::prelude::*;

verus! {

/// Failure of circuit construction or evaluation.
#[derive(Clone, Copy, Debug, PartialEq, Eq, Structural)]
pub enum SynthesisError {
    /// A witness value that the circuit needs was not supplied.
    AssignmentMissing,
    /// A supplied key set or bitmap does not have the required length.
    MalformedWitness,
    /// The witness is well formed but does not satisfy the predicate.
    Unsatisfiable,
    /// No counter maps the message digest onto a curve point.
    DigestPointNotFound,
}

/// Failure to decode a compressed curve point.
#[derive(Clone, Copy, Debug, PartialEq, Eq, Structural)]
pub enum SerializationError {
    /// The bytes are not the canonical compressed encoding of a point.
    InvalidData,
}

/// Failure to build a key from raw bytes.
#[derive(Clone, Copy, Debug, PartialEq, Eq, Structural)]
pub enum KeysError {
    /// The byte string does not have the length of a key.
    InvalidLength,
}

/// Failure of an account operation.
#[derive(Clone, Copy, Debug, PartialEq, Eq, Structural)]
pub enum AccountError {
    /// The contract does not accept the creation data.
    FailedToCreateContract,
    /// The contract accepts no incoming transaction after creation.
    IllegalIncomingTransaction,
    /// The balance would fall below the vesting cap or below zero.
    InsufficientFunds,
    /// The transaction carries no well-formed signature proof.
    InvalidProof,
    /// The signature proof was not made by the contract owner.
    InvalidSigner,
    /// The balance would overflow.
    InvalidCoinValue,
}

} // verus!
