//! The vesting contract: an account whose balance unlocks in steps.
//!
//! The account types of the chain's transaction layer are modeled by their
//! plain data: an address is its 20 bytes, a transaction carries its data,
//! amounts, recipient, derived contract-creation address and parsed
//! signature proof. The signature itself is checked by the cryptographic
//! layer outside the library, which hands its verdict in; the vesting cap
//! is computed by the caller, whose arithmetic the chain fixes.

use vstd::prelude::*;

use crate::errors::AccountError;
use crate::utils::{be_u32_at, be_u64_at, read_u32_be, read_u64_be};

verus! {

/// A 20-byte account address.
#[derive(Clone, Copy, Debug)]
pub struct Address {
    pub bytes: [u8; 20],
}

impl Address {
    /// The size in bytes of an address.
    pub fn size() -> (r: usize)
        ensures
            r == 20,
    {
        20
    }

    /// Whether two addresses hold the same bytes.
    pub fn matches(&self, other: &Address) -> (r: bool)
        ensures
            r == (self.bytes@ == other.bytes@),
    {
        let mut i: usize = 0;
        while i < 20
            invariant
                i <= 20,
                forall|k: int| 0 <= k < i ==> self.bytes@[k] == other.bytes@[k],
            decreases 20 - i,
        {
            if self.bytes[i] != other.bytes[i] {
                return false;
            }
            i = i + 1;
        }
        proof {
            assert(self.bytes@ =~= other.bytes@);
        }
        true
    }
}

/// A parsed signature proof: the address of its signer. Whether the
/// signature itself verifies is decided outside and handed in as a verdict.
#[derive(Clone, Copy, Debug)]
pub struct SignatureProof {
    pub signer: Address,
}

/// A transaction, reduced to the data the vesting contract reads.
pub struct Transaction {
    pub data: Vec<u8>,
    pub value: u64,
    pub fee: u64,
    pub recipient: Address,
    pub contract_creation_address: Address,
    pub signature_proof: Option<SignatureProof>,
}

/// The address at offset 0 of the data.
pub open spec fn address_at(d: Seq<u8>) -> Seq<u8> {
    d.subrange(0, 20)
}

fn read_address(d: &Vec<u8>) -> (r: Address)
    requires
        d@.len() >= 20,
    ensures
        r.bytes@ == address_at(d@),
{
    let mut bytes = [0u8; 20];
    for i in 0..20usize
        invariant
            d@.len() >= 20,
            forall|k: int| 0 <= k < i ==> bytes@[k] == d@[k],
    {
        bytes[i] = d[i];
    }
    proof {
        assert(bytes@ =~= address_at(d@));
    }
    Address { bytes }
}

/// A vesting contract: funds that unlock for the owner in fixed steps.
#[derive(Clone, Copy, Debug)]
pub struct VestingContract {
    pub balance: u64,
    pub owner: Address,
    pub vesting_start: u32,
    pub vesting_step_blocks: u32,
    pub vesting_step_amount: u64,
    pub vesting_total_amount: u64,
}

impl VestingContract {
    /// The parsed form of valid creation data, by its length.
    pub open spec fn parses_from(self, balance: u64, t: Transaction) -> bool {
        &&& self.balance == balance
        &&& self.owner.bytes@ == address_at(t.data@)
        &&& if t.data@.len() == 24 {
            &&& self.vesting_start == 0
            &&& self.vesting_step_blocks == be_u32_at(t.data@, 20)
            &&& self.vesting_step_amount == t.value
            &&& self.vesting_total_amount == t.value
        } else if t.data@.len() == 36 {
            &&& self.vesting_start == be_u32_at(t.data@, 20)
            &&& self.vesting_step_blocks == be_u32_at(t.data@, 24)
            &&& self.vesting_step_amount == be_u64_at(t.data@, 28)
            &&& self.vesting_total_amount == t.value
        } else {
            &&& t.data@.len() == 44
            &&& self.vesting_start == be_u32_at(t.data@, 20)
            &&& self.vesting_step_blocks == be_u32_at(t.data@, 24)
            &&& self.vesting_step_amount == be_u64_at(t.data@, 28)
            &&& self.vesting_total_amount == be_u64_at(t.data@, 36)
        }
    }

    /// Creates a contract from a creation transaction's data; data of any
    /// other length than the three valid layouts is rejected.
    pub fn create(balance: u64, transaction: &Transaction, block_height: u32) -> (r: Result<
        Self,
        AccountError,
    >)
        ensures
            r is Ok <==> (transaction.data@.len() == 24 || transaction.data@.len() == 36
                || transaction.data@.len() == 44),
            r is Ok ==> r.unwrap().parses_from(balance, *transaction),
            r is Err ==> r.unwrap_err() == AccountError::FailedToCreateContract,
    {
        let len = transaction.data.len();
        if len == 24 {
            let owner = read_address(&transaction.data);
            let step_blocks = read_u32_be(transaction.data.as_slice(), 20);
            Ok(
                Self::make(
                    balance,
                    owner,
                    0,
                    step_blocks,
                    transaction.value,
                    transaction.value,
                ),
            )
        } else if len == 36 {
            let owner = read_address(&transaction.data);
            let start = read_u32_be(transaction.data.as_slice(), 20);
            let step_blocks = read_u32_be(transaction.data.as_slice(), 24);
            let step_amount = read_u64_be(transaction.data.as_slice(), 28);
            Ok(Self::make(balance, owner, start, step_blocks, step_amount, transaction.value))
        } else if len == 44 {
            let owner = read_address(&transaction.data);
            let start = read_u32_be(transaction.data.as_slice(), 20);
            let step_blocks = read_u32_be(transaction.data.as_slice(), 24);
            let step_amount = read_u64_be(transaction.data.as_slice(), 28);
            let total = read_u64_be(transaction.data.as_slice(), 36);
            Ok(Self::make(balance, owner, start, step_blocks, step_amount, total))
        } else {
            Err(AccountError::FailedToCreateContract)
        }
    }

    fn make(
        balance: u64,
        owner: Address,
        vesting_start: u32,
        vesting_step_blocks: u32,
        vesting_step_amount: u64,
        vesting_total_amount: u64,
    ) -> (r: Self)
        ensures
            r == (VestingContract {
                balance,
                owner,
                vesting_start,
                vesting_step_blocks,
                vesting_step_amount,
                vesting_total_amount,
            }),
    {
        VestingContract {
            balance,
            owner,
            vesting_start,
            vesting_step_blocks,
            vesting_step_amount,
            vesting_total_amount,
        }
    }

    /// An incoming transaction is valid only as the contract's creation: it
    /// must address the contract-creation address and carry data of one of
    /// the three valid lengths.
    pub fn verify_incoming_transaction(transaction: &Transaction) -> (r: bool)
        ensures
            r == (transaction.recipient.bytes@ == transaction.contract_creation_address.bytes@ && (
            transaction.data@.len() == 24 || transaction.data@.len() == 36 || transaction.data@.len()
                == 44)),
    {
        if !transaction.recipient.matches(&transaction.contract_creation_address) {
            return false;
        }
        let len = transaction.data.len();
        len == 24 || len == 36 || len == 44
    }

    /// An outgoing transaction is valid where its proof parsed and the
    /// signature scheme, whose verdict over the transaction's content is
    /// handed in, accepts it.
    pub fn verify_outgoing_transaction(transaction: &Transaction, signature_valid: bool) -> (r:
        bool)
        ensures
            r == (transaction.signature_proof is Some && signature_valid),
    {
        match &transaction.signature_proof {
            Some(_) => signature_valid,
            None => false,
        }
    }

    fn with_balance(&self, balance: u64) -> (r: Self)
        ensures
            r == (VestingContract { balance, ..*self }),
    {
        VestingContract {
            balance,
            owner: self.owner,
            vesting_start: self.vesting_start,
            vesting_step_blocks: self.vesting_step_blocks,
            vesting_step_amount: self.vesting_step_amount,
            vesting_total_amount: self.vesting_total_amount,
        }
    }

    /// The contract accepts no incoming transaction after creation.
    pub fn with_incoming_transaction(&self, transaction: &Transaction, block_height: u32) -> (r:
        Result<Self, AccountError>)
        ensures
            r is Err,
            r.unwrap_err() == AccountError::IllegalIncomingTransaction,
    {
        Err(AccountError::IllegalIncomingTransaction)
    }

    /// Reverting an incoming transaction is as illegal as applying one.
    pub fn without_incoming_transaction(&self, transaction: &Transaction, block_height: u32) -> (r:
        Result<Self, AccountError>)
        ensures
            r is Err,
            r.unwrap_err() == AccountError::IllegalIncomingTransaction,
    {
        Err(AccountError::IllegalIncomingTransaction)
    }

    /// Applies an outgoing transaction: the amount and fee leave the
    /// balance, which may not fall below the vesting cap the caller
    /// computed, and the proof must name the owner as signer.
    pub fn with_outgoing_transaction(
        &self,
        transaction: &Transaction,
        block_height: u32,
        min_cap: u64,
    ) -> (r: Result<Self, AccountError>)
        ensures
            r is Ok <==> (transaction.value + transaction.fee <= u64::MAX
                && transaction.value + transaction.fee <= self.balance
                && self.balance - transaction.value - transaction.fee >= min_cap
                && transaction.signature_proof is Some
                && transaction.signature_proof.unwrap().signer.bytes@ == self.owner.bytes@),
            r is Ok ==> r.unwrap() == (VestingContract {
                balance: (self.balance - transaction.value - transaction.fee) as u64,
                ..*self
            }),
            r is Err ==> r.unwrap_err() == (if transaction.value + transaction.fee > u64::MAX {
                AccountError::InvalidCoinValue
            } else if transaction.value + transaction.fee > self.balance
                || self.balance - transaction.value - transaction.fee < min_cap {
                AccountError::InsufficientFunds
            } else if !(transaction.signature_proof is Some) {
                AccountError::InvalidProof
            } else {
                AccountError::InvalidSigner
            }),
    {
        let total = match transaction.value.checked_add(transaction.fee) {
            Some(t) => t,
            None => {
                return Err(AccountError::InvalidCoinValue);
            },
        };
        if total > self.balance {
            return Err(AccountError::InsufficientFunds);
        }
        let balance = self.balance - total;
        if balance < min_cap {
            return Err(AccountError::InsufficientFunds);
        }
        let signature_proof = match &transaction.signature_proof {
            Some(p) => p,
            None => {
                return Err(AccountError::InvalidProof);
            },
        };
        if !signature_proof.signer.matches(&self.owner) {
            return Err(AccountError::InvalidSigner);
        }
        Ok(self.with_balance(balance))
    }

    /// Reverts an outgoing transaction: the amount and fee return to the
    /// balance.
    pub fn without_outgoing_transaction(&self, transaction: &Transaction, block_height: u32) -> (r:
        Result<Self, AccountError>)
        ensures
            r is Ok <==> (transaction.value + transaction.fee <= u64::MAX && self.balance
                + transaction.value + transaction.fee <= u64::MAX),
            r is Ok ==> r.unwrap() == (VestingContract {
                balance: (self.balance + transaction.value + transaction.fee) as u64,
                ..*self
            }),
            r is Err ==> r.unwrap_err() == AccountError::InvalidCoinValue,
    {
        let total = match transaction.value.checked_add(transaction.fee) {
            Some(t) => t,
            None => {
                return Err(AccountError::InvalidCoinValue);
            },
        };
        let balance = match self.balance.checked_add(total) {
            Some(b) => b,
            None => {
                return Err(AccountError::InvalidCoinValue);
            },
        };
        Ok(self.with_balance(balance))
    }
}

} // verus!
