use nano_sync::errors::{AccountError, KeysError};
use nano_sync::keys::PrivateKey;
use nano_sync::vesting::{Address, SignatureProof, Transaction, VestingContract};

fn addr(b: u8) -> Address {
    Address { bytes: [b; 20] }
}

fn creation_data(owner: u8, tail: &[u8]) -> Vec<u8> {
    let mut data = vec![owner; 20];
    data.extend_from_slice(tail);
    data
}

fn transaction(data: Vec<u8>, value: u64, fee: u64) -> Transaction {
    Transaction {
        data,
        value,
        fee,
        recipient: addr(1),
        contract_creation_address: addr(1),
        signature_proof: Some(SignatureProof { signer: addr(2) }),
    }
}

#[test]
fn create_parses_the_three_layouts() {
    // Block number only: the whole value vests at that block.
    let t1 = transaction(creation_data(2, &100u32.to_be_bytes()), 5000, 1);
    let c1 = VestingContract::create(5000, &t1, 0).unwrap();
    assert_eq!(c1.balance, 5000);
    assert_eq!(c1.owner.bytes, [2u8; 20]);
    assert_eq!(c1.vesting_start, 0);
    assert_eq!(c1.vesting_step_blocks, 100);
    assert_eq!(c1.vesting_step_amount, 5000);
    assert_eq!(c1.vesting_total_amount, 5000);

    // Start, step blocks and step amount.
    let mut tail = Vec::new();
    tail.extend_from_slice(&7u32.to_be_bytes());
    tail.extend_from_slice(&50u32.to_be_bytes());
    tail.extend_from_slice(&250u64.to_be_bytes());
    let t2 = transaction(creation_data(3, &tail), 9000, 1);
    let c2 = VestingContract::create(9000, &t2, 0).unwrap();
    assert_eq!(c2.vesting_start, 7);
    assert_eq!(c2.vesting_step_blocks, 50);
    assert_eq!(c2.vesting_step_amount, 250);
    assert_eq!(c2.vesting_total_amount, 9000);

    // With an explicit total amount.
    tail.extend_from_slice(&123456u64.to_be_bytes());
    let t3 = transaction(creation_data(4, &tail), 9000, 1);
    let c3 = VestingContract::create(9000, &t3, 0).unwrap();
    assert_eq!(c3.vesting_total_amount, 123456);

    // Any other data length is rejected.
    let t4 = transaction(creation_data(5, &[0u8; 5]), 100, 1);
    assert_eq!(
        VestingContract::create(100, &t4, 0).unwrap_err(),
        AccountError::FailedToCreateContract
    );
}

#[test]
fn incoming_transactions_only_create() {
    let good = transaction(creation_data(2, &100u32.to_be_bytes()), 10, 1);
    assert!(VestingContract::verify_incoming_transaction(&good));

    let mut wrong_recipient = transaction(creation_data(2, &100u32.to_be_bytes()), 10, 1);
    wrong_recipient.recipient = addr(9);
    assert!(!VestingContract::verify_incoming_transaction(&wrong_recipient));

    let wrong_len = transaction(creation_data(2, &[0u8; 3]), 10, 1);
    assert!(!VestingContract::verify_incoming_transaction(&wrong_len));

    let contract = VestingContract::create(10, &good, 0).unwrap();
    assert_eq!(
        contract.with_incoming_transaction(&good, 5).unwrap_err(),
        AccountError::IllegalIncomingTransaction
    );
    assert_eq!(
        contract.without_incoming_transaction(&good, 5).unwrap_err(),
        AccountError::IllegalIncomingTransaction
    );
}

#[test]
fn outgoing_transaction_checks() {
    let creation = transaction(creation_data(2, &100u32.to_be_bytes()), 1000, 0);
    let contract = VestingContract::create(1000, &creation, 0).unwrap();

    let mut spend = transaction(Vec::new(), 300, 10);
    spend.signature_proof = Some(SignatureProof { signer: addr(2) });

    // Owner spends within the cap.
    let updated = contract.with_outgoing_transaction(&spend, 150, 0).unwrap();
    assert_eq!(updated.balance, 690);

    // The cap blocks the spend.
    assert_eq!(
        contract.with_outgoing_transaction(&spend, 150, 800).unwrap_err(),
        AccountError::InsufficientFunds
    );

    // More than the balance.
    let big = transaction(Vec::new(), 2000, 0);
    assert_eq!(
        contract.with_outgoing_transaction(&big, 150, 0).unwrap_err(),
        AccountError::InsufficientFunds
    );

    // A proof by someone else.
    let mut foreign = transaction(Vec::new(), 10, 0);
    foreign.signature_proof = Some(SignatureProof { signer: addr(9) });
    assert_eq!(
        contract.with_outgoing_transaction(&foreign, 150, 0).unwrap_err(),
        AccountError::InvalidSigner
    );

    // No proof at all.
    let mut unproven = transaction(Vec::new(), 10, 0);
    unproven.signature_proof = None;
    assert_eq!(
        contract.with_outgoing_transaction(&unproven, 150, 0).unwrap_err(),
        AccountError::InvalidProof
    );
    assert!(!VestingContract::verify_outgoing_transaction(&unproven, true));
    assert!(VestingContract::verify_outgoing_transaction(&spend, true));
    assert!(!VestingContract::verify_outgoing_transaction(&spend, false));

    // An overflowing amount is an invalid coin value.
    let huge = transaction(Vec::new(), u64::MAX, 1);
    assert_eq!(
        contract.with_outgoing_transaction(&huge, 150, 0).unwrap_err(),
        AccountError::InvalidCoinValue
    );

    // Reverting returns the funds.
    let reverted = updated.without_outgoing_transaction(&spend, 150).unwrap();
    assert_eq!(reverted.balance, 1000);
    assert_eq!(
        updated.without_outgoing_transaction(&huge, 150).unwrap_err(),
        AccountError::InvalidCoinValue
    );
}

#[test]
fn private_key_round_trip() {
    let bytes: Vec<u8> = (0u8..32).collect();
    let key = PrivateKey::from_bytes(&bytes).unwrap();
    assert_eq!(key.as_bytes().to_vec(), bytes);
    assert_eq!(
        key.to_hex(),
        "000102030405060708090a0b0c0d0e0f101112131415161718191a1b1c1d1e1f"
    );
    assert_eq!(
        PrivateKey::from_bytes(&[0u8; 31]).unwrap_err(),
        KeysError::InvalidLength
    );
    assert_eq!(PrivateKey::default().as_bytes(), &[0u8; 32]);
}
