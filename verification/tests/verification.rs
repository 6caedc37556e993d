//! The verification layer alone: error taxonomy and the extracted identity.

use sov_app_template::auth::{verify, RlpEvmTransaction, VerificationError, VerifiedTx};

fn make_tx(sender: u64, msg: &[u8]) -> RlpEvmTransaction {
    let mut rlp: Vec<u8> = Vec::new();
    rlp.push(1u8);
    rlp.extend_from_slice(&sender.to_le_bytes());
    rlp.extend_from_slice(msg);
    let mut sum: u8 = 0;
    for b in &rlp {
        sum = sum.wrapping_add(*b);
    }
    rlp.push(sum);
    RlpEvmTransaction { rlp }
}

#[test]
fn well_formed_transaction_verifies() {
    let tx = make_tx(0xDEAD_BEEF_0123_4567, &[5, 6, 7]);
    let vtx = verify(&tx).unwrap();
    assert_eq!(*vtx.sender(), 0xDEAD_BEEF_0123_4567);
    assert_eq!(vtx.runtime_message(), &[5, 6, 7]);
}

#[test]
fn empty_message_verifies() {
    let tx = make_tx(3, &[]);
    let vtx = verify(&tx).unwrap();
    assert_eq!(*vtx.sender(), 3);
    assert_eq!(vtx.runtime_message(), &[] as &[u8]);
}

#[test]
fn short_bytes_are_malformed() {
    let tx = RlpEvmTransaction { rlp: vec![1, 2, 3, 4, 5, 6, 7, 8, 9] };
    let e = verify(&tx).map(|_| ()).unwrap_err();
    assert_eq!(e, VerificationError::MalformedEncoding);
}

#[test]
fn empty_bytes_are_malformed() {
    let tx = RlpEvmTransaction { rlp: vec![] };
    let e = verify(&tx).map(|_| ()).unwrap_err();
    assert_eq!(e, VerificationError::MalformedEncoding);
}

#[test]
fn wrong_version_is_rejected() {
    let mut tx = make_tx(3, &[1, 2]);
    tx.rlp[0] = 2;
    let e = verify(&tx).map(|_| ()).unwrap_err();
    assert_eq!(e, VerificationError::UnsupportedVersion);
}

#[test]
fn wrong_authenticator_is_bad_signature() {
    let mut tx = make_tx(3, &[1, 2]);
    let last = tx.rlp.len() - 1;
    tx.rlp[last] = tx.rlp[last].wrapping_add(1);
    let e = verify(&tx).map(|_| ()).unwrap_err();
    assert_eq!(e, VerificationError::BadSignature);
}

#[test]
fn corrupted_payload_is_bad_signature() {
    let mut tx = make_tx(3, &[1, 2]);
    tx.rlp[10] = tx.rlp[10].wrapping_add(1);
    let e = verify(&tx).map(|_| ()).unwrap_err();
    assert_eq!(e, VerificationError::BadSignature);
}

#[test]
fn verification_is_pure_and_repeatable() {
    let tx = make_tx(11, &[9, 9, 9]);
    let first = verify(&tx).unwrap();
    let second = verify(&tx).unwrap();
    assert_eq!(*first.sender(), *second.sender());
    assert_eq!(first.runtime_message(), second.runtime_message());
}
