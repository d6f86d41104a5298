use libproto::Scheme;
use libproto::SignedTransaction;
use libproto::Transaction;
use libproto::UnverifiedTransaction;
use libproto::VerifyError;

fn sample_tx() -> Transaction {
    Transaction::new(
        vec![1],
        "0".to_string(),
        "123".to_string(),
        99999,
        999999999,
        vec![],
        0,
    )
}

#[test]
fn create_tx() {
    let sk = vec![1u8; 32];
    let tx = sample_tx();
    let signed_tx = tx.sign(&sk).unwrap();
    assert_eq!(
        signed_tx.crypt_hash().bytes,
        signed_tx.get_transaction_with_sig().crypt_hash().bytes
    );
}

#[test]
fn sign_then_verify_recovers_signer() {
    let sk = vec![2u8; 32];
    let tx = sample_tx();
    let signed = tx.sign(&sk).unwrap();
    let pk = libproto::crypto::public_from_secret(&sk).unwrap();
    assert_eq!(signed.get_signer(), &pk);
    assert_eq!(
        signed.crypt_hash().bytes,
        signed.get_transaction_with_sig().crypt_hash().bytes
    );

    let wrapped = UnverifiedTransaction {
        transaction: tx.duplicate(),
        signature: signed.get_transaction_with_sig().get_signature().clone(),
        crypto: Scheme::Secp,
    };
    let reverified = SignedTransaction::verify_transaction(wrapped).unwrap();
    assert_eq!(reverified.get_signer(), &pk);
    assert_eq!(reverified.crypt_hash().bytes, signed.crypt_hash().bytes);
}

#[test]
fn build_unverified_signs_inner_hash() {
    let sk = vec![3u8; 32];
    let tx = sample_tx();
    let unverified = tx.build_unverified(&sk).unwrap();
    assert_eq!(unverified.get_signature().len(), 65);
    let (public, outer_hash) = unverified.recover_public().unwrap();
    assert_eq!(public, libproto::crypto::public_from_secret(&sk).unwrap());
    assert_eq!(outer_hash.bytes, unverified.crypt_hash().bytes);
}

#[test]
fn recover_rejects_wrong_signature_length() {
    let u = UnverifiedTransaction {
        transaction: sample_tx(),
        signature: vec![0u8; 10],
        crypto: Scheme::Secp,
    };
    match u.recover_public() {
        Err((hash, e)) => {
            assert_eq!(e, VerifyError::InvalidSignatureLength);
            assert_eq!(hash.bytes, u.crypt_hash().bytes);
        }
        Ok(_) => panic!("a short signature must be rejected"),
    }
}

#[test]
fn recover_rejects_unsupported_scheme() {
    let sk = vec![4u8; 32];
    let tx = sample_tx();
    let unverified = tx.build_unverified(&sk).unwrap();
    let u = UnverifiedTransaction {
        transaction: tx,
        signature: unverified.get_signature().clone(),
        crypto: Scheme::Sm2,
    };
    match u.recover_public() {
        Err((_, e)) => assert_eq!(e, VerifyError::UnsupportedScheme),
        Ok(_) => panic!("an unsupported scheme tag must be rejected"),
    }
}

#[test]
fn recover_rejects_tampered_signature() {
    let sk = vec![5u8; 32];
    let tx = sample_tx();
    let unverified = tx.build_unverified(&sk).unwrap();

    // Overwrite the recovery-id byte with a value no signature carries.
    let mut sig = unverified.get_signature().clone();
    sig[64] = 0xff;
    let u = UnverifiedTransaction {
        transaction: tx.duplicate(),
        signature: sig,
        crypto: Scheme::Secp,
    };
    match u.recover_public() {
        Err((_, e)) => assert_eq!(e, VerifyError::RecoverError),
        Ok(_) => panic!("a tampered signature must not verify"),
    }

    // Overwrite the scalar bytes with values outside the curve order.
    let mut sig2 = unverified.get_signature().clone();
    for b in sig2.iter_mut().take(64) {
        *b = 0xff;
    }
    let u2 = UnverifiedTransaction {
        transaction: tx,
        signature: sig2,
        crypto: Scheme::Secp,
    };
    match u2.recover_public() {
        Err((_, e)) => assert_eq!(e, VerifyError::RecoverError),
        Ok(_) => panic!("an overflowing signature must not verify"),
    }
}

#[test]
fn verify_collapses_failure_to_identity_hash() {
    let u = UnverifiedTransaction {
        transaction: sample_tx(),
        signature: vec![0u8; 10],
        crypto: Scheme::Secp,
    };
    let expected = u.crypt_hash();
    match SignedTransaction::verify_transaction(u) {
        Err(hash) => assert_eq!(hash.bytes, expected.bytes),
        Ok(_) => panic!("an unverifiable artifact must be rejected"),
    }
}

#[test]
fn sign_rejects_invalid_key() {
    let tx = sample_tx();
    assert!(tx.sign(&vec![0u8; 32]).is_none());
    assert!(tx.build_unverified(&vec![0u8; 5]).is_none());
    assert!(libproto::crypto::public_from_secret(&vec![0u8; 32]).is_none());
}

#[test]
fn outer_hash_differs_from_inner_hash() {
    let sk = vec![6u8; 32];
    let tx = sample_tx();
    let unverified = tx.build_unverified(&sk).unwrap();
    assert_ne!(unverified.crypt_hash().bytes, tx.crypt_hash().bytes);
}

#[test]
fn signing_is_deterministic() {
    let sk = vec![7u8; 32];
    let tx = sample_tx();
    let u1 = tx.build_unverified(&sk).unwrap();
    let u2 = tx.build_unverified(&sk).unwrap();
    assert_eq!(u1.get_signature(), u2.get_signature());
    assert_eq!(u1.crypt_hash().bytes, u2.crypt_hash().bytes);
}
