use std::time::Duration;

use ethers_confidential::aws_signer::{
    apply_eip155, request_get_pubkey, request_sign_digest, rsig_to_ethsig, verifying_key_to_address, with_timeout,
    AwsSigner, AwsSignerError, TimedOutcome,
};

fn key() -> [u8; 65] {
    let mut k = [4u8; 65];
    for (i, b) in k.iter_mut().enumerate() {
        *b = i as u8;
    }
    k[0] = 4;
    k
}

fn signer() -> AwsSigner {
    AwsSigner::new("my-key", 1, Some(Duration::from_millis(100)), key())
}

fn expected_address(k: &[u8; 65]) -> [u8; 20] {
    let hash = ethers_core::utils::keccak256(&k[1..]);
    let mut a = [0u8; 20];
    a.copy_from_slice(&hash[12..]);
    a
}

#[test]
fn with_timeout_reports_each_outcome() {
    // Future is successful within the timeout
    let timeout = Duration::from_millis(100);
    let result = with_timeout(Some(timeout), TimedOutcome::Finished(Ok::<_, AwsSignerError>(42))).unwrap();
    assert_eq!(result, 42);

    // Future gives an error
    let result = with_timeout::<()>(
        Some(timeout),
        TimedOutcome::Finished(Err(AwsSignerError::SignError("error".to_string()))),
    );
    assert!(matches!(result, Err(AwsSignerError::SignError(_))));

    // Future times out
    let result = with_timeout::<u32>(Some(timeout), TimedOutcome::Elapsed);
    assert!(matches!(result, Err(AwsSignerError::Timeout(t)) if t == timeout));
}

#[test]
fn with_timeout_without_timeout_passes_result() {
    let result = with_timeout(None, TimedOutcome::Finished(Ok::<_, AwsSignerError>("done")));
    assert_eq!(result.unwrap(), "done");
}

#[test]
fn string_errors_become_other() {
    let e: AwsSignerError = String::from("boom").into();
    assert!(matches!(e, AwsSignerError::Other(s) if s == "boom"));
}

#[test]
fn sign_request_carries_digest_type_and_algorithm() {
    let digest = [7u8; 32];
    let req = request_sign_digest("key-1", digest);
    assert_eq!(req.key_id, "key-1");
    assert_eq!(req.message, digest.to_vec());
    assert_eq!(req.message_type, Some("DIGEST".to_string()));
    assert_eq!(req.signing_algorithm, "ECDSA_SHA_256");
    assert_eq!(request_get_pubkey("key-2").key_id, "key-2");
}

#[test]
fn signer_requests_use_its_key_id() {
    let s = signer();
    assert_eq!(s.get_pubkey().key_id, "my-key");
    let req = s.sign_digest([1u8; 32]);
    assert_eq!(req.key_id, "my-key");
    assert_eq!(req.message, vec![1u8; 32]);
}

#[test]
fn signer_accessors_and_chain_id() {
    let s = signer();
    assert_eq!(s.address(), expected_address(&key()));
    assert_eq!(s.chain_id(), 1);
    assert_eq!(s.key_id(), "my-key");
    assert_eq!(s.pubkey(), key());
    assert_eq!(s.timeout(), Some(Duration::from_millis(100)));
    let s = s.with_chain_id(5);
    assert_eq!(s.chain_id(), 5);
    assert_eq!(s.address(), expected_address(&key()));
    assert_eq!(s.key_id(), "my-key");
}

#[test]
fn message_is_signed_as_eip191_hash_with_signer_chain_id() {
    let s = signer().with_chain_id(3);
    let signing = s.sign_message(b"Hello World");
    assert_eq!(signing.chain_id, 3);
    let mut envelope = b"\x19Ethereum Signed Message:\n11".to_vec();
    envelope.extend_from_slice(b"Hello World");
    assert_eq!(signing.digest, ethers_core::utils::keccak256(&envelope));
    assert_eq!(
        hex::encode(signing.digest),
        "a1de988600a42c4b4ab089b619297c17d53cffae5d5120d82d8a92d0bb3b78f2"
    );
}

#[test]
fn transaction_is_signed_with_its_own_chain_id_or_the_signer_one() {
    let s = signer();
    let sighash = [8u8; 32];
    let with_own = s.sign_transaction(sighash, Some(137));
    assert_eq!(with_own.digest, sighash);
    assert_eq!(with_own.chain_id, 137);
    let without = s.sign_transaction(sighash, None);
    assert_eq!(without.chain_id, 1);
}

#[test]
fn cloned_signer_keeps_its_fields() {
    let s = signer();
    let c = s.clone();
    assert_eq!(c.timeout(), Some(Duration::from_millis(100)));
    assert_eq!(c.key_id(), s.key_id());
    assert_eq!(c.address(), s.address());
}

#[test]
fn address_is_last_twenty_bytes_of_keccak_of_key() {
    let k = key();
    assert_eq!(verifying_key_to_address(&k), expected_address(&k));
    assert_eq!(signer().address(), expected_address(&k));
    // the address of the secp256k1 generator point (private key 1)
    let g = hex::decode(
        "0479be667ef9dcbbac55a06295ce870b07029bfcdb2dce28d959f2815b16f81798\
         483ada7726a3c4655da4fbfc0e1108a8fd17b448a68554199c47d08ffb10d4b8",
    )
    .unwrap();
    let mut g65 = [0u8; 65];
    g65.copy_from_slice(&g);
    assert_eq!(hex::encode(verifying_key_to_address(&g65)), "7e5f4552091a69125d5dfcb7b8c2659029395bdf");
}

#[test]
fn ethsig_from_recoverable_bytes_and_eip155() {
    let mut bytes = [0u8; 65];
    for (i, b) in bytes.iter_mut().enumerate() {
        *b = i as u8;
    }
    bytes[64] = 1;
    let mut sig = rsig_to_ethsig(&bytes);
    assert_eq!(&sig.r[..], &bytes[..32]);
    assert_eq!(&sig.s[..], &bytes[32..64]);
    assert_eq!(sig.v, 28);
    apply_eip155(&mut sig, 1);
    assert_eq!(sig.v, 38);
    assert_eq!(&sig.r[..], &bytes[..32]);
    let mut sig0 = rsig_to_ethsig(&[0u8; 65]);
    assert_eq!(sig0.v, 27);
    apply_eip155(&mut sig0, 137);
    assert_eq!(sig0.v, 309);
}
