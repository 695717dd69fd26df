use ethers_confidential::derivation::{derive_encryption_key, derive_shared_secret, x25519_private_to_public};
use ethers_confidential::encryption::{
    decrypt_ecdh, deoxys_decrypt, deoxys_encrypt, deoxys_encrypt_with_nonce, encrypt_ecdh, EncryptionError,
};
use ethers_confidential::{
    convert_to_fixed_size_array, decrypt_data, encrypt_data, encrypt_data_with_key_material, KEY_SIZE, NONCE_SIZE,
    TAG_SIZE, TX_KEY_PREFIX, USER_KEY_PREFIX,
};

fn hex32(s: &str) -> [u8; 32] {
    let v = hex_bytes(s);
    let mut out = [0u8; 32];
    out.copy_from_slice(&v);
    out
}

fn hex_bytes(s: &str) -> Vec<u8> {
    (0..s.len()).step_by(2).map(|i| u8::from_str_radix(&s[i..i + 2], 16).unwrap()).collect()
}

const ALICE_PRIVATE: &str = "77076d0a7318a57d3c16c17251b26645df4c2f87ebc0992ab177fba51db92c2a";
const ALICE_PUBLIC: &str = "8520f0098930a754748b7ddcb43ef75a0dbf3a0d26381af4eba4a98eaa9b4e6a";
const BOB_PRIVATE: &str = "5dab087e624a8a4b79e17f8b83800ee66f3bb1292618b6fd1c2f8b27ff88e0eb";
const BOB_PUBLIC: &str = "de9edb7d7b7dc1b4d35b61c2ece435373f8343c85b78674dadfc7e146f882b4f";
const SHARED: &str = "4a5d9d5ba4ce2de1728e3bf480350f25e07e21c947d19e3376f09b3c1e161742";

#[test]
fn private_to_public_matches_rfc7748_vectors() {
    assert_eq!(x25519_private_to_public(hex32(ALICE_PRIVATE)), hex32(ALICE_PUBLIC));
    assert_eq!(x25519_private_to_public(hex32(BOB_PRIVATE)), hex32(BOB_PUBLIC));
}

#[test]
fn shared_secret_matches_rfc7748_vector_from_both_sides() {
    let alice = derive_shared_secret(hex32(ALICE_PRIVATE), hex32(BOB_PUBLIC));
    let bob = derive_shared_secret(hex32(BOB_PRIVATE), hex32(ALICE_PUBLIC));
    assert_eq!(alice, hex32(SHARED));
    assert_eq!(alice, bob);
}

#[test]
fn encryption_key_is_hmac_sha256_rfc4231_vector() {
    let key = derive_encryption_key(b"what do ya want for nothing?", b"Jefe");
    assert_eq!(key, hex32("5bdcc146bf60754e6a042426089575c75a003f089d2739839dec58b964ec3843"));
}

#[test]
fn encryption_key_depends_on_salt() {
    let a = derive_encryption_key(&[7u8; 32], TX_KEY_PREFIX.as_bytes());
    let b = derive_encryption_key(&[7u8; 32], USER_KEY_PREFIX.as_bytes());
    assert_ne!(a, b);
    assert_eq!(a, derive_encryption_key(&[7u8; 32], b"IOEncryptionKeyV1"));
}

#[test]
fn deoxys_envelope_layout_and_determinism() {
    let key = [1u8; KEY_SIZE];
    let nonce = [2u8; NONCE_SIZE];
    let aad = [3u8; TAG_SIZE];
    let data = b"hello world";
    let a = deoxys_encrypt_with_nonce(&key, data, &nonce, &aad).unwrap();
    let b = deoxys_encrypt_with_nonce(&key, data, &nonce, &aad).unwrap();
    assert_eq!(a, b);
    assert_eq!(a.len(), NONCE_SIZE + TAG_SIZE + data.len() + 16);
    assert_eq!(&a[..NONCE_SIZE], &nonce[..]);
    assert_eq!(&a[NONCE_SIZE..NONCE_SIZE + TAG_SIZE], &aad[..]);
    assert_ne!(&a[NONCE_SIZE + TAG_SIZE..NONCE_SIZE + TAG_SIZE + data.len()], &data[..]);
    assert_eq!(deoxys_decrypt(&key, &a), Ok(data.to_vec()));
}

#[test]
fn deoxys_roundtrip_with_random_nonce() {
    let key = [9u8; KEY_SIZE];
    let data = b"some transaction data".to_vec();
    let encrypted = deoxys_encrypt(&key, &data).unwrap();
    assert_eq!(encrypted.len(), NONCE_SIZE + TAG_SIZE + data.len() + 16);
    assert_eq!(deoxys_decrypt(&key, &encrypted), Ok(data.clone()));
    let again = deoxys_encrypt(&key, &data).unwrap();
    assert_ne!(encrypted, again);
    assert_eq!(deoxys_decrypt(&key, &again), Ok(data));
}

#[test]
fn deoxys_roundtrip_of_empty_data() {
    let key = [4u8; KEY_SIZE];
    let encrypted = deoxys_encrypt(&key, &[]).unwrap();
    assert_eq!(encrypted.len(), NONCE_SIZE + TAG_SIZE + 16);
    assert_eq!(deoxys_decrypt(&key, &encrypted), Ok(vec![]));
}

#[test]
fn deoxys_refuses_tampered_or_foreign_ciphertext() {
    let key = [5u8; KEY_SIZE];
    let mut encrypted = deoxys_encrypt(&key, b"payload").unwrap();
    assert_eq!(deoxys_decrypt(&[6u8; KEY_SIZE], &encrypted), Err(EncryptionError::Aead));
    let last = encrypted.len() - 1;
    encrypted[last] ^= 1;
    assert_eq!(deoxys_decrypt(&key, &encrypted), Err(EncryptionError::Aead));
    let mut aad_changed = deoxys_encrypt(&key, b"payload").unwrap();
    aad_changed[NONCE_SIZE] ^= 1;
    assert_eq!(deoxys_decrypt(&key, &aad_changed), Err(EncryptionError::Aead));
}

#[test]
fn deoxys_refuses_envelope_without_tag() {
    let key = [5u8; KEY_SIZE];
    let short = vec![0u8; NONCE_SIZE + TAG_SIZE + 15];
    assert_eq!(deoxys_decrypt(&key, &short), Err(EncryptionError::Aead));
}

#[test]
fn encrypt_ecdh_prefixes_sender_public_key_and_node_decrypts() {
    let user_private = hex32(ALICE_PRIVATE);
    let node_private = hex32(BOB_PRIVATE);
    let node_public = x25519_private_to_public(node_private);
    let data = b"call data".to_vec();
    let encrypted = encrypt_ecdh(user_private, node_public, &data).unwrap();
    assert_eq!(encrypted.len(), KEY_SIZE + NONCE_SIZE + TAG_SIZE + data.len() + 16);
    assert_eq!(&encrypted[..KEY_SIZE], &hex32(ALICE_PUBLIC)[..]);
    let sender_public = convert_to_fixed_size_array(encrypted[..KEY_SIZE].to_vec());
    // the node agrees on the key from its private key and the sender's public key
    assert_eq!(decrypt_ecdh(node_private, sender_public, &encrypted[KEY_SIZE..]), Ok(data.clone()));
    // and so does the sender
    assert_eq!(decrypt_ecdh(user_private, node_public, &encrypted[KEY_SIZE..]), Ok(data));
}

#[test]
fn decrypt_ecdh_reads_node_response() {
    let user_private = [11u8; 32];
    let node_private = [22u8; 32];
    let user_public = x25519_private_to_public(user_private);
    let node_public = x25519_private_to_public(node_private);
    let shared = derive_shared_secret(node_private, user_public);
    let key = derive_encryption_key(&shared, TX_KEY_PREFIX.as_bytes());
    let response = deoxys_encrypt(&key, b"node response").unwrap();
    assert_eq!(decrypt_ecdh(user_private, node_public, &response), Ok(b"node response".to_vec()));
    assert_eq!(decrypt_ecdh([12u8; 32], node_public, &response), Err(EncryptionError::Aead));
}

#[test]
fn encrypt_data_with_key_material_derives_user_key() {
    let node_private = [33u8; 32];
    let node_public = x25519_private_to_public(node_private);
    let material = [44u8; 32];
    let (encrypted, used_key) = encrypt_data_with_key_material(node_public, b"tx data", material).unwrap();
    assert_eq!(used_key, derive_encryption_key(&material, USER_KEY_PREFIX.as_bytes()));
    assert_eq!(&encrypted[..KEY_SIZE], &x25519_private_to_public(used_key)[..]);
    let sender_public = convert_to_fixed_size_array(encrypted[..KEY_SIZE].to_vec());
    assert_eq!(decrypt_ecdh(node_private, sender_public, &encrypted[KEY_SIZE..]), Ok(b"tx data".to_vec()));
}

#[test]
fn encrypt_data_and_decrypt_node_response() {
    let node_private = [55u8; 32];
    let node_public = x25519_private_to_public(node_private);
    let (encrypted, used_key) = encrypt_data(node_public, b"request").unwrap();
    let user_public = convert_to_fixed_size_array(encrypted[..KEY_SIZE].to_vec());
    assert_eq!(user_public, x25519_private_to_public(used_key));
    // the node answers under the same agreed key
    let shared = derive_shared_secret(node_private, user_public);
    let key = derive_encryption_key(&shared, TX_KEY_PREFIX.as_bytes());
    let answer = deoxys_encrypt(&key, b"response").unwrap();
    assert_eq!(decrypt_data(node_public, used_key, &answer), Some(b"response".to_vec()));
    assert_eq!(decrypt_data(node_public, [0u8; 32], &answer), None);
}

#[test]
fn convert_to_fixed_size_array_takes_first_key_size_bytes() {
    let data: Vec<u8> = (0u8..40).collect();
    let fixed = convert_to_fixed_size_array(data.clone());
    assert_eq!(&fixed[..], &data[..32]);
    let exact: Vec<u8> = vec![7u8; 32];
    assert_eq!(convert_to_fixed_size_array(exact), [7u8; 32]);
}

#[test]
fn public_key_is_shared_secret_with_base_point() {
    let mut base = [0u8; 32];
    base[0] = 9;
    for k in [hex32(ALICE_PRIVATE), hex32(BOB_PRIVATE), [3u8; 32]] {
        assert_eq!(x25519_private_to_public(k), derive_shared_secret(k, base));
    }
}

#[test]
fn x25519_depends_on_clamped_secret_only() {
    let k = hex32(ALICE_PRIVATE);
    let mut clamped = k;
    clamped[0] &= 248;
    clamped[31] &= 127;
    clamped[31] |= 64;
    let mut unclamped = clamped;
    unclamped[0] |= 7;
    unclamped[31] |= 128;
    assert_eq!(x25519_private_to_public(unclamped), x25519_private_to_public(k));
    assert_eq!(x25519_private_to_public(clamped), hex32(ALICE_PUBLIC));
    let p = hex32(BOB_PUBLIC);
    assert_eq!(derive_shared_secret(unclamped, p), derive_shared_secret(clamped, p));
}

#[test]
fn short_envelopes_are_refused() {
    let key = [5u8; KEY_SIZE];
    for len in [NONCE_SIZE + TAG_SIZE, NONCE_SIZE + TAG_SIZE + 15] {
        let data = vec![0u8; len];
        assert_eq!(deoxys_decrypt(&key, &data), Err(EncryptionError::Aead));
        assert_eq!(decrypt_ecdh([1u8; 32], [9u8; 32], &data), Err(EncryptionError::Aead));
    }
    for len in [0, 10, NONCE_SIZE + TAG_SIZE - 1, NONCE_SIZE + TAG_SIZE + 15] {
        assert_eq!(decrypt_data([9u8; 32], [1u8; 32], &vec![0u8; len]), None);
    }
}

#[test]
fn plaintext_is_47_bytes_shorter_than_envelope() {
    let key = [9u8; KEY_SIZE];
    let data = vec![7u8; 100];
    let encrypted = deoxys_encrypt(&key, &data).unwrap();
    let plain = deoxys_decrypt(&key, &encrypted).unwrap();
    assert_eq!(plain.len() + NONCE_SIZE + TAG_SIZE + 16, encrypted.len());
}
