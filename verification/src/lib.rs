use vstd::prelude::*;

pub mod primitives;
pub mod bytes;
pub mod derivation;
pub mod encryption;
pub mod nonce_manager;
pub mod aws_signer;
pub mod transformer;
pub mod gas_escalator;
use vstd::string::StringSliceAdditionalSpecFns;
use crate::encryption::{ecdh_decryption, is_ecdh_ciphertext_of, node_can_decrypt};
use crate::primitives::{hmac_sha256, x25519_public_key};

verus! {

/// Salt for derivation of transaction encryption key
pub const TX_KEY_PREFIX: &'static str = "IOEncryptionKeyV1";

/// Salt for derivation of user key material
pub const USER_KEY_PREFIX: &'static str = "UserEncryptionKeyV1";

/// Size of `tag` for DEOXYS-II encryption
pub const TAG_SIZE: usize = 16;

/// Size of `nonce` for DEOXYS-II encryption
pub const NONCE_SIZE: usize = 15;

/// Default size of private / public key
pub const KEY_SIZE: usize = 32;

/// The bytes of the salt for user key material.
pub open spec fn user_key_salt() -> Seq<u8> {
    USER_KEY_PREFIX.spec_bytes()
}

fn user_salt_bytes() -> (salt: &'static [u8])
    ensures
        salt@ == user_key_salt(),
{
    USER_KEY_PREFIX.as_bytes()
}

/// Encrypts provided transaction or call data field for the node whose public key is
/// `node_public_key`, with the encryption key derived from the given key material.
///
/// Returns Some(encrypted_data, used_key) if encryption was successful, returns None in case
/// of error
pub fn encrypt_data_with_key_material(
    node_public_key: [u8; KEY_SIZE],
    data: &[u8],
    key_material: [u8; KEY_SIZE],
) -> (result: Option<(Vec<u8>, [u8; KEY_SIZE])>)
    ensures
        result matches Some((encrypted, used_key)) && {
            &&& used_key@ == hmac_sha256(user_key_salt(), key_material@)
            &&& used_key@ == hmac_sha256(USER_KEY_PREFIX.spec_bytes(), key_material@)
            &&& encrypted@.subrange(0, 32) == x25519_public_key(used_key@)
            &&& is_ecdh_ciphertext_of(used_key@, node_public_key@, data@, encrypted@)
            &&& encrypted@.len() == KEY_SIZE + NONCE_SIZE + TAG_SIZE + data@.len() + 16
            &&& ecdh_decryption(
                used_key@,
                node_public_key@,
                encrypted@.subrange(KEY_SIZE as int, encrypted@.len() as int),
            ) == Some(data@)
            &&& node_can_decrypt(node_public_key@, data@, encrypted@)
        },
{
    let encryption_key = derivation::derive_encryption_key(key_material.as_slice(), user_salt_bytes());
    match encryption::encrypt_ecdh(encryption_key, node_public_key, data) {
        Ok(res) => Some((res, encryption_key)),
        Err(_) => None,
    }
}

/// Encrypts provided transaction or call data field for the node whose public key is
/// `node_public_key`, with an encryption key derived from fresh random key material.
///
/// Returns Some(encrypted_data, used_key) if encryption was successful, returns None in case
/// of error
pub fn encrypt_data(node_public_key: [u8; KEY_SIZE], data: &[u8]) -> (result: Option<(Vec<u8>, [u8; KEY_SIZE])>)
    ensures
        result matches Some((encrypted, used_key)) && {
            &&& exists|key_material: Seq<u8>|
                key_material.len() == KEY_SIZE && used_key@ == #[trigger] hmac_sha256(
                    USER_KEY_PREFIX.spec_bytes(),
                    key_material,
                )
            &&& encrypted@.subrange(0, 32) == x25519_public_key(used_key@)
            &&& is_ecdh_ciphertext_of(used_key@, node_public_key@, data@, encrypted@)
            &&& encrypted@.len() == KEY_SIZE + NONCE_SIZE + TAG_SIZE + data@.len() + 16
            &&& ecdh_decryption(
                used_key@,
                node_public_key@,
                encrypted@.subrange(KEY_SIZE as int, encrypted@.len() as int),
            ) == Some(data@)
            &&& node_can_decrypt(node_public_key@, data@, encrypted@)
        },
{
    let mut key_material = [0u8; 32];
    primitives::fill_random(&mut key_material);
    encrypt_data_with_key_material(node_public_key, data, key_material)
}

/// Decrypts provided ciphertext, received as a node response
///
/// * encryption_key – key, used during encryption of raw data
/// * data – ciphertext, received from node
///
/// Returns Some(decrypted_data) in case of success, otherwise returns None: in particular
/// when `data` is too short to hold the nonce, the associated data and the tag.
pub fn decrypt_data(node_public_key: [u8; KEY_SIZE], encryption_key: [u8; KEY_SIZE], data: &[u8]) -> (result: Option<Vec<u8>>)
    ensures
        data@.len() < NONCE_SIZE + TAG_SIZE + 16 ==> result is None,
        data@.len() >= NONCE_SIZE + TAG_SIZE ==> (result matches Some(m) ==> ecdh_decryption(
            encryption_key@,
            node_public_key@,
            data@,
        ) == Some(m@)),
        data@.len() >= NONCE_SIZE + TAG_SIZE ==> (result is None ==> ecdh_decryption(
            encryption_key@,
            node_public_key@,
            data@,
        ) is None),
        result matches Some(m) ==> m@.len() + NONCE_SIZE + TAG_SIZE + 16 == data@.len(),
{
    if data.len() < NONCE_SIZE + TAG_SIZE {
        return None;
    }
    match encryption::decrypt_ecdh(encryption_key, node_public_key, data) {
        Ok(res) => Some(res),
        Err(_) => None,
    }
}

/// Copies the first `KEY_SIZE` bytes of `data` into a fixed-size array.
pub fn convert_to_fixed_size_array(data: Vec<u8>) -> (fixed_array: [u8; KEY_SIZE])
    requires
        data@.len() >= KEY_SIZE,
    ensures
        fixed_array@ == data@.subrange(0, KEY_SIZE as int),
{
    let mut fixed_array = [0u8; KEY_SIZE];
    let mut i: usize = 0;
    while i < KEY_SIZE
        invariant
            i <= KEY_SIZE,
            data@.len() >= KEY_SIZE,
            fixed_array@.len() == KEY_SIZE,
            forall|j: int| 0 <= j < i ==> fixed_array@[j] == data@[j],
        decreases KEY_SIZE - i,
    {
        fixed_array[i] = data[i];
        i = i + 1;
    }
    assert(fixed_array@ =~= data@.subrange(0, KEY_SIZE as int));
    fixed_array
}


} // verus!
