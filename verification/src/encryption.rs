//! Deoxys-II encryption of payloads, and its use with an X25519 key agreement.
use vstd::prelude::*;
use vstd::string::StringSliceAdditionalSpecFns;
use crate::{KEY_SIZE, NONCE_SIZE, TAG_SIZE, TX_KEY_PREFIX};
use crate::bytes::{append_bytes, copy_range};
use crate::derivation::{derive_encryption_key, derive_shared_secret, x25519_private_to_public};
use crate::primitives::{
    deoxys_ii_decrypt, deoxys_ii_encrypt, deoxys_ii_open, deoxys_ii_seal, fill_random,
    hmac_sha256, x25519_public_key, x25519_shared_secret,
};

verus! {

/// Error of the Deoxys-II cipher. Like the cipher's own error it carries no detail,
/// so that a failed decryption reveals nothing about why it failed.
#[derive(Debug, Clone, Copy, PartialEq, Eq, Structural)]
pub enum EncryptionError {
    /// The ciphertext did not authenticate under the key, nonce and associated data.
    Aead,
}

/// The bytes of the salt for transaction keys.
pub open spec fn tx_key_salt() -> Seq<u8> {
    TX_KEY_PREFIX.spec_bytes()
}

/// The Deoxys-II key two parties agree on: HMAC-SHA256, under the transaction salt,
/// of their X25519 shared secret.
pub open spec fn ecdh_encryption_key(private_key: Seq<u8>, public_key: Seq<u8>) -> Seq<u8> {
    hmac_sha256(tx_key_salt(), x25519_shared_secret(private_key, public_key))
}

/// The layout `deoxys_encrypt` produces: nonce, then associated data, then ciphertext.
pub open spec fn deoxys_envelope(key: Seq<u8>, nonce: Seq<u8>, aad: Seq<u8>, data: Seq<u8>) -> Seq<u8> {
    nonce + aad + deoxys_ii_seal(key, nonce, aad, data)
}

/// `envelope` is an encryption of `data` under `key` with some nonce and associated data.
pub open spec fn is_deoxys_envelope_of(key: Seq<u8>, data: Seq<u8>, envelope: Seq<u8>) -> bool {
    exists|nonce: Seq<u8>, aad: Seq<u8>|
        nonce.len() == NONCE_SIZE && aad.len() == TAG_SIZE && envelope == #[trigger] deoxys_envelope(
            key,
            nonce,
            aad,
            data,
        )
}

/// What `deoxys_decrypt` reads out of an envelope: the first `NONCE_SIZE` bytes are the
/// nonce, the next `TAG_SIZE` bytes the associated data, the rest the ciphertext.
pub open spec fn open_deoxys_envelope(key: Seq<u8>, envelope: Seq<u8>) -> Option<Seq<u8>> {
    deoxys_ii_open(
        key,
        envelope.subrange(0, NONCE_SIZE as int),
        envelope.subrange(NONCE_SIZE as int, (NONCE_SIZE + TAG_SIZE) as int),
        envelope.subrange((NONCE_SIZE + TAG_SIZE) as int, envelope.len() as int),
    )
}

/// What `decrypt_ecdh` gives for a private key, the peer's public key and an envelope.
pub open spec fn ecdh_decryption(private_key: Seq<u8>, public_key: Seq<u8>, envelope: Seq<u8>) -> Option<Seq<u8>> {
    open_deoxys_envelope(ecdh_encryption_key(private_key, public_key), envelope)
}

/// `out` is what `encrypt_ecdh` produces for the sender's private key, the node's
/// public key and `data`: the sender's public key followed by a Deoxys-II envelope
/// of `data` under the agreed key.
pub open spec fn is_ecdh_ciphertext_of(
    sender_private: Seq<u8>,
    node_public: Seq<u8>,
    data: Seq<u8>,
    out: Seq<u8>,
) -> bool {
    &&& out.len() >= KEY_SIZE
    &&& out.subrange(0, KEY_SIZE as int) == x25519_public_key(sender_private)
    &&& is_deoxys_envelope_of(
        ecdh_encryption_key(sender_private, node_public),
        data,
        out.subrange(KEY_SIZE as int, out.len() as int),
    )
}

/// Whoever holds the private key behind `node_public` reads `data` back out of `out`
/// with `decrypt_ecdh`, from the public key in front and the envelope behind it.
pub open spec fn node_can_decrypt(node_public: Seq<u8>, data: Seq<u8>, out: Seq<u8>) -> bool {
    forall|node_private: Seq<u8>|
        node_private.len() == KEY_SIZE && node_public == #[trigger] x25519_public_key(node_private)
            ==> ecdh_decryption(
            node_private,
            out.subrange(0, KEY_SIZE as int),
            out.subrange(KEY_SIZE as int, out.len() as int),
        ) == Some(data)
}

/// An envelope is the nonce, then the associated data, then the Deoxys-II ciphertext,
/// and reading one back splits it at those same places: opening what was laid out
/// gives exactly what the cipher gives for that nonce, associated data and ciphertext.
pub proof fn lemma_envelope_layout(key: Seq<u8>, nonce: Seq<u8>, aad: Seq<u8>, data: Seq<u8>)
    requires
        nonce.len() == 15,
        aad.len() == 16,
    ensures
        deoxys_envelope(key, nonce, aad, data).subrange(0, 15) == nonce,
        deoxys_envelope(key, nonce, aad, data).subrange(15, 31) == aad,
        deoxys_envelope(key, nonce, aad, data).subrange(31, deoxys_envelope(key, nonce, aad, data).len() as int)
            == deoxys_ii_seal(key, nonce, aad, data),
        open_deoxys_envelope(key, deoxys_envelope(key, nonce, aad, data)) == deoxys_ii_open(
            key,
            nonce,
            aad,
            deoxys_ii_seal(key, nonce, aad, data),
        ),
{
    let e = deoxys_envelope(key, nonce, aad, data);
    assert(e.subrange(0, 15) =~= nonce);
    assert(e.subrange(15, 31) =~= aad);
    assert(e.subrange(31, e.len() as int) =~= deoxys_ii_seal(key, nonce, aad, data));
}

/// Reading an envelope takes its first 15 bytes as the nonce, the next 16 as the
/// associated data and the rest as the ciphertext.
pub proof fn lemma_open_splits_at_nonce_and_aad(key: Seq<u8>, envelope: Seq<u8>)
    requires
        envelope.len() >= 31,
    ensures
        open_deoxys_envelope(key, envelope) == deoxys_ii_open(
            key,
            envelope.subrange(0, 15),
            envelope.subrange(15, 31),
            envelope.subrange(31, envelope.len() as int),
        ),
{
}

/// The key of a transaction is HMAC-SHA256, keyed with the bytes of `TX_KEY_PREFIX`,
/// of the X25519 shared secret; the node's response is read under the same key.
pub proof fn lemma_transaction_key_uses_tx_prefix(private_key: Seq<u8>, public_key: Seq<u8>, envelope: Seq<u8>)
    ensures
        ecdh_encryption_key(private_key, public_key) == hmac_sha256(
            TX_KEY_PREFIX.spec_bytes(),
            x25519_shared_secret(private_key, public_key),
        ),
        ecdh_decryption(private_key, public_key, envelope) == open_deoxys_envelope(
            hmac_sha256(TX_KEY_PREFIX.spec_bytes(), x25519_shared_secret(private_key, public_key)),
            envelope,
        ),
{
}

/// What `encrypt_ecdh` produces starts with the sender's public key and is followed by
/// an envelope, under the agreed key, of the data.
pub proof fn lemma_ecdh_ciphertext_starts_with_sender_key(
    sender_private: Seq<u8>,
    node_public: Seq<u8>,
    data: Seq<u8>,
    out: Seq<u8>,
)
    requires
        is_ecdh_ciphertext_of(sender_private, node_public, data, out),
    ensures
        out.len() >= 32,
        out.subrange(0, 32) == x25519_public_key(sender_private),
        exists|nonce: Seq<u8>, aad: Seq<u8>|
            nonce.len() == 15 && aad.len() == 16 && #[trigger] out.subrange(32, out.len() as int) == nonce + aad
                + deoxys_ii_seal(
                hmac_sha256(TX_KEY_PREFIX.spec_bytes(), x25519_shared_secret(sender_private, node_public)),
                nonce,
                aad,
                data,
            ),
{
    let env = out.subrange(32, out.len() as int);
    let key = ecdh_encryption_key(sender_private, node_public);
    let (n, a) = choose|nonce: Seq<u8>, aad: Seq<u8>|
        nonce.len() == NONCE_SIZE && aad.len() == TAG_SIZE && env == #[trigger] deoxys_envelope(key, nonce, aad, data);
    assert(env == n + a + deoxys_ii_seal(key, n, a, data));
}

fn tx_salt_bytes() -> (salt: &'static [u8])
    ensures
        salt@ == tx_key_salt(),
{
    TX_KEY_PREFIX.as_bytes()
}

/// Encrypts `data` with `private_key` and the given nonce and associated data,
/// laid out as `nonce || aad || ciphertext`.
pub fn deoxys_encrypt_with_nonce(
    private_key: &[u8; KEY_SIZE],
    data: &[u8],
    nonce: &[u8; NONCE_SIZE],
    aad: &[u8; TAG_SIZE],
) -> (encrypted: Result<Vec<u8>, EncryptionError>)
    ensures
        encrypted matches Ok(v) && v@ == deoxys_envelope(private_key@, nonce@, aad@, data@),
        encrypted matches Ok(v) ==> v@.len() == NONCE_SIZE + TAG_SIZE + data@.len() + 16,
        encrypted matches Ok(v) ==> open_deoxys_envelope(private_key@, v@) == Some(data@),
        encrypted matches Ok(v) ==> {
            &&& v@.subrange(0, 15) == nonce@
            &&& v@.subrange(15, 31) == aad@
            &&& v@.subrange(31, v@.len() as int) == deoxys_ii_seal(private_key@, nonce@, aad@, data@)
            &&& deoxys_ii_open(private_key@, v@.subrange(0, 15), v@.subrange(15, 31), v@.subrange(31, v@.len() as int))
                == Some(data@)
        },
{
    let sealed = deoxys_ii_encrypt(private_key, nonce, aad.as_slice(), data);
    match sealed {
        Ok(ciphertext) => {
            let mut encrypted_data: Vec<u8> = Vec::new();
            append_bytes(&mut encrypted_data, nonce.as_slice());
            append_bytes(&mut encrypted_data, aad.as_slice());
            append_bytes(&mut encrypted_data, ciphertext.as_slice());
            proof {
                let v = encrypted_data@;
                assert(v.subrange(0, NONCE_SIZE as int) =~= nonce@);
                assert(v.subrange(NONCE_SIZE as int, (NONCE_SIZE + TAG_SIZE) as int) =~= aad@);
                assert(v.subrange((NONCE_SIZE + TAG_SIZE) as int, v.len() as int) =~= ciphertext@);
            }
            Ok(encrypted_data)
        },
        Err(_) => Err(EncryptionError::Aead),
    }
}

/// Encrypts `data` with `private_key` under a fresh random nonce and random
/// associated data, laid out as `nonce || aad || ciphertext`.
pub fn deoxys_encrypt(private_key: &[u8; KEY_SIZE], data: &[u8]) -> (encrypted: Result<Vec<u8>, EncryptionError>)
    ensures
        encrypted matches Ok(v) && is_deoxys_envelope_of(private_key@, data@, v@),
        encrypted matches Ok(v) ==> v@.len() == NONCE_SIZE + TAG_SIZE + data@.len() + 16,
        encrypted matches Ok(v) ==> open_deoxys_envelope(private_key@, v@) == Some(data@),
{
    let mut aad = [0u8; 16];
    fill_random(&mut aad);
    let mut nonce = [0u8; 15];
    fill_random(&mut nonce);
    let encrypted = deoxys_encrypt_with_nonce(private_key, data, &nonce, &aad);
    proof {
        if encrypted is Ok {
            assert(deoxys_envelope(private_key@, nonce@, aad@, data@) == encrypted->Ok_0@);
        }
    }
    encrypted
}

/// Decrypts an envelope `nonce || aad || ciphertext` produced by `deoxys_encrypt`.
/// The envelope must hold at least the nonce and the associated data.
pub fn deoxys_decrypt(private_key: &[u8; KEY_SIZE], encrypted_data: &[u8]) -> (decrypted: Result<Vec<u8>, EncryptionError>)
    requires
        encrypted_data@.len() >= NONCE_SIZE + TAG_SIZE,
    ensures
        decrypted matches Ok(m) ==> open_deoxys_envelope(private_key@, encrypted_data@) == Some(m@),
        decrypted matches Ok(m) ==> deoxys_ii_open(
            private_key@,
            encrypted_data@.subrange(0, 15),
            encrypted_data@.subrange(15, 31),
            encrypted_data@.subrange(31, encrypted_data@.len() as int),
        ) == Some(m@),
        decrypted is Err ==> deoxys_ii_open(
            private_key@,
            encrypted_data@.subrange(0, 15),
            encrypted_data@.subrange(15, 31),
            encrypted_data@.subrange(31, encrypted_data@.len() as int),
        ) is None,
        decrypted matches Ok(m) ==> m@.len() + NONCE_SIZE + TAG_SIZE + 16 == encrypted_data@.len(),
        decrypted is Err ==> open_deoxys_envelope(private_key@, encrypted_data@) is None,
        encrypted_data@.len() < NONCE_SIZE + TAG_SIZE + 16 ==> decrypted is Err,
{
    let mut nonce = [0u8; 15];
    let mut i: usize = 0;
    while i < NONCE_SIZE
        invariant
            i <= NONCE_SIZE,
            encrypted_data@.len() >= NONCE_SIZE + TAG_SIZE,
            nonce@.len() == NONCE_SIZE,
            forall|j: int| 0 <= j < i ==> nonce@[j] == encrypted_data@[j],
        decreases NONCE_SIZE - i,
    {
        nonce[i] = encrypted_data[i];
        i = i + 1;
    }
    assert(nonce@ =~= encrypted_data@.subrange(0, NONCE_SIZE as int));
    let aad = copy_range(encrypted_data, NONCE_SIZE, NONCE_SIZE + TAG_SIZE);
    let ciphertext = copy_range(encrypted_data, NONCE_SIZE + TAG_SIZE, encrypted_data.len());
    match deoxys_ii_decrypt(private_key, &nonce, aad.as_slice(), ciphertext.as_slice()) {
        Ok(plaintext) => Ok(plaintext),
        Err(_) => Err(EncryptionError::Aead),
    }
}

/// Encrypts `data` for the node holding the private key of `node_public_key`: the key
/// agreed from `private_key` and `node_public_key` encrypts the data, and the public
/// key of `private_key` is put in front so that the node can agree on the same key.
pub fn encrypt_ecdh(
    private_key: [u8; KEY_SIZE],
    node_public_key: [u8; KEY_SIZE],
    data: &[u8],
) -> (result: Result<Vec<u8>, EncryptionError>)
    ensures
        result matches Ok(v) && is_ecdh_ciphertext_of(private_key@, node_public_key@, data@, v@),
        result matches Ok(v) ==> v@.len() == KEY_SIZE + NONCE_SIZE + TAG_SIZE + data@.len() + 16,
        result matches Ok(v) ==> ecdh_decryption(
            private_key@,
            node_public_key@,
            v@.subrange(KEY_SIZE as int, v@.len() as int),
        ) == Some(data@),
        result matches Ok(v) ==> node_can_decrypt(node_public_key@, data@, v@),
        result matches Ok(v) ==> v@.subrange(0, 32) == x25519_public_key(private_key@),
        result matches Ok(v) ==> deoxys_ii_open(
            hmac_sha256(TX_KEY_PREFIX.spec_bytes(), x25519_shared_secret(private_key@, node_public_key@)),
            v@.subrange(32, 47),
            v@.subrange(47, 63),
            v@.subrange(63, v@.len() as int),
        ) == Some(data@),
{
    let shared_secret = derive_shared_secret(private_key, node_public_key);
    let salt = tx_salt_bytes();
    let encryption_key = derive_encryption_key(shared_secret.as_slice(), salt);
    let encrypted_data = match deoxys_encrypt(&encryption_key, data) {
        Ok(v) => v,
        Err(e) => {
            return Err(e);
        },
    };
    let public_key = x25519_private_to_public(private_key);
    let mut result = Vec::<u8>::new();
    append_bytes(&mut result, public_key.as_slice());
    append_bytes(&mut result, encrypted_data.as_slice());
    proof {
        let v = result@;
        assert(v.subrange(0, KEY_SIZE as int) =~= public_key@);
        assert(v.subrange(KEY_SIZE as int, v.len() as int) =~= encrypted_data@);
        assert(encrypted_data@.subrange(0, 15) =~= v.subrange(32, 47));
        assert(encrypted_data@.subrange(15, 31) =~= v.subrange(47, 63));
        assert(encrypted_data@.subrange(31, encrypted_data@.len() as int) =~= v.subrange(63, v.len() as int));
        assert forall|node_private: Seq<u8>|
            node_private.len() == KEY_SIZE && node_public_key@ == #[trigger] x25519_public_key(
                node_private,
            ) implies ecdh_decryption(
            node_private,
            v.subrange(0, KEY_SIZE as int),
            v.subrange(KEY_SIZE as int, v.len() as int),
        ) == Some(data@) by {
            assert(shared_secret@ == x25519_shared_secret(node_private, x25519_public_key(private_key@)));
        }
    }
    Ok(result)
}

/// Decrypts an envelope that the node encrypted under the key agreed from
/// `private_key` and `node_public_key`.
pub fn decrypt_ecdh(
    private_key: [u8; KEY_SIZE],
    node_public_key: [u8; KEY_SIZE],
    encrypted_data: &[u8],
) -> (result: Result<Vec<u8>, EncryptionError>)
    requires
        encrypted_data@.len() >= NONCE_SIZE + TAG_SIZE,
    ensures
        result matches Ok(m) ==> ecdh_decryption(private_key@, node_public_key@, encrypted_data@) == Some(m@),
        result matches Ok(m) ==> deoxys_ii_open(
            hmac_sha256(TX_KEY_PREFIX.spec_bytes(), x25519_shared_secret(private_key@, node_public_key@)),
            encrypted_data@.subrange(0, 15),
            encrypted_data@.subrange(15, 31),
            encrypted_data@.subrange(31, encrypted_data@.len() as int),
        ) == Some(m@),
        result is Err ==> deoxys_ii_open(
            hmac_sha256(TX_KEY_PREFIX.spec_bytes(), x25519_shared_secret(private_key@, node_public_key@)),
            encrypted_data@.subrange(0, 15),
            encrypted_data@.subrange(15, 31),
            encrypted_data@.subrange(31, encrypted_data@.len() as int),
        ) is None,
        result matches Ok(m) ==> m@.len() + NONCE_SIZE + TAG_SIZE + 16 == encrypted_data@.len(),
        result is Err ==> ecdh_decryption(private_key@, node_public_key@, encrypted_data@) is None,
        encrypted_data@.len() < NONCE_SIZE + TAG_SIZE + 16 ==> result is Err,
{
    let shared_secret = derive_shared_secret(private_key, node_public_key);
    let salt = tx_salt_bytes();
    let encryption_key = derive_encryption_key(shared_secret.as_slice(), salt);
    deoxys_decrypt(&encryption_key, encrypted_data)
}

} // verus!
