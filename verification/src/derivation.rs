//! Key derivation: X25519 key agreement and the HMAC-SHA256 key derivation function.
use vstd::prelude::*;
use crate::KEY_SIZE;
use crate::primitives::{
    hmac_sha256, hmac_sha256_digest, x25519_base_point, x25519_clamp, x25519_diffie_hellman,
    x25519_public_from_secret, x25519_public_key, x25519_shared_secret,
};

verus! {

/// Clamping clears the three low bits of the first byte and the top bit of the last,
/// sets the second-highest bit of the last, keeps every other byte, and clamping a
/// clamped key changes nothing. The base point is u = 9: a 9 followed by 31 zero bytes.
pub proof fn lemma_clamping_and_base_point(k: Seq<u8>)
    requires
        k.len() == 32,
    ensures
        x25519_clamp(k).len() == 32,
        x25519_clamp(k)[0] % 8 == 0,
        x25519_clamp(k)[0] / 8 == k[0] / 8,
        64 <= x25519_clamp(k)[31] < 128,
        x25519_clamp(k)[31] % 64 == k[31] % 64,
        forall|i: int| 1 <= i < 31 ==> #[trigger] x25519_clamp(k)[i] == k[i],
        x25519_clamp(x25519_clamp(k)) == x25519_clamp(k),
        x25519_base_point().len() == 32,
        x25519_base_point()[0] == 9,
        forall|i: int| 1 <= i < 32 ==> #[trigger] x25519_base_point()[i] == 0,
{
    let a = k[0];
    let b = k[31];
    assert((a & 248u8) % 8 == 0 && (a & 248u8) / 8 == a / 8) by (bit_vector);
    assert(64 <= ((b & 127u8) | 64u8) < 128 && ((b & 127u8) | 64u8) % 64 == b % 64) by (bit_vector);
    assert(((a & 248u8) & 248u8) == (a & 248u8)) by (bit_vector);
    assert(((((b & 127u8) | 64u8) & 127u8) | 64u8) == ((b & 127u8) | 64u8)) by (bit_vector);
    assert(x25519_clamp(x25519_clamp(k)) =~= x25519_clamp(k));
}

/// Converts provided x25519 private key to public key: the X25519 function of the key and
/// the base point u = 9, which depends on the key only through its clamping.
pub fn x25519_private_to_public(private_key: [u8; KEY_SIZE]) -> (public_key: [u8; KEY_SIZE])
    ensures
        public_key@ == x25519_public_key(private_key@),
        public_key@ == x25519_shared_secret(private_key@, x25519_base_point()),
        public_key@ == x25519_public_key(x25519_clamp(private_key@)),
{
    x25519_public_from_secret(private_key)
}

/// Performs Diffie-Hellman derivation of encryption key for transaction encryption
/// * public_key – User public key
/// Returns the bytes of the shared secret, which can be used for derivation of encryption key
pub fn derive_shared_secret(private_key: [u8; KEY_SIZE], public_key: [u8; KEY_SIZE]) -> (shared: [u8; KEY_SIZE])
    ensures
        shared@ == x25519_shared_secret(private_key@, public_key@),
        shared@ == x25519_shared_secret(x25519_clamp(private_key@), public_key@),
        forall|peer: Seq<u8>|
            peer.len() == KEY_SIZE && public_key@ == #[trigger] x25519_public_key(peer) ==> shared@
                == x25519_shared_secret(peer, x25519_public_key(private_key@)),
{
    x25519_diffie_hellman(private_key, public_key)
}

/// Derives encryption key using KDF: the first `KEY_SIZE` bytes of HMAC-SHA256 of
/// `private_key` under the key `salt` (which is the whole digest).
pub fn derive_encryption_key(private_key: &[u8], salt: &[u8]) -> (derived_key: [u8; KEY_SIZE])
    ensures
        derived_key@ == hmac_sha256(salt@, private_key@),
{
    let digest = hmac_sha256_digest(salt, private_key);
    let mut derived_key = [0u8; KEY_SIZE];
    let mut i: usize = 0;
    while i < KEY_SIZE
        invariant
            i <= KEY_SIZE,
            digest@.len() == KEY_SIZE,
            derived_key@.len() == KEY_SIZE,
            forall|j: int| 0 <= j < i ==> derived_key@[j] == digest@[j],
        decreases KEY_SIZE - i,
    {
        derived_key[i] = digest[i];
        i = i + 1;
    }
    assert(derived_key@ =~= digest@);
    derived_key
}

} // verus!
