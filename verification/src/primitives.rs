//! The cryptographic primitives this crate draws from outside crates, with
//! the contracts that the rest of the library relies on.
use vstd::prelude::*;
use deoxys::aead::{Aead, KeyInit, Payload};
use deoxys::DeoxysII256;
use hmac::{Hmac, Mac};
use rand::RngCore;
use sha2::Sha256;

verus! {

/// The opaque error of the AEAD interface (`aead::Error`, re-exported as `deoxys::Error`).
#[verifier::external_type_specification]
#[verifier::external_body]
pub struct ExAeadError(deoxys::Error);

/// The X25519 public key (32 bytes) that x25519-dalek computes for a 32-byte secret.
pub uninterp spec fn x25519_public_key(private_key: Seq<u8>) -> Seq<u8>;

/// The X25519 shared secret (32 bytes) that x25519-dalek computes from a 32-byte
/// secret and a 32-byte public key.
pub uninterp spec fn x25519_shared_secret(private_key: Seq<u8>, public_key: Seq<u8>) -> Seq<u8>;

/// HMAC-SHA256 of `message` under `key`.
pub uninterp spec fn hmac_sha256(key: Seq<u8>, message: Seq<u8>) -> Seq<u8>;

/// Deoxys-II-256 ciphertext (encrypted message followed by the 16-byte tag).
pub uninterp spec fn deoxys_ii_seal(key: Seq<u8>, nonce: Seq<u8>, aad: Seq<u8>, plaintext: Seq<u8>) -> Seq<u8>;

/// Deoxys-II-256 decryption: the plaintext, or `None` when the tag does not authenticate.
pub uninterp spec fn deoxys_ii_open(key: Seq<u8>, nonce: Seq<u8>, aad: Seq<u8>, ciphertext: Seq<u8>) -> Option<Seq<u8>>;

/// The X25519 clamping of a 32-byte secret (curve25519-dalek's `clamp_integer`): the low
/// three bits of the first byte and the high bit of the last are cleared, and the second
/// highest bit of the last is set.
pub open spec fn x25519_clamp(k: Seq<u8>) -> Seq<u8> {
    k.update(0, k[0] & 248u8).update(31, (k[31] & 127u8) | 64u8)
}

/// The X25519 base point: u = 9, as 32 little-endian bytes.
pub open spec fn x25519_base_point() -> Seq<u8> {
    seq![9u8] + Seq::new(31, |i: int| 0u8)
}

/// Keccak-256 of a byte string.
pub uninterp spec fn keccak256(bytes: Seq<u8>) -> Seq<u8>;

/// The ASCII decimal digits of a number, without leading zeros.
pub open spec fn decimal_digits(n: nat) -> Seq<u8>
    decreases n,
{
    if n < 10 {
        seq![(48 + n) as u8]
    } else {
        decimal_digits(n / 10).push((48 + n % 10) as u8)
    }
}

/// The EIP-191 envelope of a message: the bytes of `"\x19Ethereum Signed Message:\n"`,
/// the decimal length of the message, then the message.
pub open spec fn eip191_envelope(message: Seq<u8>) -> Seq<u8> {
    seq![0x19u8, 69, 116, 104, 101, 114, 101, 117, 109, 32, 83, 105, 103, 110, 101, 100, 32, 77, 101, 115, 115, 97, 103, 101, 58, 10]
        + decimal_digits(message.len()) + message
}

/// Calls ethers-core: `utils::hash_message(message)`, which its documentation describes
/// as the keccak256 hash of the EIP-191 envelope of the message (the source builds the
/// envelope with `format!` and hashes it). Claims exactly that, with keccak256 named.
#[verifier::external_body]
pub(crate) fn eip191_hash_message(message: &[u8]) -> (digest: [u8; 32])
    ensures
        digest@ == keccak256(eip191_envelope(message@)),
{
    ethers_core::utils::hash_message(message).0
}

/// Calls ethers-core: `utils::keccak256(bytes)`. Claims that the digest is the named
/// function of the bytes.
#[verifier::external_body]
pub(crate) fn keccak256_digest(bytes: &[u8]) -> (digest: [u8; 32])
    ensures
        digest@ == keccak256(bytes@),
{
    ethers_core::utils::keccak256(bytes)
}

/// Calls x25519-dalek: `PublicKey::from(&StaticSecret::from(private_key)).to_bytes()`.
/// Claims that the result is the named function of the secret, and what the source shows:
/// it is the u-coordinate of the base point multiplied by the clamped secret
/// (`mul_base_clamped`), so it is the shared secret of the secret with the base point
/// (`mul_clamped` on u = 9 multiplies by the same clamped scalar), and depends on the
/// secret only through its clamping.
#[verifier::external_body]
pub(crate) fn x25519_public_from_secret(private_key: [u8; 32]) -> (public_key: [u8; 32])
    ensures
        public_key@ == x25519_public_key(private_key@),
        public_key@ == x25519_shared_secret(private_key@, x25519_base_point()),
        public_key@ == x25519_public_key(x25519_clamp(private_key@)),
{
    let secret = x25519_dalek::StaticSecret::from(private_key);
    x25519_dalek::PublicKey::from(&secret).to_bytes()
}

/// Calls x25519-dalek: `StaticSecret::from(private_key).diffie_hellman(&PublicKey::from(public_key))`
/// and returns the bytes of the shared secret.
/// Claims that the result is the named function of both keys; that it depends on the
/// secret only through its clamping (`mul_clamped` clamps the secret); and the property
/// the crate's documentation demonstrates: the holder of the peer secret, given our
/// public key, computes the same shared secret.
#[verifier::external_body]
pub(crate) fn x25519_diffie_hellman(private_key: [u8; 32], public_key: [u8; 32]) -> (shared: [u8; 32])
    ensures
        shared@ == x25519_shared_secret(private_key@, public_key@),
        shared@ == x25519_shared_secret(x25519_clamp(private_key@), public_key@),
        forall|peer: Seq<u8>|
            peer.len() == 32 && public_key@ == #[trigger] x25519_public_key(peer) ==> shared@
                == x25519_shared_secret(peer, x25519_public_key(private_key@)),
{
    let secret = x25519_dalek::StaticSecret::from(private_key);
    *secret.diffie_hellman(&x25519_dalek::PublicKey::from(public_key)).as_bytes()
}

/// Calls hmac/sha2: `Hmac::<Sha256>::new_from_slice(key)` (never fails for HMAC, which
/// accepts keys of any length), `update(message)`, `finalize()`.
/// Claims that the digest is the named function of key and message and is 32 bytes long.
#[verifier::external_body]
pub(crate) fn hmac_sha256_digest(key: &[u8], message: &[u8]) -> (digest: Vec<u8>)
    ensures
        digest@ == hmac_sha256(key@, message@),
        digest@.len() == 32,
{
    let mut mac = <Hmac<Sha256> as KeyInit>::new_from_slice(key).unwrap();
    mac.update(message);
    mac.finalize().into_bytes().to_vec()
}

/// Calls deoxys: `DeoxysII256::new(key).encrypt(nonce, Payload { msg: plaintext, aad })`.
/// Claims what the source shows: encryption always succeeds and yields the named
/// ciphertext, 16 bytes longer than the plaintext; and, by the AEAD contract, that
/// decrypting it with the same key, nonce and associated data gives the plaintext back.
#[verifier::external_body]
pub(crate) fn deoxys_ii_encrypt(
    key: &[u8; 32],
    nonce: &[u8; 15],
    aad: &[u8],
    plaintext: &[u8],
) -> (sealed: Result<Vec<u8>, deoxys::Error>)
    ensures
        sealed is Ok,
        sealed matches Ok(c) ==> {
            &&& c@ == deoxys_ii_seal(key@, nonce@, aad@, plaintext@)
            &&& c@.len() == plaintext@.len() + 16
            &&& deoxys_ii_open(key@, nonce@, aad@, c@) == Some(plaintext@)
        },
{
    let payload = Payload { msg: plaintext, aad };
    DeoxysII256::new(&(*key).into()).encrypt(&(*nonce).into(), payload)
}

/// Calls deoxys: `DeoxysII256::new(key).decrypt(nonce, Payload { msg: ciphertext, aad })`.
/// Claims that the outcome is the named function of its inputs, and what the source
/// shows: a ciphertext shorter than the 16-byte tag is refused, and a plaintext is the
/// ciphertext without its tag, 16 bytes shorter.
#[verifier::external_body]
pub(crate) fn deoxys_ii_decrypt(
    key: &[u8; 32],
    nonce: &[u8; 15],
    aad: &[u8],
    ciphertext: &[u8],
) -> (opened: Result<Vec<u8>, deoxys::Error>)
    ensures
        opened matches Ok(m) ==> deoxys_ii_open(key@, nonce@, aad@, ciphertext@) == Some(m@),
        opened matches Ok(m) ==> m@.len() + 16 == ciphertext@.len(),
        opened is Err ==> deoxys_ii_open(key@, nonce@, aad@, ciphertext@) is None,
        ciphertext@.len() < 16 ==> opened is Err,
{
    let payload = Payload { msg: ciphertext, aad };
    DeoxysII256::new(&(*key).into()).decrypt(&(*nonce).into(), payload)
}

/// Calls rand: `OsRng.fill_bytes(buf)`. The bytes come from the operating system,
/// so nothing is claimed of them (it panics only if the OS source fails).
#[verifier::external_body]
pub(crate) fn fill_random<const N: usize>(buf: &mut [u8; N]) {
    rand::rngs::OsRng.fill_bytes(buf)
}

} // verus!
