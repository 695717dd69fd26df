//! The decisions of an Ethereum signer whose key is held in Amazon AWS KMS.
//!
//! AWS KMS keys are identified by a `key_id`. The signer passes signing requests to the
//! cloud service; the requests, the digests to sign and the way a timed-out request is
//! reported are decided here, while the calls to the service are made by the caller.
use vstd::prelude::*;
use core::time::Duration;
use crate::primitives::{decimal_digits, eip191_envelope, eip191_hash_message, keccak256, keccak256_digest};

verus! {

/// `Duration` is `Copy`: std documents that cloning a `Copy` value copies it.
pub assume_specification[ <Duration as Clone>::clone ](d: &Duration) -> (res: Duration)
    ensures
        res == *d,
;

/// Errors produced by the AwsSigner; each carries the description of the error that
/// caused it, or the timeout that elapsed.
#[derive(Debug, Clone)]
pub enum AwsSignerError {
    SignError(String),
    GetPublicKeyError(String),
    K256(String),
    Spki(String),
    Other(String),
    /// Error when converting from a hex string
    HexError(String),
    /// Error type from Eip712Error message
    Eip712Error(String),
    Timeout(Duration),
}

impl From<String> for AwsSignerError {
    fn from(s: String) -> (e: Self)
        ensures
            e == AwsSignerError::Other(s),
    {
        AwsSignerError::Other(s)
    }
}

impl vstd::std_specs::convert::FromSpecImpl<String> for AwsSignerError {
    open spec fn obeys_from_spec() -> bool {
        true
    }

    open spec fn from_spec(s: String) -> Self {
        AwsSignerError::Other(s)
    }
}

/// How a request to the service ended, as its caller observed it.
pub enum TimedOutcome<T> {
    /// The request finished before the timeout, with this result.
    Finished(Result<T, AwsSignerError>),
    /// The timeout elapsed first.
    Elapsed,
}

/// Runs the outcome of a request with an optional timeout into the signer's result:
/// a finished request gives its own result, an elapsed one the timeout error.
/// A request without a timeout cannot elapse.
pub fn with_timeout<T>(t: Option<Duration>, outcome: TimedOutcome<T>) -> (result: Result<T, AwsSignerError>)
    requires
        outcome is Elapsed ==> t is Some,
    ensures
        match outcome {
            TimedOutcome::Finished(r) => result == r,
            TimedOutcome::Elapsed => result == Err::<T, AwsSignerError>(AwsSignerError::Timeout(t->0)),
        },
{
    match outcome {
        TimedOutcome::Finished(r) => r,
        TimedOutcome::Elapsed => match t {
            Some(duration) => Err(AwsSignerError::Timeout(duration)),
            None => {
                proof {
                    assert(false);
                }
                Err(AwsSignerError::Other(String::new()))
            },
        },
    }
}

/// A request for the public key of a KMS key (without grant tokens).
#[derive(Debug, Clone)]
pub struct PublicKeyRequest {
    pub key_id: String,
}

/// A request to sign a digest with a KMS key (without grant tokens).
#[derive(Debug, Clone)]
pub struct SignDigestRequest {
    pub key_id: String,
    pub message: Vec<u8>,
    pub message_type: Option<String>,
    pub signing_algorithm: String,
}

/// The request for the public key associated with `key_id`.
pub fn request_get_pubkey(key_id: &str) -> (req: PublicKeyRequest)
    ensures
        req.key_id@ == key_id@,
{
    PublicKeyRequest { key_id: key_id.to_owned() }
}

/// The request to sign `digest` with the key `key_id`: the message is the digest
/// itself, of type `DIGEST`, signed with `ECDSA_SHA_256`.
pub fn request_sign_digest(key_id: &str, digest: [u8; 32]) -> (req: SignDigestRequest)
    ensures
        req.key_id@ == key_id@,
        req.message@ == digest@,
        req.message_type matches Some(t) && t@ == "DIGEST"@,
        req.signing_algorithm@ == "ECDSA_SHA_256"@,
{
    let mut message: Vec<u8> = Vec::new();
    crate::bytes::append_bytes(&mut message, digest.as_slice());
    SignDigestRequest {
        key_id: key_id.to_owned(),
        message,
        message_type: Some(String::from_str("DIGEST")),
        signing_algorithm: String::from_str("ECDSA_SHA_256"),
    }
}

/// A digest to sign, and the chain id whose EIP-155 `v` value the signature gets.
#[derive(Debug, Clone, Copy)]
pub struct Eip155Signing {
    pub digest: [u8; 32],
    pub chain_id: u64,
}

/// The Ethereum address of a public key given in uncompressed SEC1 form (`0x04 || x || y`):
/// the last 20 bytes of the keccak256 hash of the key without its first byte.
pub open spec fn ethereum_address(pubkey: Seq<u8>) -> Seq<u8> {
    keccak256(pubkey.subrange(1, pubkey.len() as int)).subrange(12, 32)
}

/// The number that a string of ASCII decimal digits spells.
pub open spec fn digits_value(digits: Seq<u8>) -> nat
    decreases digits.len(),
{
    if digits.len() == 0 {
        0
    } else {
        digits_value(digits.drop_last()) * 10 + (digits.last() - 48) as nat
    }
}

/// The length written into an EIP-191 envelope is the message's length in decimal: ASCII
/// digits that spell it, without a leading zero.
pub proof fn lemma_decimal_digits_spell_the_number(n: nat)
    ensures
        decimal_digits(n).len() >= 1,
        forall|i: int| 0 <= i < decimal_digits(n).len() ==> 48 <= #[trigger] decimal_digits(n)[i] <= 57,
        digits_value(decimal_digits(n)) == n,
        n > 0 ==> decimal_digits(n)[0] != 48,
    decreases n,
{
    let d = decimal_digits(n);
    if n >= 10 {
        lemma_decimal_digits_spell_the_number(n / 10);
        assert(d.drop_last() =~= decimal_digits(n / 10));
        assert(d[0] == decimal_digits(n / 10)[0]);
        assert(n % 10 < 10);
        assert(d.last() == (48 + n % 10) as u8);
        assert(d.last() - 48 == n % 10);
        assert((n / 10) * 10 + n % 10 == n) by (nonlinear_arith);
        assert(digits_value(d) == digits_value(d.drop_last()) * 10 + (d.last() - 48) as nat);
        assert(digits_value(d.drop_last()) == n / 10);
    } else {
        assert(d.drop_last() =~= Seq::<u8>::empty());
        assert(d.last() - 48 == n);
        assert(digits_value(d) == digits_value(d.drop_last()) * 10 + (d.last() - 48) as nat);
    }
}

/// The EIP-191 envelope of a message is the 26 bytes of
/// `"\x19Ethereum Signed Message:\n"`, then the decimal length, then the message itself.
pub proof fn lemma_eip191_envelope_layout(message: Seq<u8>)
    ensures
        eip191_envelope(message).len() == 26 + decimal_digits(message.len()).len() + message.len(),
        eip191_envelope(message)[0] == 0x19,
        eip191_envelope(message).subrange(1, 26) == seq![69u8, 116, 104, 101, 114, 101, 117, 109, 32, 83, 105, 103, 110, 101, 100, 32, 77, 101, 115, 115, 97, 103, 101, 58, 10],
        eip191_envelope(message).subrange(26, (26 + decimal_digits(message.len()).len()) as int) == decimal_digits(
            message.len(),
        ),
        eip191_envelope(message).subrange(
            (eip191_envelope(message).len() - message.len()) as int,
            eip191_envelope(message).len() as int,
        ) == message,
{
    let e = eip191_envelope(message);
    let k = decimal_digits(message.len()).len();
    assert(e.subrange(1, 26) =~= seq![69u8, 116, 104, 101, 114, 101, 117, 109, 32, 83, 105, 103, 110, 101, 100, 32, 77, 101, 115, 115, 97, 103, 101, 58, 10]);
    assert(e.subrange(26, (26 + k) as int) =~= decimal_digits(message.len()));
    assert(e.subrange((e.len() - message.len()) as int, e.len() as int) =~= message);
}

/// The address of an uncompressed key is the last 20 bytes of the keccak256 hash of its
/// 64 coordinate bytes `x || y`, whatever they are: the tag byte in front never enters
/// the hash, so two keys with the same coordinates have the same address.
pub proof fn lemma_address_hashes_the_coordinates(pubkey: Seq<u8>, other: Seq<u8>)
    requires
        pubkey.len() == 65,
        other.len() == 65,
    ensures
        ethereum_address(pubkey) == keccak256(pubkey.subrange(1, 65)).subrange(12, 32),
        pubkey.subrange(1, 65) == other.subrange(1, 65) ==> ethereum_address(pubkey) == ethereum_address(other),
{
}

/// The Ethereum address of a public key in uncompressed SEC1 form.
pub fn verifying_key_to_address(pubkey: &[u8; 65]) -> (address: [u8; 20])
    ensures
        address@ == ethereum_address(pubkey@),
        address@ == keccak256(pubkey@.subrange(1, 65)).subrange(12, 32),
{
    let key = crate::bytes::copy_range(pubkey.as_slice(), 1, 65);
    let hash = keccak256_digest(key.as_slice());
    let mut address = [0u8; 20];
    let mut i: usize = 0;
    while i < 20
        invariant
            i <= 20,
            hash@.len() == 32,
            address@.len() == 20,
            forall|j: int| 0 <= j < i ==> address@[j] == hash@[j + 12],
        decreases 20 - i,
    {
        address[i] = hash[i + 12];
        i = i + 1;
    }
    assert(address@ =~= hash@.subrange(12, 32));
    address
}

/// An Ethereum signature: `r` and `s` as 32 big-endian bytes each, and `v`.
#[derive(Debug, Clone, Copy)]
pub struct EthSignature {
    pub r: [u8; 32],
    pub s: [u8; 32],
    pub v: u64,
}

/// The Ethereum signature of a recoverable secp256k1 signature given as its 65 bytes
/// (`r || s || recovery id`): `v` is the recovery id plus 27.
pub fn rsig_to_ethsig(sig: &[u8; 65]) -> (eth_sig: EthSignature)
    ensures
        eth_sig.r@ == sig@.subrange(0, 32),
        eth_sig.s@ == sig@.subrange(32, 64),
        eth_sig.v == sig@[64] + 27,
{
    let mut r = [0u8; 32];
    let mut s = [0u8; 32];
    let mut i: usize = 0;
    while i < 32
        invariant
            i <= 32,
            r@.len() == 32,
            s@.len() == 32,
            forall|j: int| 0 <= j < i ==> r@[j] == sig@[j] && s@[j] == sig@[j + 32],
        decreases 32 - i,
    {
        r[i] = sig[i];
        s[i] = sig[i + 32];
        i = i + 1;
    }
    assert(r@ =~= sig@.subrange(0, 32));
    assert(s@ =~= sig@.subrange(32, 64));
    EthSignature { r, s, v: sig[64] as u64 + 27 }
}

/// Replaces the `v` value of a signature (27 plus the recovery id) by its EIP-155 form
/// for `chain_id`: the recovery id plus `chain_id * 2 + 35`.
pub fn apply_eip155(sig: &mut EthSignature, chain_id: u64)
    requires
        old(sig).v >= 27,
        old(sig).v - 27 + chain_id * 2 + 35 <= u64::MAX,
    ensures
        final(sig).v == old(sig).v - 27 + chain_id * 2 + 35,
        final(sig).r == old(sig).r,
        final(sig).s == old(sig).s,
{
    sig.v = (sig.v - 27) + (chain_id * 2 + 35);
}

/// An Ethers signer that uses a key held in Amazon AWS KMS: the key id, the public key
/// and Ethereum address read from the service when the signer was made, the chain id,
/// and the timeout of requests.
#[derive(Debug, Clone)]
pub struct AwsSigner {
    chain_id: u64,
    key_id: String,
    pubkey: [u8; 65],
    address: [u8; 20],
    timeout: Option<Duration>,
}

impl AwsSigner {
    /// The signer for the key `key_id`, whose public key (uncompressed SEC1 bytes) was
    /// retrieved from the service; its Ethereum address is derived from that key.
    pub fn new(key_id: &str, chain_id: u64, timeout: Option<Duration>, pubkey: [u8; 65]) -> (signer: AwsSigner)
        ensures
            signer.key_id_spec() == key_id@,
            signer.chain_id_spec() == chain_id,
            signer.timeout_spec() == timeout,
            signer.pubkey_spec() == pubkey@,
            signer.address_spec()@ == ethereum_address(pubkey@),
            signer.address_spec()@ == keccak256(pubkey@.subrange(1, 65)).subrange(12, 32),
    {
        let address = verifying_key_to_address(&pubkey);
        AwsSigner { chain_id, key_id: key_id.to_owned(), pubkey, address, timeout }
    }

    pub closed spec fn chain_id_spec(&self) -> u64 {
        self.chain_id
    }

    pub closed spec fn key_id_spec(&self) -> Seq<char> {
        self.key_id@
    }

    pub closed spec fn pubkey_spec(&self) -> Seq<u8> {
        self.pubkey@
    }

    pub closed spec fn address_spec(&self) -> [u8; 20] {
        self.address
    }

    pub closed spec fn timeout_spec(&self) -> Option<Duration> {
        self.timeout
    }

    /// The key id of the signer's KMS key.
    pub fn key_id(&self) -> (key_id: &str)
        ensures
            key_id@ == self.key_id_spec(),
    {
        self.key_id.as_str()
    }

    /// The public key of the signer's KMS key, as uncompressed SEC1 bytes.
    pub fn pubkey(&self) -> (pubkey: [u8; 65])
        ensures
            pubkey@ == self.pubkey_spec(),
    {
        self.pubkey
    }

    /// The timeout of the signer's requests.
    pub fn timeout(&self) -> (timeout: Option<Duration>)
        ensures
            timeout == self.timeout_spec(),
    {
        self.timeout
    }

    /// The signer's Ethereum address.
    pub fn address(&self) -> (address: [u8; 20])
        ensures
            address == self.address_spec(),
    {
        self.address
    }

    /// Returns the signer's chain id
    pub fn chain_id(&self) -> (chain_id: u64)
        ensures
            chain_id == self.chain_id_spec(),
    {
        self.chain_id
    }

    /// Sets the signer's chain id
    pub fn with_chain_id(self, chain_id: u64) -> (signer: Self)
        ensures
            signer.chain_id_spec() == chain_id,
            signer.key_id_spec() == self.key_id_spec(),
            signer.pubkey_spec() == self.pubkey_spec(),
            signer.address_spec() == self.address_spec(),
            signer.timeout_spec() == self.timeout_spec(),
    {
        let mut signer = self;
        signer.chain_id = chain_id;
        signer
    }

    /// The request for the public key associated with this signer's key ID.
    pub fn get_pubkey(&self) -> (req: PublicKeyRequest)
        ensures
            req.key_id@ == self.key_id_spec(),
    {
        request_get_pubkey(self.key_id.as_str())
    }

    /// The request to sign a digest with this signer's key.
    pub fn sign_digest(&self, digest: [u8; 32]) -> (req: SignDigestRequest)
        ensures
            req.key_id@ == self.key_id_spec(),
            req.message@ == digest@,
            req.message_type matches Some(t) && t@ == "DIGEST"@,
            req.signing_algorithm@ == "ECDSA_SHA_256"@,
    {
        request_sign_digest(self.key_id.as_str(), digest)
    }

    /// What signing a message means: signing the EIP-191 hash of the message, with
    /// the `v` value of the signer's chain id.
    pub fn sign_message(&self, message: &[u8]) -> (signing: Eip155Signing)
        ensures
            signing.digest@ == keccak256(eip191_envelope(message@)),
            signing.chain_id == self.chain_id_spec(),
    {
        Eip155Signing { digest: eip191_hash_message(message), chain_id: self.chain_id }
    }

    /// What signing a transaction means: signing its sighash, with the `v` value of
    /// the transaction's own chain id, or of the signer's when it has none.
    pub fn sign_transaction(&self, sighash: [u8; 32], tx_chain_id: Option<u64>) -> (signing: Eip155Signing)
        ensures
            signing.digest == sighash,
            signing.chain_id == match tx_chain_id {
                Some(id) => id,
                None => self.chain_id_spec(),
            },
    {
        let chain_id = match tx_chain_id {
            Some(id) => id,
            None => self.chain_id,
        };
        Eip155Signing { digest: sighash, chain_id }
    }
}

} // verus!
