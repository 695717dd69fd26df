# ethers_confidential

Verified core of a set of ethers-rs extensions: transaction encryption for nodes that
accept encrypted call data, a nonce manager, a transformer middleware, EIP-1559 fee
estimation and an AWS KMS signer.

- `src/` — the library, verified with Verus.
  - `primitives.rs`: the outside cryptography (x25519-dalek, hmac/sha2, deoxys, rand,
    ethers-core hashing), each call behind a small trusted wrapper with its contract.
  - `derivation.rs`, `encryption.rs`, `lib.rs`: X25519 key agreement, HMAC-SHA256 key
    derivation, Deoxys-II envelopes (`nonce || aad || ciphertext`) and the ECDH
    encryption of call data and node responses.
  - `nonce_manager.rs`: the nonce manager's state and decisions, with its laws.
  - `gas_escalator.rs`: EIP-1559 fee estimation on 256-bit values held as limbs.
  - `aws_signer.rs`: the AWS signer's state, requests, digests and timeout handling.
  - `transformer.rs`: the transformer middleware's data.
  - `bytes.rs`: byte-buffer helpers.
- `app/` — the asynchronous, networked side (ethers-providers middlewares, the KMS
  client), calling the library.
- `tests/` — tests of the library on concrete values.
