# sigstore

Signing keys, signers and verification keys for Sigstore-style signatures,
with the key handling, encoding dispatch and signature checking proved in
Verus and the cryptography done by aws-lc-rs.

Layout of `src/`:

- `errors.rs`: the library's error type.
- `crypto/mod.rs`: signing schemes, signatures and verification algorithms.
- `crypto/encoding.rs`, `crypto/pem_codec.rs`, `crypto/spki.rs`: UTF-8,
  Base64, PEM, and X.509 / PKCS#8 structures, through their crates.
- `crypto/primitives.rs`: key parsing, generation, signing and verification
  through aws-lc-rs.
- `crypto/secret.rs`: key material that is wiped when dropped.
- `crypto/verification_key.rs`: `CosignVerificationKey`.
- `crypto/signing_key/`: the `KeyPair` and `Signer` traits, ECDSA, Ed25519
  and RSA key pairs and signers, and `SigStoreSigner`.

Outside calls sit behind small trusted functions whose contracts name what
the outside code returns; everything else is verified against those
contracts. `tests/` holds the tests.
