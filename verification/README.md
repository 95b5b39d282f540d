# ohttp-hpke

Hybrid public key encryption (RFC 9180) in base and auth mode, with X25519, HKDF-SHA256 and
AES-128-GCM or ChaCha20-Poly1305. The cryptography is that of the `hpke` crate; this library
decides which algorithms to use, frames messages, maps errors, and reads and writes keys. It is
verified with Verus.

- `src/config.rs`, `src/error.rs`: algorithm identifiers, configurations and errors.
- `src/keys.rs`: keys, key pairs and their PKCS#8 PEM form.
- `src/session.rs`: the model of a context, over which the contracts are stated.
- `src/crypto.rs`: the traits `Encrypt`, `Decrypt` and `Exporter`.
- `src/context.rs`, `src/sender.rs`, `src/receiver.rs`: contexts, senders and receivers.
- `src/laws.rs`: what holds of the library as a whole.
- `src/encoding.rs`, `src/primitives.rs`, `src/aes_gcm.rs`, `src/chacha20.rs`: the calls into other
  crates, with contracts that are trusted.
- `app/`: debug output of keys, and logging.
