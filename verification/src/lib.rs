//! Hybrid public key encryption (RFC 9180) in base and auth mode, over X25519.
//!
//! A sender ([`HpkeS`], [`AuthHpkeS`]) encapsulates a secret to the public key of a receiver
//! ([`HpkeR`], [`AuthHpkeR`]). After that both hold the same [`Session`]: the sender seals
//! messages, the receiver opens them in the same order, and both can export further secrets.

pub mod aes_gcm;
pub mod chacha20;
pub mod config;
mod context;
pub mod crypto;
pub mod encoding;
pub mod error;
pub mod keys;
pub mod laws;
pub mod primitives;
pub mod receiver;
pub mod sender;
pub mod session;

pub use config::{Aead, Config, Kdf, Kem, Suite};
pub use crypto::{Decrypt, Encrypt, Exporter, SymKey};
pub use error::{Error, HpkeError, Res};
pub use keys::{derive_key_pair, generate_key_pair, parse_key_pair, PrivateKey, PublicKey};
pub use receiver::{AuthHpkeR, HpkeR, ReceiverState};
pub use sender::{AuthHpkeS, HpkeS, SenderState};
pub use session::Session;
