//! Algorithm identifiers and the configuration of an HPKE context.

use vstd::prelude::*;

verus! {

/// A key encapsulation mechanism.
#[derive(Clone, Copy, Debug, PartialEq, Eq, Structural)]
pub enum Kem {
    /// DHKEM(X25519, HKDF-SHA256)
    X25519Sha256,
}

/// A key derivation function.
#[derive(Clone, Copy, Debug, PartialEq, Eq, Structural)]
pub enum Kdf {
    /// HKDF-SHA256
    HkdfSha256,
    /// HKDF-SHA384
    HkdfSha384,
    /// HKDF-SHA512
    HkdfSha512,
}

/// An authenticated encryption algorithm.
#[derive(Clone, Copy, Debug, PartialEq, Eq, Structural)]
pub enum Aead {
    /// AES-128-GCM
    Aes128Gcm,
    /// AES-256-GCM
    Aes256Gcm,
    /// ChaCha20-Poly1305
    ChaCha20Poly1305,
}

/// The algorithms that a [`Config`] names.
pub struct Suite {
    pub kem: Kem,
    pub kdf: Kdf,
    pub aead: Aead,
}

impl Suite {
    /// Whether contexts can be made for these algorithms.
    pub open spec fn supported(self) -> bool {
        self.kdf == Kdf::HkdfSha256 && (self.aead == Aead::Aes128Gcm || self.aead
            == Aead::ChaCha20Poly1305)
    }
}

/// Configuration for an HPKE context.
#[derive(Clone, Copy)]
pub struct Config {
    kem: Kem,
    kdf: Kdf,
    aead: Aead,
}

impl View for Config {
    type V = Suite;

    closed spec fn view(&self) -> Suite {
        Suite { kem: self.kem, kdf: self.kdf, aead: self.aead }
    }
}

impl Config {
    pub fn new(kem: Kem, kdf: Kdf, aead: Aead) -> (config: Self)
        ensures
            config@ == (Suite { kem, kdf, aead }),
    {
        Self { kem, kdf, aead }
    }

    pub fn kem(self) -> (kem: Kem)
        ensures
            kem == self@.kem,
    {
        self.kem
    }

    pub fn kdf(self) -> (kdf: Kdf)
        ensures
            kdf == self@.kdf,
    {
        self.kdf
    }

    pub fn aead(self) -> (aead: Aead)
        ensures
            aead == self@.aead,
    {
        self.aead
    }

    /// Whether contexts can be made for this configuration.
    pub fn supported(self) -> (supported: bool)
        ensures
            supported == self@.supported(),
            supported <==> self@.kdf == Kdf::HkdfSha256 && (self@.aead == Aead::Aes128Gcm
                || self@.aead == Aead::ChaCha20Poly1305),
    {
        self.kdf == Kdf::HkdfSha256 && matches!(self.aead, Aead::Aes128Gcm | Aead::ChaCha20Poly1305)
    }
}

impl Default for Config {
    fn default() -> (config: Self)
        ensures
            config@ == (Suite {
                kem: Kem::X25519Sha256,
                kdf: Kdf::HkdfSha256,
                aead: Aead::Aes128Gcm,
            }),
            config@.supported(),
    {
        Self { kem: Kem::X25519Sha256, kdf: Kdf::HkdfSha256, aead: Aead::Aes128Gcm }
    }
}

} // verus!
