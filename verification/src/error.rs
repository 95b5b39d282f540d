//! The errors that the library returns.

use vstd::prelude::*;

verus! {

/// The result of an operation that can fail.
pub type Res<T> = Result<T, Error>;

/// What can go wrong in the HPKE protocol itself.
#[derive(Clone, Copy, Debug, PartialEq, Eq, Structural)]
pub enum HpkeError {
    /// The context has processed as many messages as its counter can number.
    MessageLimitReached,
    /// A ciphertext did not authenticate.
    OpenError,
    /// A plaintext or its associated data is too long to seal.
    SealError,
    /// More bytes were asked of the KDF than it can give.
    KdfOutputTooLong,
    /// An input value is not valid.
    ValidationError,
    /// Encapsulation failed.
    EncapError,
    /// Decapsulation failed.
    DecapError,
    /// An input has the wrong length: first the expected length, then the given one.
    IncorrectInputLength(usize, usize),
    /// A preshared key lacks its identifier, or the identifier its key.
    InvalidPskBundle,
}

/// An error of this library.
#[derive(Debug)]
pub enum Error {
    /// A problem within HPKE.
    Hpke(HpkeError),
    /// The algorithms are not supported, or a key does not suit them.
    InvalidKeyType,
    /// A PEM document could not be read.
    Pem(pem::PemError),
    /// A PKCS#8 document could not be read.
    Pkcs8(pkcs8::Error),
    /// A private key could not be written as PKCS#8.
    PrivateKeySerialize(pkcs8::der::Error),
    /// A ciphertext is too short to hold an authentication tag.
    Truncated,
}

} // verus!
