//! X25519 keys and the errors of HPKE, as the `hpke` crate has them.
//!
//! The functions of this module call that crate, with randomness from the `rand` crate; their
//! contracts are trusted. Keys and encapsulated secrets go in and come out as bytes.

use crate::error::HpkeError;
use hpke::kem::X25519HkdfSha256;
use hpke::{Deserializable, HpkeError as OutsideError, Serializable};
use vstd::prelude::*;

verus! {

/// An error of the `hpke` crate.
#[verifier::external_type_specification]
#[verifier::external_body]
pub struct ExHpkeError(OutsideError);

/// Which error a value of the `hpke` crate's error type is.
pub uninterp spec fn hpke_error(error: OutsideError) -> HpkeError;

/// Tells the variants of `hpke::HpkeError` apart.
#[verifier::external_body]
pub(crate) fn classify(error: OutsideError) -> (class: HpkeError)
    ensures
        class == hpke_error(error),
{
    match error {
        OutsideError::MessageLimitReached => HpkeError::MessageLimitReached,
        OutsideError::OpenError => HpkeError::OpenError,
        OutsideError::SealError => HpkeError::SealError,
        OutsideError::KdfOutputTooLong => HpkeError::KdfOutputTooLong,
        OutsideError::ValidationError => HpkeError::ValidationError,
        OutsideError::EncapError => HpkeError::EncapError,
        OutsideError::DecapError => HpkeError::DecapError,
        OutsideError::IncorrectInputLength(expected, given) => {
            HpkeError::IncorrectInputLength(expected, given)
        },
        OutsideError::InvalidPskBundle => HpkeError::InvalidPskBundle,
    }
}

/// The X25519 public key of a private key.
pub uninterp spec fn x25519_public(sk: Seq<u8>) -> Seq<u8>;

/// Whether some private key has this public key.
pub open spec fn is_x25519_public(pk: Seq<u8>) -> bool {
    exists|sk: Seq<u8>| sk.len() == 32 && #[trigger] x25519_public(sk) == pk
}

/// Calls `from_bytes` of the public key of `X25519HkdfSha256`: it takes any 32 bytes as they are,
/// and refuses every other length.
#[verifier::external_body]
pub(crate) fn public_from_bytes(bytes: &[u8]) -> (key: Result<[u8; 32], OutsideError>)
    ensures
        match key {
            Ok(key) => bytes@.len() == 32 && key@ == bytes@,
            Err(error) => bytes@.len() != 32 && hpke_error(error)
                == HpkeError::IncorrectInputLength(32, bytes@.len() as usize),
        },
{
    <X25519HkdfSha256 as hpke::Kem>::PublicKey::from_bytes(bytes).map(|key| key.to_bytes().into())
}

/// Calls `from_bytes` of the private key of `X25519HkdfSha256`: it takes any 32 bytes as they are,
/// and refuses every other length.
#[verifier::external_body]
pub(crate) fn private_from_bytes(bytes: &[u8]) -> (key: Result<[u8; 32], OutsideError>)
    ensures
        match key {
            Ok(key) => bytes@.len() == 32 && key@ == bytes@,
            Err(error) => bytes@.len() != 32 && hpke_error(error)
                == HpkeError::IncorrectInputLength(32, bytes@.len() as usize),
        },
{
    <X25519HkdfSha256 as hpke::Kem>::PrivateKey::from_bytes(bytes).map(|key| key.to_bytes().into())
}

/// Calls `from_bytes` of the encapsulated key of `X25519HkdfSha256`: it takes any 32 bytes as they
/// are, and refuses every other length.
#[verifier::external_body]
pub(crate) fn encapped_from_bytes(bytes: &[u8]) -> (key: Result<[u8; 32], OutsideError>)
    ensures
        match key {
            Ok(key) => bytes@.len() == 32 && key@ == bytes@,
            Err(error) => bytes@.len() != 32 && hpke_error(error)
                == HpkeError::IncorrectInputLength(32, bytes@.len() as usize),
        },
{
    <X25519HkdfSha256 as hpke::Kem>::EncappedKey::from_bytes(bytes).map(|key| key.to_bytes().into())
}

/// Calls `sk_to_pk` of `X25519HkdfSha256`. The public key is named by [`x25519_public`].
#[verifier::external_body]
pub(crate) fn public_of(sk: &[u8; 32]) -> (pk: [u8; 32])
    ensures
        pk@ == x25519_public(sk@),
{
    let sk = <X25519HkdfSha256 as hpke::Kem>::PrivateKey::from_bytes(sk).unwrap();
    <X25519HkdfSha256 as hpke::Kem>::sk_to_pk(&sk).to_bytes().into()
}

/// The private key that keying material gives.
pub uninterp spec fn derived_private(ikm: Seq<u8>) -> Seq<u8>;

/// Calls `derive_keypair` of `X25519HkdfSha256`. The private key is named by
/// [`derived_private`], and the public key is the one that belongs to it.
#[verifier::external_body]
pub(crate) fn derive_pair(ikm: &[u8]) -> (pair: ([u8; 32], [u8; 32]))
    ensures
        pair.0@ == derived_private(ikm@),
        pair.1@ == x25519_public(pair.0@),
{
    let (sk, pk) = <X25519HkdfSha256 as hpke::Kem>::derive_keypair(ikm);
    (sk.to_bytes().into(), pk.to_bytes().into())
}

/// Whether some 32 bytes of keying material give this private key.
pub open spec fn is_derived_private(sk: Seq<u8>) -> bool {
    exists|ikm: Seq<u8>| ikm.len() == 32 && #[trigger] derived_private(ikm) == sk
}

/// Calls `gen_keypair` of `X25519HkdfSha256` with the generator of `rand::rng`. The pair is what
/// `derive_keypair` makes of some 32 bytes; nothing is said of which.
#[verifier::external_body]
pub(crate) fn generate_pair() -> (pair: ([u8; 32], [u8; 32]))
    ensures
        is_derived_private(pair.0@),
        pair.1@ == x25519_public(pair.0@),
{
    let (sk, pk) = <X25519HkdfSha256 as hpke::Kem>::gen_keypair(&mut rand::rng());
    (sk.to_bytes().into(), pk.to_bytes().into())
}

} // verus!
