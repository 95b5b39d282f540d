//! The contexts of the `hpke` crate for ChaCha20-Poly1305.
//!
//! The functions of this module call that crate, with randomness from the `rand` crate; their
//! contracts are trusted. Keys and encapsulated secrets go in and come out as bytes.

use crate::config::Aead;
use crate::error::HpkeError;
use crate::session::{EXPORT_LIMIT, MESSAGE_LIMIT, TAG_LEN};
use hpke::aead::{AeadCtxR, AeadCtxS, AeadTag, ChaCha20Poly1305};
use hpke::kdf::HkdfSha256;
use hpke::kem::X25519HkdfSha256;
use hpke::{Deserializable, HpkeError as OutsideError, OpModeR, OpModeS, Serializable};
use vstd::prelude::*;

verus! {

/// The context of a sender.
#[verifier::external_body]
pub struct Sender(Box<AeadCtxS<ChaCha20Poly1305, HkdfSha256, X25519HkdfSha256>>);

/// The secrets that a sender's context holds, and the number of messages that it has sealed.
pub uninterp spec fn sender_state(context: Sender) -> (Seq<u8>, nat);

/// The context of a receiver.
#[verifier::external_body]
pub struct Receiver(Box<AeadCtxR<ChaCha20Poly1305, HkdfSha256, X25519HkdfSha256>>);

/// The secrets that a receiver's context holds, and the number of messages that it has opened.
pub uninterp spec fn receiver_state(context: Receiver) -> (Seq<u8>, nat);

/// Calls `hpke::setup_sender` with the generator of `rand::rng`, in base mode, or in auth mode
/// with the sender's private and public key. The secrets are those that `sender_secret` names for
/// some ephemeral key, whose public key is the encapsulated secret; which one is left to chance.
/// Where the sender's keys are a pair, a receiver that holds the private key of `pk_r` derives the
/// same secrets. It does not fail on the public key of a private key: clamped scalars are not
/// zero in the group that the base point generates, so neither is the product of two of them.
#[verifier::external_body]
pub(crate) fn setup_sender(
    sender: Option<(&[u8; 32], &[u8; 32])>,
    pk_r: &[u8; 32],
    info: &[u8],
) -> (result: Result<([u8; 32], Sender), OutsideError>)
    ensures
        match result {
            Ok((enc, context)) => {
                let (secret, messages) = sender_state(context);
                let pair = crate::session::pair_bytes(sender);
                &&& messages == 0
                &&& crate::session::encapsulated(
                    Aead::ChaCha20Poly1305,
                    pair,
                    pk_r@,
                    info@,
                    enc@,
                    secret,
                )
                &&& crate::session::is_pair(pair) ==> crate::session::decapsulates(
                    Aead::ChaCha20Poly1305,
                    pair,
                    pk_r@,
                    info@,
                    enc@,
                    secret,
                )
            },
            Err(error) => {
                &&& crate::primitives::hpke_error(error) == HpkeError::EncapError
                &&& exists|ephemeral: Seq<u8>|
                    ephemeral.len() == 32 && #[trigger] crate::session::sender_secret(
                        Aead::ChaCha20Poly1305,
                        crate::session::pair_bytes(sender),
                        pk_r@,
                        info@,
                        ephemeral,
                    ) is None
                &&& !crate::primitives::is_x25519_public(pk_r@)
            },
        },
{
    let mode = match sender {
        Some((sk, pk)) => {
            OpModeS::Auth((Deserializable::from_bytes(sk)?, Deserializable::from_bytes(pk)?))
        },
        None => OpModeS::Base,
    };
    let pk_r = Deserializable::from_bytes(pk_r)?;
    let (enc, context) = hpke::setup_sender::<ChaCha20Poly1305, HkdfSha256, X25519HkdfSha256, _>(
        &mode,
        &pk_r,
        info,
        &mut rand::rng(),
    )?;
    Ok((enc.to_bytes().into(), Sender(Box::new(context))))
}

/// Calls `hpke::setup_receiver`, in base mode, or in auth mode with the sender's public key.
/// Whether it succeeds, and which secrets it derives, is named by `receiver_secret`.
#[verifier::external_body]
pub(crate) fn setup_receiver(
    pk_s: Option<&[u8; 32]>,
    sk_r: &[u8; 32],
    enc: &[u8; 32],
    info: &[u8],
) -> (result: Result<Receiver, OutsideError>)
    ensures
        ({
            let derived = crate::session::receiver_secret(
                Aead::ChaCha20Poly1305,
                crate::session::key_bytes(pk_s),
                sk_r@,
                enc@,
                info@,
            );
            match result {
                Ok(context) => derived == Some(receiver_state(context).0) && receiver_state(
                    context,
                ).1 == 0,
                Err(error) => derived is None && crate::primitives::hpke_error(error)
                    == HpkeError::DecapError,
            }
        }),
{
    let mode = match pk_s {
        Some(pk) => OpModeR::Auth(Deserializable::from_bytes(pk)?),
        None => OpModeR::Base,
    };
    let sk_r = Deserializable::from_bytes(sk_r)?;
    let enc = Deserializable::from_bytes(enc)?;
    let context = hpke::setup_receiver(&mode, &sk_r, &enc, info)?;
    Ok(Receiver(Box::new(context)))
}

/// Calls `AeadCtxS::seal_in_place_detached`. It fails when the message counter has run out or a
/// length is beyond what the cipher takes, and the context is then as before. Otherwise the
/// ciphertext, in place of the plaintext, and the tag are named by `hpke_sealed`,
/// `AeadCtxR::open_in_place_detached` gets the plaintext back from them on a receiver's context in
/// the same state, and one more message has been sealed. The text is as before when the counter
/// has run out; what it holds after the other failure is left open.
#[verifier::external_body]
pub(crate) fn seal(
    context: &mut Sender,
    text: &mut [u8],
    aad: &[u8],
) -> (result: Result<Vec<u8>, OutsideError>)
    requires
        crate::session::processable(Aead::ChaCha20Poly1305, old(text)@.len()),
    ensures
        final(text)@.len() == old(text)@.len(),
        ({
            let (secret, messages) = sender_state(*old(context));
            match result {
                Ok(tag) => {
                    &&& messages < MESSAGE_LIMIT
                    &&& crate::session::sealable(
                        Aead::ChaCha20Poly1305,
                        aad@.len(),
                        old(text)@.len(),
                    )
                    &&& tag@.len() == TAG_LEN
                    &&& final(text)@ + tag@ == crate::session::hpke_sealed(
                        Aead::ChaCha20Poly1305,
                        secret,
                        messages,
                        aad@,
                        old(text)@,
                    )
                    &&& crate::session::hpke_opened(
                        Aead::ChaCha20Poly1305,
                        secret,
                        messages,
                        aad@,
                        final(text)@,
                        tag@,
                    ) == Some(old(text)@)
                    &&& sender_state(*final(context)) == (secret, messages + 1)
                },
                Err(error) => {
                    &&& sender_state(*final(context)) == (secret, messages)
                    &&& if messages >= MESSAGE_LIMIT {
                        &&& crate::primitives::hpke_error(error) == HpkeError::MessageLimitReached
                        &&& final(text)@ == old(text)@
                    } else {
                        &&& !crate::session::sealable(
                            Aead::ChaCha20Poly1305,
                            aad@.len(),
                            old(text)@.len(),
                        )
                        &&& crate::primitives::hpke_error(error) == HpkeError::SealError
                    }
                },
            }
        }),
{
    context.0.seal_in_place_detached(text, aad).map(|tag| tag.to_bytes().to_vec())
}

/// Calls `AeadCtxR::open_in_place_detached`. It fails when the message counter has run out or the
/// tag does not authenticate the text, and the context is then as before. Otherwise the plaintext
/// stands in place of the ciphertext and one more message has been opened. Which inputs
/// authenticate, and the plaintext, is named by `hpke_opened`. The text is as before when the
/// counter has run out; what it holds after the other failure is left open.
#[verifier::external_body]
pub(crate) fn open(
    context: &mut Receiver,
    text: &mut [u8],
    aad: &[u8],
    tag: &[u8],
) -> (result: Result<(), OutsideError>)
    requires
        tag@.len() == TAG_LEN,
        crate::session::processable(Aead::ChaCha20Poly1305, old(text)@.len()),
    ensures
        final(text)@.len() == old(text)@.len(),
        ({
            let (secret, messages) = receiver_state(*old(context));
            let opened = crate::session::hpke_opened(
                Aead::ChaCha20Poly1305,
                secret,
                messages,
                aad@,
                old(text)@,
                tag@,
            );
            match result {
                Ok(()) => {
                    &&& messages < MESSAGE_LIMIT
                    &&& opened == Some(final(text)@)
                    &&& receiver_state(*final(context)) == (secret, messages + 1)
                },
                Err(error) => {
                    &&& receiver_state(*final(context)) == (secret, messages)
                    &&& if messages >= MESSAGE_LIMIT {
                        &&& crate::primitives::hpke_error(error) == HpkeError::MessageLimitReached
                        &&& final(text)@ == old(text)@
                    } else {
                        &&& opened is None
                        &&& crate::primitives::hpke_error(error) == HpkeError::OpenError
                    }
                },
            }
        }),
{
    let tag = AeadTag::<ChaCha20Poly1305>::from_bytes(tag)?;
    context.0.open_in_place_detached(text, aad, &tag)
}

/// Calls `AeadCtxS::export`. It fails on more than 255 times the size of a SHA-256 digest, and
/// otherwise fills the buffer with the bytes that `hpke_exported` names. A failure leaves the
/// buffer as it was.
#[verifier::external_body]
pub(crate) fn export_sender(
    context: &Sender,
    info: &[u8],
    out: &mut [u8],
) -> (result: Result<(), OutsideError>)
    ensures
        final(out)@.len() == old(out)@.len(),
        match result {
            Ok(()) => old(out)@.len() <= EXPORT_LIMIT && final(out)@
                == crate::session::hpke_exported(
                Aead::ChaCha20Poly1305,
                sender_state(*context).0,
                info@,
                old(out)@.len(),
            ),
            Err(error) => {
                &&& old(out)@.len() > EXPORT_LIMIT
                &&& crate::primitives::hpke_error(error) == HpkeError::KdfOutputTooLong
                &&& final(out)@ == old(out)@
            },
        },
{
    context.0.export(info, out)
}

/// Calls `AeadCtxR::export`. It fails on more than 255 times the size of a SHA-256 digest, and
/// otherwise fills the buffer with the bytes that `hpke_exported` names. A failure leaves the
/// buffer as it was.
#[verifier::external_body]
pub(crate) fn export_receiver(
    context: &Receiver,
    info: &[u8],
    out: &mut [u8],
) -> (result: Result<(), OutsideError>)
    ensures
        final(out)@.len() == old(out)@.len(),
        match result {
            Ok(()) => old(out)@.len() <= EXPORT_LIMIT && final(out)@
                == crate::session::hpke_exported(
                Aead::ChaCha20Poly1305,
                receiver_state(*context).0,
                info@,
                old(out)@.len(),
            ),
            Err(error) => {
                &&& old(out)@.len() > EXPORT_LIMIT
                &&& crate::primitives::hpke_error(error) == HpkeError::KdfOutputTooLong
                &&& final(out)@ == old(out)@
            },
        },
{
    context.0.export(info, out)
}

} // verus!
