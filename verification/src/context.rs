//! The contexts of a sender and of a receiver, over the algorithms that they can use.

use crate::config::{Aead, Config, Kdf, Kem};
use crate::crypto::tag_start;
use crate::error::{Error, Res};
use crate::primitives::{classify, encapped_from_bytes};
use crate::session::{Session, TAG_LEN};
use crate::{aes_gcm, chacha20};
use vstd::prelude::*;

verus! {

/// The context of a sender. The KEM is X25519 and the KDF is HKDF-SHA256.
pub(crate) enum SenderContext {
    AesGcm128(aes_gcm::Sender),
    ChaCha20Poly1305(chacha20::Sender),
}

impl SenderContext {
    /// The state of the context.
    pub(crate) open spec fn session(&self) -> Session {
        match self {
            SenderContext::AesGcm128(context) => {
                let (secret, messages) = aes_gcm::sender_state(*context);
                Session { aead: Aead::Aes128Gcm, secret, messages }
            },
            SenderContext::ChaCha20Poly1305(context) => {
                let (secret, messages) = chacha20::sender_state(*context);
                Session { aead: Aead::ChaCha20Poly1305, secret, messages }
            },
        }
    }

    /// Encapsulates to the receiver's key, in base mode, or in auth mode with the sender's private
    /// and public key. Returns the encapsulated secret and the context.
    pub(crate) fn setup(
        config: Config,
        sender: Option<(&[u8; 32], &[u8; 32])>,
        pk_r: &[u8; 32],
        info: &[u8],
    ) -> (result: Res<([u8; 32], SenderContext)>)
        requires
            crate::session::is_pair(crate::session::pair_bytes(sender)),
        ensures
            match result {
                Ok((enc, context)) => config@.supported() && context.session().established(
                    config@,
                    crate::session::pair_bytes(sender),
                    pk_r@,
                    info@,
                    enc@,
                ),
                Err(error) => crate::session::setup_refused(
                    config@,
                    crate::session::pair_bytes(sender),
                    pk_r@,
                    info@,
                    error,
                ),
            },
    {
        let result = match (config.kem(), config.kdf(), config.aead()) {
            (Kem::X25519Sha256, Kdf::HkdfSha256, Aead::Aes128Gcm) => {
                match aes_gcm::setup_sender(sender, pk_r, info) {
                    Ok((enc, context)) => Ok((enc, SenderContext::AesGcm128(context))),
                    Err(error) => Err(error),
                }
            },
            (Kem::X25519Sha256, Kdf::HkdfSha256, Aead::ChaCha20Poly1305) => {
                match chacha20::setup_sender(sender, pk_r, info) {
                    Ok((enc, context)) => Ok((enc, SenderContext::ChaCha20Poly1305(context))),
                    Err(error) => Err(error),
                }
            },
            _ => return Err(Error::InvalidKeyType),
        };
        match result {
            Ok(setup) => Ok(setup),
            Err(error) => Err(Error::Hpke(classify(error))),
        }
    }

    /// Seals the plaintext in place and returns the tag. The plaintext is left as it was when the
    /// message counter has run out.
    pub(crate) fn seal(&mut self, plaintext: &mut [u8], aad: &[u8]) -> (tag: Res<Vec<u8>>)
        requires
            crate::session::processable(old(self).session().aead, old(plaintext)@.len()),
        ensures
            final(plaintext)@.len() == old(plaintext)@.len(),
            old(self).session().exhausted() ==> final(plaintext)@ == old(plaintext)@,
            final(self).session() == old(self).session().after(tag is Ok),
            match tag {
                Ok(tag) => {
                    let sealed = final(plaintext)@ + tag@;
                    &&& tag@.len() == TAG_LEN
                    &&& old(self).session().seals(aad@, old(plaintext)@) == Ok::<_, Error>(sealed)
                    &&& old(self).session().opens(aad@, sealed) == Ok::<_, Error>(
                        old(plaintext)@,
                    )
                },
                Err(error) => old(self).session().seals(aad@, old(plaintext)@) == Err::<Seq<u8>, _>(
                    error,
                ),
            },
    {
        let result = match self {
            SenderContext::AesGcm128(context) => aes_gcm::seal(context, plaintext, aad),
            SenderContext::ChaCha20Poly1305(context) => chacha20::seal(context, plaintext, aad),
        };
        match result {
            Ok(tag) => {
                proof {
                    let sealed = plaintext@ + tag@;
                    assert(sealed.take(plaintext@.len() as int) =~= plaintext@);
                    assert(sealed.skip(plaintext@.len() as int) =~= tag@);
                }
                Ok(tag)
            },
            Err(error) => Err(Error::Hpke(classify(error))),
        }
    }

    /// Fills the buffer with an exported secret, or leaves it as it was.
    pub(crate) fn export(&self, info: &[u8], out_buf: &mut [u8]) -> (result: Res<()>)
        ensures
            final(out_buf)@.len() == old(out_buf)@.len(),
            match result {
                Ok(()) => self.session().exports(info@, old(out_buf)@.len()) == Ok::<_, Error>(
                    final(out_buf)@,
                ),
                Err(error) => {
                    &&& self.session().exports(info@, old(out_buf)@.len()) == Err::<Seq<u8>, _>(
                        error,
                    )
                    &&& final(out_buf)@ == old(out_buf)@
                },
            },
    {
        let result = match self {
            SenderContext::AesGcm128(context) => aes_gcm::export_sender(context, info, out_buf),
            SenderContext::ChaCha20Poly1305(context) => chacha20::export_sender(
                context,
                info,
                out_buf,
            ),
        };
        match result {
            Ok(()) => Ok(()),
            Err(error) => Err(Error::Hpke(classify(error))),
        }
    }
}

/// The context of a receiver. The KEM is X25519 and the KDF is HKDF-SHA256.
pub(crate) enum ReceiverContext {
    AesGcm128(aes_gcm::Receiver),
    ChaCha20Poly1305(chacha20::Receiver),
}

impl ReceiverContext {
    /// The state of the context.
    pub(crate) open spec fn session(&self) -> Session {
        match self {
            ReceiverContext::AesGcm128(context) => {
                let (secret, messages) = aes_gcm::receiver_state(*context);
                Session { aead: Aead::Aes128Gcm, secret, messages }
            },
            ReceiverContext::ChaCha20Poly1305(context) => {
                let (secret, messages) = chacha20::receiver_state(*context);
                Session { aead: Aead::ChaCha20Poly1305, secret, messages }
            },
        }
    }

    /// Decapsulates the secret, in base mode, or in auth mode with the sender's public key.
    pub(crate) fn setup(
        config: Config,
        pk_s: Option<&[u8; 32]>,
        sk_r: &[u8; 32],
        enc: &[u8],
        info: &[u8],
    ) -> (result: Res<ReceiverContext>)
        ensures
            crate::session::receiver_setup(
                config@,
                crate::session::key_bytes(pk_s),
                sk_r@,
                enc@,
                info@,
            ) == match result {
                Ok(context) => Ok::<_, Error>(context.session()),
                Err(error) => Err(error),
            },
    {
        match (config.kem(), config.kdf(), config.aead()) {
            (Kem::X25519Sha256, Kdf::HkdfSha256, Aead::Aes128Gcm) => {
                let enc = match encapped_from_bytes(enc) {
                    Ok(enc) => enc,
                    Err(error) => return Err(Error::Hpke(classify(error))),
                };
                match aes_gcm::setup_receiver(pk_s, sk_r, &enc, info) {
                    Ok(context) => Ok(ReceiverContext::AesGcm128(context)),
                    Err(error) => Err(Error::Hpke(classify(error))),
                }
            },
            (Kem::X25519Sha256, Kdf::HkdfSha256, Aead::ChaCha20Poly1305) => {
                let enc = match encapped_from_bytes(enc) {
                    Ok(enc) => enc,
                    Err(error) => return Err(Error::Hpke(classify(error))),
                };
                match chacha20::setup_receiver(pk_s, sk_r, &enc, info) {
                    Ok(context) => Ok(ReceiverContext::ChaCha20Poly1305(context)),
                    Err(error) => Err(Error::Hpke(classify(error))),
                }
            },
            _ => Err(Error::InvalidKeyType),
        }
    }

    /// Opens the ciphertext, which ends in its tag, in place. Returns the length of the plaintext
    /// that then stands at its start. The tag is left as it was, and so is all of a ciphertext that
    /// is too short to hold one or that comes after the message counter has run out.
    pub(crate) fn open(&mut self, ciphertext: &mut [u8], aad: &[u8]) -> (len: Res<usize>)
        requires
            old(ciphertext)@.len() >= TAG_LEN ==> crate::session::processable(
                old(self).session().aead,
                (old(ciphertext)@.len() - TAG_LEN) as nat,
            ),
        ensures
            final(ciphertext)@.len() == old(ciphertext)@.len(),
            old(ciphertext)@.len() < TAG_LEN || old(self).session().exhausted()
                ==> final(ciphertext)@ == old(ciphertext)@,
            old(ciphertext)@.len() >= TAG_LEN ==> final(ciphertext)@.skip(
                old(ciphertext)@.len() - TAG_LEN,
            ) == old(ciphertext)@.skip(old(ciphertext)@.len() - TAG_LEN),
            final(self).session() == old(self).session().after(len is Ok),
            match len {
                Ok(len) => {
                    &&& len + TAG_LEN == old(ciphertext)@.len()
                    &&& old(self).session().opens(aad@, old(ciphertext)@) == Ok::<_, Error>(
                        final(ciphertext)@.take(len as int),
                    )
                },
                Err(error) => old(self).session().opens(aad@, old(ciphertext)@) == Err::<
                    Seq<u8>,
                    _,
                >(error),
            },
    {
        let start = tag_start(ciphertext.len())?;
        let ghost sealed = ciphertext@;
        let (text, tag) = ciphertext.split_at_mut(start);
        proof {
            assert(text@ =~= sealed.take(start as int));
            assert(tag@ =~= sealed.skip(start as int));
        }
        let result = match self {
            ReceiverContext::AesGcm128(context) => aes_gcm::open(context, text, aad, tag),
            ReceiverContext::ChaCha20Poly1305(context) => chacha20::open(context, text, aad, tag),
        };
        proof {
            assert(ciphertext@.take(start as int) =~= text@);
            assert(ciphertext@.skip(start as int) =~= sealed.skip(start as int));
            assert(ciphertext@ =~= text@ + sealed.skip(start as int));
        }
        match result {
            Ok(()) => Ok(start),
            Err(error) => Err(Error::Hpke(classify(error))),
        }
    }

    /// Fills the buffer with an exported secret, or leaves it as it was.
    pub(crate) fn export(&self, info: &[u8], out_buf: &mut [u8]) -> (result: Res<()>)
        ensures
            final(out_buf)@.len() == old(out_buf)@.len(),
            match result {
                Ok(()) => self.session().exports(info@, old(out_buf)@.len()) == Ok::<_, Error>(
                    final(out_buf)@,
                ),
                Err(error) => {
                    &&& self.session().exports(info@, old(out_buf)@.len()) == Err::<Seq<u8>, _>(
                        error,
                    )
                    &&& final(out_buf)@ == old(out_buf)@
                },
            },
    {
        let result = match self {
            ReceiverContext::AesGcm128(context) => aes_gcm::export_receiver(context, info, out_buf),
            ReceiverContext::ChaCha20Poly1305(context) => chacha20::export_receiver(
                context,
                info,
                out_buf,
            ),
        };
        match result {
            Ok(()) => Ok(()),
            Err(error) => Err(Error::Hpke(classify(error))),
        }
    }
}

} // verus!
