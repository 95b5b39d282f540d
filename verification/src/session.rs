//! The state that a sender and a receiver share, and what it makes of messages.

use crate::config::{Aead, Suite};
use crate::error::{Error, HpkeError};
use vstd::prelude::*;

verus! {

/// Length of an X25519 key, and of an encapsulated secret.
pub const KEY_LEN: usize = 32;

/// Length of an authentication tag, with every algorithm that is supported.
pub const TAG_LEN: usize = 16;

/// The number of messages that a context can seal or open: its counter has 64 bits.
pub const MESSAGE_LIMIT: u128 = 0x1_0000_0000_0000_0000;

/// The number of bytes that can be exported at once: 255 times the size of a SHA-256 digest.
pub const EXPORT_LIMIT: usize = 8160;

/// The bytes of a key that may be absent.
pub open spec fn key_bytes(key: Option<&[u8; 32]>) -> Option<Seq<u8>> {
    match key {
        Some(key) => Some(key@),
        None => None,
    }
}

/// The bytes of a private key and a public key that may be absent.
pub open spec fn pair_bytes(pair: Option<(&[u8; 32], &[u8; 32])>) -> Option<(Seq<u8>, Seq<u8>)> {
    match pair {
        Some((sk, pk)) => Some((sk@, pk@)),
        None => None,
    }
}

/// Whether the public key, if there are keys, belongs to the private key.
pub open spec fn is_pair(pair: Option<(Seq<u8>, Seq<u8>)>) -> bool {
    pair matches Some((sk, pk)) ==> pk == crate::primitives::x25519_public(sk)
}

/// The public key of keys that may be absent.
pub open spec fn public_half(pair: Option<(Seq<u8>, Seq<u8>)>) -> Option<Seq<u8>> {
    match pair {
        Some((_, pk)) => Some(pk),
        None => None,
    }
}

/// The secrets of the context that a sender sets up with the given ephemeral key: `hpke` derives
/// them from the sender's identity keys (in auth mode), the receiver's public key and `info`.
/// `None` where the encapsulation fails.
pub uninterp spec fn sender_secret(
    aead: Aead,
    sender: Option<(Seq<u8>, Seq<u8>)>,
    pk_r: Seq<u8>,
    info: Seq<u8>,
    ephemeral: Seq<u8>,
) -> Option<Seq<u8>>;

/// The secrets of the context that a receiver sets up: `hpke` derives them from the sender's
/// public key (in auth mode), the receiver's private key, the encapsulated secret and `info`.
/// `None` where the decapsulation fails.
pub uninterp spec fn receiver_secret(
    aead: Aead,
    pk_s: Option<Seq<u8>>,
    sk_r: Seq<u8>,
    enc: Seq<u8>,
    info: Seq<u8>,
) -> Option<Seq<u8>>;

/// The ciphertext and tag that `hpke` makes of a message, after as many others as `messages` says.
pub uninterp spec fn hpke_sealed(
    aead: Aead,
    secret: Seq<u8>,
    messages: nat,
    aad: Seq<u8>,
    plaintext: Seq<u8>,
) -> Seq<u8>;

/// The plaintext that `hpke` finds in a ciphertext, after as many others as `messages` says.
/// `None` where the tag does not authenticate it.
pub uninterp spec fn hpke_opened(
    aead: Aead,
    secret: Seq<u8>,
    messages: nat,
    aad: Seq<u8>,
    ciphertext: Seq<u8>,
    tag: Seq<u8>,
) -> Option<Seq<u8>>;

/// The bytes that `hpke` exports.
pub uninterp spec fn hpke_exported(
    aead: Aead,
    secret: Seq<u8>,
    info: Seq<u8>,
    len: nat,
) -> Seq<u8>;

/// Whether a sender that draws some ephemeral key ends up with this encapsulated secret and these
/// secrets.
pub open spec fn encapsulated(
    aead: Aead,
    sender: Option<(Seq<u8>, Seq<u8>)>,
    pk_r: Seq<u8>,
    info: Seq<u8>,
    enc: Seq<u8>,
    secret: Seq<u8>,
) -> bool {
    exists|ephemeral: Seq<u8>|
        #![trigger crate::primitives::x25519_public(ephemeral)]
        {
            &&& ephemeral.len() == KEY_LEN
            &&& enc == crate::primitives::x25519_public(ephemeral)
            &&& sender_secret(aead, sender, pk_r, info, ephemeral) == Some(secret)
        }
}

/// Whether every receiver that holds the private key of `pk_r` derives these secrets.
pub open spec fn decapsulates(
    aead: Aead,
    sender: Option<(Seq<u8>, Seq<u8>)>,
    pk_r: Seq<u8>,
    info: Seq<u8>,
    enc: Seq<u8>,
    secret: Seq<u8>,
) -> bool {
    let pk_s = public_half(sender);
    forall|sk_r: Seq<u8>|
        sk_r.len() == KEY_LEN && #[trigger] crate::primitives::x25519_public(sk_r) == pk_r
            ==> receiver_secret(aead, pk_s, sk_r, enc, info) == Some(secret)
}

/// Whether the algorithm can seal a plaintext and associated data of these lengths.
pub open spec fn sealable(aead: Aead, aad_len: nat, len: nat) -> bool {
    match aead {
        Aead::Aes128Gcm => len <= 0x10_0000_0000 && aad_len <= 0x10_0000_0000,
        Aead::Aes256Gcm => false,
        Aead::ChaCha20Poly1305 => len < 0x3f_ffff_ffc0,
    }
}

/// Whether the algorithm has an outcome, success or error, for a message of this length. For a
/// few lengths the block counter of ChaCha20 runs out amid the last block, which is fatal.
pub open spec fn processable(aead: Aead, len: nat) -> bool {
    aead == Aead::ChaCha20Poly1305 ==> len <= 0x3f_ffff_ff80 || len >= 0x3f_ffff_ffc0
}

/// What an HPKE context holds: the algorithm, the secrets that the key schedule derived, and how
/// many messages it has sealed or opened.
pub struct Session {
    pub aead: Aead,
    pub secret: Seq<u8>,
    pub messages: nat,
}

impl Session {
    /// Whether this is the session of a sender that has just encapsulated a secret, in base mode,
    /// or in auth mode with its private and public key: it is one that some ephemeral key gives,
    /// and every receiver that holds the private key of `pk_r` sets up the same.
    pub open spec fn established(
        self,
        suite: Suite,
        sender: Option<(Seq<u8>, Seq<u8>)>,
        pk_r: Seq<u8>,
        info: Seq<u8>,
        enc: Seq<u8>,
    ) -> bool {
        &&& self.aead == suite.aead
        &&& self.messages == 0
        &&& enc.len() == KEY_LEN
        &&& encapsulated(self.aead, sender, pk_r, info, enc, self.secret)
        &&& decapsulates(self.aead, sender, pk_r, info, enc, self.secret)
    }

    /// Whether the message counter has run out.
    pub open spec fn exhausted(self) -> bool {
        self.messages >= MESSAGE_LIMIT
    }

    /// The session after an attempt to seal or open a message: only success counts.
    pub open spec fn after(self, success: bool) -> Session {
        if success {
            Session { messages: self.messages + 1, ..self }
        } else {
            self
        }
    }

    /// What the next message is sealed to.
    pub open spec fn seals(self, aad: Seq<u8>, plaintext: Seq<u8>) -> Result<Seq<u8>, Error> {
        if self.exhausted() {
            Err(Error::Hpke(HpkeError::MessageLimitReached))
        } else if !sealable(self.aead, aad.len(), plaintext.len()) {
            Err(Error::Hpke(HpkeError::SealError))
        } else {
            Ok(hpke_sealed(self.aead, self.secret, self.messages, aad, plaintext))
        }
    }

    /// What the next message, a ciphertext that ends in its tag, is opened to.
    pub open spec fn opens(self, aad: Seq<u8>, ciphertext: Seq<u8>) -> Result<Seq<u8>, Error> {
        let len = ciphertext.len() - TAG_LEN;
        if len < 0 {
            Err(Error::Truncated)
        } else if self.exhausted() {
            Err(Error::Hpke(HpkeError::MessageLimitReached))
        } else {
            match hpke_opened(
                self.aead,
                self.secret,
                self.messages,
                aad,
                ciphertext.take(len),
                ciphertext.skip(len),
            ) {
                Some(plaintext) => Ok(plaintext),
                None => Err(Error::Hpke(HpkeError::OpenError)),
            }
        }
    }

    /// What a call of `seal` promises of its outcome: it is what the next message is sealed to,
    /// and a ciphertext is longer than the plaintext by the tag and is opened to it again.
    pub open spec fn seal_outcome(
        self,
        aad: Seq<u8>,
        plaintext: Seq<u8>,
        outcome: Result<Seq<u8>, Error>,
    ) -> bool {
        &&& outcome == self.seals(aad, plaintext)
        &&& outcome matches Ok(ciphertext) ==> {
            &&& ciphertext.len() == plaintext.len() + TAG_LEN
            &&& self.opens(aad, ciphertext) == Ok::<_, Error>(plaintext)
        }
    }

    /// The secret that is exported. It does not depend on the messages so far.
    pub open spec fn exports(self, info: Seq<u8>, len: nat) -> Result<Seq<u8>, Error> {
        if len > EXPORT_LIMIT {
            Err(Error::Hpke(HpkeError::KdfOutputTooLong))
        } else {
            Ok(hpke_exported(self.aead, self.secret, info, len))
        }
    }
}

/// The bytes of a result.
pub open spec fn bytes_of<T: View<V = Seq<u8>>>(result: Result<T, Error>) -> Result<
    Seq<u8>,
    Error,
> {
    match result {
        Ok(value) => Ok(value@),
        Err(error) => Err(error),
    }
}

/// The session that a receiver sets up, in base mode, or in auth mode with the sender's key.
pub open spec fn receiver_setup(
    suite: Suite,
    pk_s: Option<Seq<u8>>,
    sk_r: Seq<u8>,
    enc: Seq<u8>,
    info: Seq<u8>,
) -> Result<Session, Error> {
    if !suite.supported() {
        Err(Error::InvalidKeyType)
    } else if enc.len() != KEY_LEN {
        Err(Error::Hpke(HpkeError::IncorrectInputLength(KEY_LEN, enc.len() as usize)))
    } else {
        match receiver_secret(suite.aead, pk_s, sk_r, enc, info) {
            Some(secret) => Ok(Session { aead: suite.aead, secret, messages: 0 }),
            None => Err(Error::Hpke(HpkeError::DecapError)),
        }
    }
}

/// Whether a sender is refused a session with this error: the algorithms are not supported, or
/// the encapsulation fails, which it cannot where `pk_r` is the public key of a private key.
pub open spec fn setup_refused(
    suite: Suite,
    sender: Option<(Seq<u8>, Seq<u8>)>,
    pk_r: Seq<u8>,
    info: Seq<u8>,
    error: Error,
) -> bool {
    if !suite.supported() {
        error == Error::InvalidKeyType
    } else {
        &&& error == Error::Hpke(HpkeError::EncapError)
        &&& !crate::primitives::is_x25519_public(pk_r)
        &&& exists|ephemeral: Seq<u8>|
            ephemeral.len() == KEY_LEN && #[trigger] sender_secret(
                suite.aead,
                sender,
                pk_r,
                info,
                ephemeral,
            ) is None
    }
}

} // verus!
