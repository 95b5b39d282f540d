//! Receivers, in base mode and in auth mode.

use crate::config::{Aead, Config, Kem, Suite};
use crate::context::ReceiverContext;
use crate::crypto::{Decrypt, Exporter, SymKey};
use crate::error::{Error, Res};
use crate::keys::{PrivateKey, PublicKey};
use crate::primitives::{classify, public_from_bytes};
use crate::session::{Session, MESSAGE_LIMIT};
use std::ops::Deref;
use vstd::prelude::*;
use vstd::slice::slice_to_vec;

verus! {

/// What a receiver holds: its algorithms and its session.
pub struct ReceiverState {
    pub config: Suite,
    pub session: Session,
}

impl ReceiverState {
    /// What holds of every receiver: it was made for algorithms that are supported and uses
    /// them, and its message counter has not gone past the limit.
    pub open spec fn well_formed(self) -> bool {
        &&& self.config.supported()
        &&& self.session.aead == self.config.aead
        &&& self.session.messages <= MESSAGE_LIMIT
    }

    /// The receiver after an attempt to open a message: only the session changes.
    pub open spec fn after(self, success: bool) -> ReceiverState {
        ReceiverState { session: self.session.after(success), ..self }
    }
}

/// HPKE receiver context for base mode.
pub struct HpkeR {
    context: ReceiverContext,
    config: Config,
}

impl View for HpkeR {
    type V = ReceiverState;

    closed spec fn view(&self) -> ReceiverState {
        ReceiverState { config: self.config@, session: self.context.session() }
    }
}

impl HpkeR {
    /// Create a new context that uses the KEM mode for receiving.
    pub fn new(
        config: Config,
        _pk_r: &PublicKey,
        sk_r: &PrivateKey,
        enc: &[u8],
        info: &[u8],
    ) -> (receiver: Res<Self>)
        ensures
            crate::session::receiver_setup(
                config@,
                None,
                sk_r@,
                enc@,
                info@,
            ) == match receiver {
                Ok(receiver) => Ok::<_, Error>(receiver@.session),
                Err(error) => Err(error),
            },
            receiver matches Ok(receiver) ==> crate::session::receiver_secret(
                config@.aead,
                None,
                sk_r@,
                enc@,
                info@,
            ) == Some(receiver@.session.secret),
            receiver matches Ok(receiver) ==> receiver@.well_formed() && receiver@.config
                == config@,
    {
        let context = match sk_r {
            PrivateKey::X25519(sk_r) => ReceiverContext::setup(config, None, sk_r, enc, info)?,
        };
        Ok(HpkeR { context, config })
    }

    /// The configuration of the context.
    pub fn config(&self) -> (config: Config)
        ensures
            config@ == self@.config,
    {
        self.config
    }

    /// The public key of these bytes for the KEM.
    pub fn decode_public_key(kem: Kem, k: &[u8]) -> (key: Res<PublicKey>)
        ensures
            crate::session::bytes_of(key) == crate::keys::decoded_key(k@),
    {
        match kem {
            Kem::X25519Sha256 => match public_from_bytes(k) {
                Ok(key) => Ok(PublicKey::X25519(key)),
                Err(error) => Err(Error::Hpke(classify(error))),
            },
        }
    }
}

impl Decrypt for HpkeR {
    open spec fn opening(&self) -> Session {
        self@.session
    }

    open spec fn algorithm(&self) -> Aead {
        self@.config.aead
    }

    fn open(&mut self, aad: &[u8], ct: &[u8]) -> (pt: Res<Vec<u8>>)
        ensures
            final(self)@ == old(self)@.after(pt is Ok),
            old(self)@.well_formed() ==> final(self)@.well_formed(),
    {
        let mut buf = slice_to_vec(ct);
        let pt_len = self.context.open(buf.as_mut_slice(), aad)?;
        buf.truncate(pt_len);
        Ok(buf)
    }

    fn alg(&self) -> Aead {
        self.config.aead()
    }
}

impl Exporter for HpkeR {
    open spec fn exporting(&self) -> Session {
        self@.session
    }

    fn export(&self, info: &[u8], len: usize) -> Res<SymKey> {
        let mut buf = vec![0u8; len];
        self.context.export(info, buf.as_mut_slice())?;
        Ok(SymKey::new(buf))
    }
}

impl Deref for HpkeR {
    type Target = Config;

    fn deref(&self) -> (config: &Config)
        ensures
            config@ == self@.config,
    {
        &self.config
    }
}

/// HPKE receiver context for auth mode.
///
/// Unlike [`HpkeR`], which uses base mode, this requires the sender's public key, enabling sender
/// authentication.
pub struct AuthHpkeR {
    context: ReceiverContext,
    config: Config,
}

impl View for AuthHpkeR {
    type V = ReceiverState;

    closed spec fn view(&self) -> ReceiverState {
        ReceiverState { config: self.config@, session: self.context.session() }
    }
}

impl AuthHpkeR {
    /// Create a new auth mode receiver context.
    ///
    /// Requires the sender's public key `pk_s` for authentication.
    pub fn new(
        config: Config,
        _pk_r: &PublicKey,
        sk_r: &PrivateKey,
        pk_s: &PublicKey,
        enc: &[u8],
        info: &[u8],
    ) -> (receiver: Res<Self>)
        ensures
            crate::session::receiver_setup(
                config@,
                Some(pk_s@),
                sk_r@,
                enc@,
                info@,
            ) == match receiver {
                Ok(receiver) => Ok::<_, Error>(receiver@.session),
                Err(error) => Err(error),
            },
            receiver matches Ok(receiver) ==> crate::session::receiver_secret(
                config@.aead,
                Some(pk_s@),
                sk_r@,
                enc@,
                info@,
            ) == Some(receiver@.session.secret),
            receiver matches Ok(receiver) ==> receiver@.well_formed() && receiver@.config
                == config@,
    {
        let context = match (sk_r, pk_s) {
            (PrivateKey::X25519(sk_r), PublicKey::X25519(pk_s)) => {
                ReceiverContext::setup(config, Some(pk_s), sk_r, enc, info)?
            },
        };
        Ok(AuthHpkeR { context, config })
    }

    /// The configuration of the context.
    pub fn config(&self) -> (config: Config)
        ensures
            config@ == self@.config,
    {
        self.config
    }
}

impl Decrypt for AuthHpkeR {
    open spec fn opening(&self) -> Session {
        self@.session
    }

    open spec fn algorithm(&self) -> Aead {
        self@.config.aead
    }

    fn open(&mut self, aad: &[u8], ct: &[u8]) -> (pt: Res<Vec<u8>>)
        ensures
            final(self)@ == old(self)@.after(pt is Ok),
            old(self)@.well_formed() ==> final(self)@.well_formed(),
    {
        let mut buf = slice_to_vec(ct);
        let pt_len = self.context.open(buf.as_mut_slice(), aad)?;
        buf.truncate(pt_len);
        Ok(buf)
    }

    fn alg(&self) -> Aead {
        self.config.aead()
    }
}

impl Exporter for AuthHpkeR {
    open spec fn exporting(&self) -> Session {
        self@.session
    }

    fn export(&self, info: &[u8], len: usize) -> Res<SymKey> {
        let mut buf = vec![0u8; len];
        self.context.export(info, buf.as_mut_slice())?;
        Ok(SymKey::new(buf))
    }
}

impl Deref for AuthHpkeR {
    type Target = Config;

    fn deref(&self) -> (config: &Config)
        ensures
            config@ == self@.config,
    {
        &self.config
    }
}

} // verus!
