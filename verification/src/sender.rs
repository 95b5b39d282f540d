//! Senders, in base mode and in auth mode.

use crate::config::{Aead, Config, Suite};
use crate::context::SenderContext;
use crate::crypto::{Encrypt, Exporter, SymKey};
use crate::error::Res;
use crate::keys::{PrivateKey, PublicKey};
use crate::primitives::public_of;
use crate::session::{Session, KEY_LEN, MESSAGE_LIMIT};
use std::ops::Deref;
use vstd::prelude::*;
use vstd::slice::slice_to_vec;

verus! {

/// What a sender holds: its algorithms, the encapsulated secret and its session.
pub struct SenderState {
    pub config: Suite,
    pub enc: Seq<u8>,
    pub session: Session,
}

impl SenderState {
    /// What holds of every sender: it was made for algorithms that are supported and uses them,
    /// and its message counter has not gone past the limit.
    pub open spec fn well_formed(self) -> bool {
        &&& self.config.supported()
        &&& self.session.aead == self.config.aead
        &&& self.session.messages <= MESSAGE_LIMIT
        &&& self.enc.len() == KEY_LEN
    }

    /// The sender after an attempt to seal a message: only the session changes.
    pub open spec fn after(self, success: bool) -> SenderState {
        SenderState { session: self.session.after(success), ..self }
    }
}

/// HPKE sender context for base mode.
pub struct HpkeS {
    context: SenderContext,
    enc: Vec<u8>,
    config: Config,
}

impl View for HpkeS {
    type V = SenderState;

    closed spec fn view(&self) -> SenderState {
        SenderState { config: self.config@, enc: self.enc@, session: self.context.session() }
    }
}

impl HpkeS {
    /// Create a new context that uses the KEM mode for sending.
    pub fn new(config: Config, pk_r: &PublicKey, info: &[u8]) -> (sender: Res<Self>)
        ensures
            match sender {
                Ok(sender) => {
                    &&& sender@.well_formed()
                    &&& sender@.config == config@
                    &&& sender@.session.established(
                        config@,
                        None,
                        pk_r@,
                        info@,
                        sender@.enc,
                    )
                },
                Err(error) => crate::session::setup_refused(
                    config@,
                    None,
                    pk_r@,
                    info@,
                    error,
                ),
            },
    {
        let (enc, context) = match pk_r {
            PublicKey::X25519(pk_r) => SenderContext::setup(config, None, pk_r, info)?,
        };
        Ok(HpkeS { context, enc: slice_to_vec(enc.as_slice()), config })
    }

    /// The configuration of the context.
    pub fn config(&self) -> (config: Config)
        ensures
            config@ == self@.config,
    {
        self.config
    }

    /// Get the encapsulated KEM secret.
    pub fn enc(&self) -> (enc: Res<Vec<u8>>)
        ensures
            enc matches Ok(enc) && enc@ == self@.enc,
    {
        Ok(slice_to_vec(self.enc.as_slice()))
    }
}

impl Encrypt for HpkeS {
    open spec fn sealing(&self) -> Session {
        self@.session
    }

    open spec fn algorithm(&self) -> Aead {
        self@.config.aead
    }

    fn seal(&mut self, aad: &[u8], pt: &[u8]) -> (ct: Res<Vec<u8>>)
        ensures
            final(self)@ == old(self)@.after(ct is Ok),
            old(self)@.well_formed() ==> final(self)@.well_formed(),
    {
        let mut buf = slice_to_vec(pt);
        let mut tag = self.context.seal(buf.as_mut_slice(), aad)?;
        buf.append(&mut tag);
        Ok(buf)
    }

    fn alg(&self) -> Aead {
        self.config.aead()
    }
}

impl Exporter for HpkeS {
    open spec fn exporting(&self) -> Session {
        self@.session
    }

    fn export(&self, info: &[u8], len: usize) -> Res<SymKey> {
        let mut buf = vec![0u8; len];
        self.context.export(info, buf.as_mut_slice())?;
        Ok(SymKey::new(buf))
    }
}

impl Deref for HpkeS {
    type Target = Config;

    fn deref(&self) -> (config: &Config)
        ensures
            config@ == self@.config,
    {
        &self.config
    }
}

/// HPKE sender context for auth mode.
///
/// Unlike [`HpkeS`], which uses base mode, this incorporates the sender's public key into the
/// KDF, enabling the receiver to authenticate the sender.
pub struct AuthHpkeS {
    context: SenderContext,
    enc: Vec<u8>,
    config: Config,
}

impl View for AuthHpkeS {
    type V = SenderState;

    closed spec fn view(&self) -> SenderState {
        SenderState { config: self.config@, enc: self.enc@, session: self.context.session() }
    }
}

impl AuthHpkeS {
    /// Create a new auth mode sender context.
    ///
    /// The sender's public key is derived from `sk_s`.
    pub fn new(
        config: Config,
        pk_r: &PublicKey,
        sk_s: &PrivateKey,
        info: &[u8],
    ) -> (sender: Res<Self>)
        ensures
            match sender {
                Ok(sender) => {
                    &&& sender@.well_formed()
                    &&& sender@.config == config@
                    &&& sender@.session.established(
                        config@,
                        Some((sk_s@, crate::primitives::x25519_public(sk_s@))),
                        pk_r@,
                        info@,
                        sender@.enc,
                    )
                },
                Err(error) => crate::session::setup_refused(
                    config@,
                    Some((sk_s@, crate::primitives::x25519_public(sk_s@))),
                    pk_r@,
                    info@,
                    error,
                ),
            },
    {
        let (enc, context) = match (pk_r, sk_s) {
            (PublicKey::X25519(pk_r), PrivateKey::X25519(sk_s)) => {
                let pk_s = public_of(sk_s);
                SenderContext::setup(config, Some((sk_s, &pk_s)), pk_r, info)?
            },
        };
        Ok(AuthHpkeS { context, enc: slice_to_vec(enc.as_slice()), config })
    }

    /// The configuration of the context.
    pub fn config(&self) -> (config: Config)
        ensures
            config@ == self@.config,
    {
        self.config
    }

    /// Get the encapsulated KEM secret.
    pub fn enc(&self) -> (enc: Res<Vec<u8>>)
        ensures
            enc matches Ok(enc) && enc@ == self@.enc,
    {
        Ok(slice_to_vec(self.enc.as_slice()))
    }
}

impl Encrypt for AuthHpkeS {
    open spec fn sealing(&self) -> Session {
        self@.session
    }

    open spec fn algorithm(&self) -> Aead {
        self@.config.aead
    }

    fn seal(&mut self, aad: &[u8], pt: &[u8]) -> (ct: Res<Vec<u8>>)
        ensures
            final(self)@ == old(self)@.after(ct is Ok),
            old(self)@.well_formed() ==> final(self)@.well_formed(),
    {
        let mut buf = slice_to_vec(pt);
        let mut tag = self.context.seal(buf.as_mut_slice(), aad)?;
        buf.append(&mut tag);
        Ok(buf)
    }

    fn alg(&self) -> Aead {
        self.config.aead()
    }
}

impl Exporter for AuthHpkeS {
    open spec fn exporting(&self) -> Session {
        self@.session
    }

    fn export(&self, info: &[u8], len: usize) -> Res<SymKey> {
        let mut buf = vec![0u8; len];
        self.context.export(info, buf.as_mut_slice())?;
        Ok(SymKey::new(buf))
    }
}

impl Deref for AuthHpkeS {
    type Target = Config;

    fn deref(&self) -> (config: &Config)
        ensures
            config@ == self@.config,
    {
        &self.config
    }
}

} // verus!
