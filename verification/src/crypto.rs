//! What can be done with a context, whichever mode and role it has.

use crate::config::Aead;
use crate::error::{Error, Res};
use crate::session::{Session, TAG_LEN};
use vstd::prelude::*;

verus! {

/// A secret that was exported from a context.
pub struct SymKey {
    bytes: Vec<u8>,
}

impl View for SymKey {
    type V = Seq<u8>;

    closed spec fn view(&self) -> Seq<u8> {
        self.bytes@
    }
}

impl SymKey {
    /// The key of these bytes.
    pub fn new(bytes: Vec<u8>) -> (key: Self)
        ensures
            key@ == bytes@,
    {
        SymKey { bytes }
    }

    /// The bytes of the key.
    pub fn as_slice(&self) -> (bytes: &[u8])
        ensures
            bytes@ == self@,
    {
        self.bytes.as_slice()
    }
}

/// Where the tag of a ciphertext of the given length begins.
pub fn tag_start(len: usize) -> (start: Res<usize>)
    ensures
        match start {
            Ok(start) => start + TAG_LEN == len,
            Err(error) => len < TAG_LEN && error == Error::Truncated,
        },
{
    if len < TAG_LEN {
        return Err(Error::Truncated);
    }
    Ok(len - TAG_LEN)
}

/// A context that seals messages.
pub trait Encrypt {
    /// The state of the context.
    spec fn sealing(&self) -> Session;

    /// Seals the next message: the ciphertext, followed by the tag. A receiver in the same state
    /// opens it to the plaintext.
    fn seal(&mut self, aad: &[u8], pt: &[u8]) -> (ct: Res<Vec<u8>>)
        requires
            crate::session::processable(old(self).sealing().aead, pt@.len()),
        ensures
            old(self).sealing().seal_outcome(aad@, pt@, crate::session::bytes_of(ct)),
            ct matches Ok(ct) ==> ct@ == crate::session::hpke_sealed(
                old(self).sealing().aead,
                old(self).sealing().secret,
                old(self).sealing().messages,
                aad@,
                pt@,
            ),
            final(self).sealing() == old(self).sealing().after(ct is Ok),
            final(self).algorithm() == old(self).algorithm(),
    ;

    /// The algorithm that the context was configured for.
    spec fn algorithm(&self) -> Aead;

    /// The algorithm that messages are sealed with.
    fn alg(&self) -> (aead: Aead)
        ensures
            aead == self.algorithm(),
    ;
}

/// A context that opens messages.
pub trait Decrypt {
    /// The state of the context.
    spec fn opening(&self) -> Session;

    /// Opens the next message, a ciphertext that ends in its tag. A message that does not
    /// authenticate leaves the context as it was.
    fn open(&mut self, aad: &[u8], ct: &[u8]) -> (pt: Res<Vec<u8>>)
        requires
            ct@.len() >= TAG_LEN ==> crate::session::processable(
                old(self).opening().aead,
                (ct@.len() - TAG_LEN) as nat,
            ),
        ensures
            crate::session::bytes_of(pt) == old(self).opening().opens(aad@, ct@),
            pt matches Ok(pt) ==> crate::session::hpke_opened(
                old(self).opening().aead,
                old(self).opening().secret,
                old(self).opening().messages,
                aad@,
                ct@.take(ct@.len() - TAG_LEN),
                ct@.skip(ct@.len() - TAG_LEN),
            ) == Some(pt@),
            final(self).opening() == old(self).opening().after(pt is Ok),
            final(self).algorithm() == old(self).algorithm(),
            pt matches Ok(pt) ==> ct@.len() == pt@.len() + TAG_LEN,
    ;

    /// The algorithm that the context was configured for.
    spec fn algorithm(&self) -> Aead;

    /// The algorithm that messages are opened with.
    fn alg(&self) -> (aead: Aead)
        ensures
            aead == self.algorithm(),
    ;
}

/// A context from which secrets can be exported.
pub trait Exporter {
    /// The state of the context.
    spec fn exporting(&self) -> Session;

    /// Exports a secret of the given length, which belongs to `info`.
    fn export(&self, info: &[u8], len: usize) -> (key: Res<SymKey>)
        requires
            len <= isize::MAX,
        ensures
            crate::session::bytes_of(key) == self.exporting().exports(info@, len as nat),
            key matches Ok(key) ==> key@ == crate::session::hpke_exported(
                self.exporting().aead,
                self.exporting().secret,
                info@,
                len as nat,
            ),
            key matches Ok(key) ==> key@.len() == len,
    ;
}

} // verus!
