//! Public and private keys, and where key pairs come from.

use crate::config::Kem;
use crate::encoding::{
    hex_encode, pem_encode, pem_parse, pkcs8_decode, pkcs8_encode, LineEnding,
};
use crate::error::{Error, HpkeError, Res};
use crate::primitives::{
    classify, derive_pair, generate_pair, private_from_bytes, public_from_bytes, public_of,
};
use vstd::prelude::*;
use vstd::slice::{slice_subrange, slice_to_vec};
use vstd::string::*;

verus! {

/// The encoded object identifier of X25519, 1.3.101.110.
pub const X25519_OID: [u8; 3] = [0x2b, 0x65, 0x6e];

/// The key that the given bytes are: there must be 32.
pub open spec fn x25519_key(bytes: Seq<u8>) -> Result<Seq<u8>, Error> {
    if bytes.len() == 32 {
        Ok(bytes)
    } else {
        Err(Error::InvalidKeyType)
    }
}

/// The public key that the given bytes are in the protocol, where the error says how many there
/// should be.
pub open spec fn decoded_key(bytes: Seq<u8>) -> Result<Seq<u8>, Error> {
    if bytes.len() == 32 {
        Ok(bytes)
    } else {
        Err(Error::Hpke(HpkeError::IncorrectInputLength(32, bytes.len() as usize)))
    }
}

/// A public key.
pub enum PublicKey {
    X25519([u8; 32]),
}

impl View for PublicKey {
    type V = Seq<u8>;

    open spec fn view(&self) -> Seq<u8> {
        match self {
            PublicKey::X25519(bytes) => bytes@,
        }
    }
}

impl Clone for PublicKey {
    fn clone(&self) -> (key: Self)
        ensures
            key == self,
    {
        match self {
            PublicKey::X25519(bytes) => PublicKey::X25519(*bytes),
        }
    }
}

impl PublicKey {
    /// The bytes of the key.
    pub fn key_data(&self) -> (data: Res<Vec<u8>>)
        ensures
            data matches Ok(bytes) && bytes@ == self@,
    {
        match self {
            PublicKey::X25519(bytes) => Ok(slice_to_vec(bytes.as_slice())),
        }
    }

    /// The key of these bytes, which must be 32.
    pub fn from_x25519_bytes(bytes: &[u8]) -> (key: Res<Self>)
        ensures
            crate::session::bytes_of(key) == x25519_key(bytes@),
    {
        if bytes.len() != 32 {
            return Err(Error::InvalidKeyType);
        }
        match public_from_bytes(bytes) {
            Ok(key) => Ok(PublicKey::X25519(key)),
            Err(error) => Err(Error::Hpke(classify(error))),
        }
    }

    /// The text that stands for the key in logs.
    pub fn debug_text(&self) -> (text: String)
        ensures
            text@ == "PublicKey "@ + crate::encoding::hex_text(self@),
    {
        let mut text = "PublicKey ".to_owned();
        match self {
            PublicKey::X25519(bytes) => {
                let digits = hex_encode(bytes.as_slice());
                text.append(digits.as_str());
            },
        }
        text
    }
}

/// A private key.
pub enum PrivateKey {
    X25519([u8; 32]),
}

impl View for PrivateKey {
    type V = Seq<u8>;

    open spec fn view(&self) -> Seq<u8> {
        match self {
            PrivateKey::X25519(bytes) => bytes@,
        }
    }
}

impl Clone for PrivateKey {
    fn clone(&self) -> (key: Self)
        ensures
            key == self,
    {
        match self {
            PrivateKey::X25519(bytes) => PrivateKey::X25519(*bytes),
        }
    }
}

/// The private key octets of PKCS#8 for X25519: the key as an octet string of 32 bytes.
pub open spec fn x25519_octets(sk: Seq<u8>) -> Seq<u8> {
    seq![0x04u8, 0x20u8] + sk
}

/// The key pair that the fields of a PKCS#8 document give: the algorithm must be X25519 and the
/// octets must be an octet string of 32 bytes.
pub open spec fn pkcs8_key_pair(oid: Seq<u8>, octets: Seq<u8>) -> Result<
    (Seq<u8>, Seq<u8>),
    Error,
> {
    if oid != X25519_OID@ {
        Err(Error::InvalidKeyType)
    } else if !(octets.len() >= 2 && octets[0] == 0x04 && octets[1] == 0x20) {
        Err(Error::InvalidKeyType)
    } else if octets.len() != 34 {
        Err(Error::Hpke(HpkeError::IncorrectInputLength(32, (octets.len() - 2) as usize)))
    } else {
        Ok((octets.skip(2), crate::primitives::x25519_public(octets.skip(2))))
    }
}

/// The algorithm and private key octets of the PKCS#8 document in a PEM text. There is an error
/// if the text is no PEM document or holds no PKCS#8 document.
pub open spec fn pem_key_fields(text: Seq<char>) -> Result<(Seq<u8>, Seq<u8>), Error> {
    match crate::encoding::pem_contents(text) {
        Ok(document) => match crate::encoding::pkcs8_fields(document) {
            Ok(fields) => Ok(fields),
            Err(error) => Err(Error::Pkcs8(error)),
        },
        Err(error) => Err(Error::Pem(error)),
    }
}

/// The bytes of a key pair.
pub open spec fn key_pair_bytes(pair: Res<(PrivateKey, PublicKey)>) -> Result<
    (Seq<u8>, Seq<u8>),
    Error,
> {
    match pair {
        Ok((sk, pk)) => Ok((sk@, pk@)),
        Err(error) => Err(error),
    }
}

/// Whether the text is what a private key is written as: a PEM document with the PKCS#8 document
/// of the key, in lines that end in a line feed. The document and its fields are read back from
/// the text.
pub open spec fn serialized(sk: Seq<u8>, text: Seq<char>) -> bool {
    let label = "PRIVATE KEY"@;
    let octets = x25519_octets(sk);
    let document = crate::encoding::pkcs8_document(X25519_OID@, octets);
    &&& text == crate::encoding::pem_text(label, document, LineEnding::Lf)
    &&& crate::encoding::pem_framed(text, label, LineEnding::Lf)
    &&& !text.contains('\r')
    &&& crate::encoding::pem_holds(text, document)
    &&& pem_key_fields(text) == Ok::<_, Error>((X25519_OID@, octets))
}

/// What a PEM text is parsed to: what the fields of its PKCS#8 document give.
pub open spec fn parse_outcome(text: Seq<char>) -> Result<(Seq<u8>, Seq<u8>), Error> {
    match pem_key_fields(text) {
        Ok((oid, octets)) => pkcs8_key_pair(oid, octets),
        Err(error) => Err(error),
    }
}

impl PrivateKey {
    /// The key of these bytes, which must be 32.
    pub fn from_x25519_bytes(bytes: &[u8]) -> (key: Res<Self>)
        ensures
            crate::session::bytes_of(key) == x25519_key(bytes@),
    {
        if bytes.len() != 32 {
            return Err(Error::InvalidKeyType);
        }
        match private_from_bytes(bytes) {
            Ok(key) => Ok(PrivateKey::X25519(key)),
            Err(error) => Err(Error::Hpke(classify(error))),
        }
    }

    /// The bytes of the key.
    pub fn key_data(&self) -> (data: Res<Vec<u8>>)
        ensures
            data matches Ok(bytes) && bytes@ == self@,
    {
        match self {
            PrivateKey::X25519(bytes) => Ok(slice_to_vec(bytes.as_slice())),
        }
    }

    /// The text that stands for the key in logs. It shows the key only if asked to.
    pub fn debug_text(&self, print_secrets: bool) -> (text: String)
        ensures
            text@ == if print_secrets {
                "PrivateKey "@ + crate::encoding::hex_text(self@)
            } else {
                "Opaque PrivateKey"@
            },
    {
        if print_secrets {
            let mut text = "PrivateKey ".to_owned();
            match self {
                PrivateKey::X25519(bytes) => {
                    let digits = hex_encode(bytes.as_slice());
                    text.append(digits.as_str());
                },
            }
            return text;
        }
        "Opaque PrivateKey".to_owned()
    }

    /// The private key octets that PKCS#8 holds for the key.
    pub fn pkcs8_octets(&self) -> (octets: Vec<u8>)
        ensures
            octets@ == x25519_octets(self@),
    {
        match self {
            PrivateKey::X25519(bytes) => {
                let mut octets: Vec<u8> = Vec::with_capacity(34);
                octets.push(0x04);
                octets.push(0x20);
                octets.extend_from_slice(bytes.as_slice());
                proof {
                    assert(octets@ =~= x25519_octets(self@));
                }
                octets
            },
        }
    }

    /// Writes the key in PKCS#8 PEM format.
    ///
    /// The PKCS#8 structure does **not** include the public key. [`parse_key_pair`] reads the
    /// key back from the text.
    pub fn serialize_to_pkcs8_pem(&self) -> (text: Res<String>)
        ensures
            match text {
                Ok(text) => serialized(self@, text@),
                Err(_) => false,
            },
    {
        let octets = self.pkcs8_octets();
        proof {
            assert(X25519_OID@ =~= seq![0x2bu8, 0x65u8, 0x6eu8]);
        }
        match pkcs8_encode(X25519_OID.as_slice(), octets.as_slice()) {
            Ok(document) => Ok(pem_encode("PRIVATE KEY", document, LineEnding::Lf)),
            Err(error) => Err(Error::PrivateKeySerialize(error)),
        }
    }
}

/// Generates a key pair for the KEM.
pub fn generate_key_pair(kem: Kem) -> (pair: Res<(PrivateKey, PublicKey)>)
    ensures
        match pair {
            Ok((sk, pk)) => {
                &&& crate::primitives::is_derived_private(sk@)
                &&& pk@ == crate::primitives::x25519_public(sk@)
            },
            Err(_) => false,
        },
{
    match kem {
        Kem::X25519Sha256 => {
            let (sk, pk) = generate_pair();
            Ok((PrivateKey::X25519(sk), PublicKey::X25519(pk)))
        },
    }
}

/// The key pair that the fields of a PKCS#8 document give.
pub fn key_pair_from_pkcs8(kem: Kem, oid: &[u8], octets: &[u8]) -> (pair: Res<
    (PrivateKey, PublicKey),
>)
    ensures
        key_pair_bytes(pair) == pkcs8_key_pair(oid@, octets@),
{
    match kem {
        Kem::X25519Sha256 => {
            if oid.len() != 3 || oid[0] != X25519_OID[0] || oid[1] != X25519_OID[1] || oid[2]
                != X25519_OID[2] {
                return Err(Error::InvalidKeyType);
            }
            proof {
                assert(oid@ =~= X25519_OID@);
            }
            if octets.len() < 2 || octets[0] != 0x04 || octets[1] != 0x20 {
                return Err(Error::InvalidKeyType);
            }
            match private_from_bytes(slice_subrange(octets, 2, octets.len())) {
                Ok(sk) => {
                    let pk = public_of(&sk);
                    Ok((PrivateKey::X25519(sk), PublicKey::X25519(pk)))
                },
                Err(error) => Err(Error::Hpke(classify(error))),
            }
        },
    }
}

/// Reads the encoded object identifier of the algorithm and the private key octets from PKCS#8 PEM
/// format.
pub fn read_pkcs8_pem(pem_data: &str) -> (fields: Res<(Vec<u8>, Vec<u8>)>)
    ensures
        pem_key_fields(pem_data@) == match fields {
            Ok((oid, octets)) => Ok::<_, Error>((oid@, octets@)),
            Err(error) => Err(error),
        },
{
    let document = match pem_parse(pem_data) {
        Ok(document) => document,
        Err(error) => return Err(Error::Pem(error)),
    };
    match pkcs8_decode(document.as_slice()) {
        Ok(fields) => Ok(fields),
        Err(error) => Err(Error::Pkcs8(error)),
    }
}

/// Parses a key pair from PKCS#8 PEM format for the KEM.
pub fn parse_key_pair(kem: Kem, pem_data: &str) -> (pair: Res<(PrivateKey, PublicKey)>)
    ensures
        key_pair_bytes(pair) == parse_outcome(pem_data@),
{
    let (oid, octets) = read_pkcs8_pem(pem_data)?;
    key_pair_from_pkcs8(kem, oid.as_slice(), octets.as_slice())
}

/// Derives a key pair for the KEM from keying material.
pub fn derive_key_pair(kem: Kem, ikm: &[u8]) -> (pair: Res<(PrivateKey, PublicKey)>)
    ensures
        match pair {
            Ok((sk, pk)) => {
                &&& sk@ == crate::primitives::derived_private(ikm@)
                &&& pk@ == crate::primitives::x25519_public(sk@)
            },
            Err(_) => false,
        },
{
    match kem {
        Kem::X25519Sha256 => {
            let (sk, pk) = derive_pair(ikm);
            Ok((PrivateKey::X25519(sk), PublicKey::X25519(pk)))
        },
    }
}

} // verus!
