//! The text and document formats that keys are written in: hexadecimal, PEM and PKCS#8.
//!
//! The functions of this module call the `hex`, `pem` and `pkcs8` crates; their contracts are
//! trusted.

use pem::PemError;
use pkcs8::der::{Encode, Error as DerError};
use pkcs8::Error as Pkcs8Error;
use vstd::prelude::*;

verus! {

/// Why `pem` could not read a document.
#[verifier::external_type_specification]
#[verifier::external_body]
pub struct ExPemError(PemError);

/// Why `pkcs8` could not read a document.
#[verifier::external_type_specification]
#[verifier::external_body]
pub struct ExPkcs8Error(Pkcs8Error);

/// Why a value could not be written as DER.
#[verifier::external_type_specification]
#[verifier::external_body]
pub struct ExDerError(DerError);

/// The lower case hexadecimal digit of a number below sixteen.
pub open spec fn hex_digit(value: int) -> char {
    if value < 10 {
        (value + '0' as int) as char
    } else {
        (value - 10 + 'a' as int) as char
    }
}

/// Two lower case hexadecimal digits for each byte, the high half first.
pub open spec fn hex_text(bytes: Seq<u8>) -> Seq<char> {
    Seq::new(
        2 * bytes.len(),
        |i: int|
            if i % 2 == 0 {
                hex_digit(bytes[i / 2] as int / 16)
            } else {
                hex_digit(bytes[i / 2] as int % 16)
            },
    )
}

/// Calls `hex::encode`, which writes each byte as two lower case hexadecimal digits, in order.
#[verifier::external_body]
pub(crate) fn hex_encode(bytes: &[u8]) -> (text: String)
    ensures
        text@ == hex_text(bytes@),
{
    hex::encode(bytes)
}

/// The contents of the first PEM document in a text, as `pem::parse` finds it, or its error where
/// the text holds none that is well formed.
pub uninterp spec fn pem_contents(text: Seq<char>) -> Result<Seq<u8>, PemError>;

/// Whether a text holds a PEM document with these contents.
pub open spec fn pem_holds(text: Seq<char>, contents: Seq<u8>) -> bool {
    pem_contents(text) == Ok::<_, PemError>(contents)
}

/// Calls `pem::parse` and takes the contents of the document, whatever its label is. Which texts
/// are well formed, what they hold, and which error the others give, is named by
/// [`pem_contents`].
#[verifier::external_body]
pub(crate) fn pem_parse(text: &str) -> (contents: Result<Vec<u8>, PemError>)
    ensures
        match contents {
            Ok(bytes) => pem_contents(text@) == Ok::<_, PemError>(bytes@),
            Err(error) => pem_contents(text@) == Err::<Seq<u8>, _>(error),
        },
{
    pem::parse(text).map(pem::Pem::into_contents)
}

/// What ends the lines of a text.
#[derive(Clone, Copy, Debug, PartialEq, Eq, Structural)]
pub enum LineEnding {
    /// A carriage return and a line feed.
    Crlf,
    /// A line feed.
    Lf,
}

impl LineEnding {
    /// The characters that end a line.
    pub open spec fn chars(self) -> Seq<char> {
        match self {
            LineEnding::Crlf => seq!['\r', '\n'],
            LineEnding::Lf => seq!['\n'],
        }
    }
}

/// The first or the last line of a PEM document.
pub open spec fn pem_boundary(word: Seq<char>, label: Seq<char>, ending: LineEnding) -> Seq<char> {
    "-----"@ + word + " "@ + label + "-----"@ + ending.chars()
}

/// Whether a text begins and ends with the lines that enclose a PEM document.
pub open spec fn pem_framed(text: Seq<char>, label: Seq<char>, ending: LineEnding) -> bool {
    let begin = pem_boundary("BEGIN"@, label, ending);
    let end = pem_boundary("END"@, label, ending);
    &&& text.len() >= begin.len() + end.len()
    &&& text.take(begin.len() as int) == begin
    &&& text.skip(text.len() - end.len()) == end
}

/// The PEM document with the given label, contents and line ending, as `pem::encode_config` writes
/// it.
pub uninterp spec fn pem_text(
    label: Seq<char>,
    contents: Seq<u8>,
    ending: LineEnding,
) -> Seq<char>;

/// Calls `pem::encode_config` on a document without headers, with lines that end as asked for. The
/// text is named by [`pem_text`], and the lines with the label enclose it. Under the label that
/// private keys have, `pem::parse` gets the contents back from it, and it holds no carriage return
/// where lines end in a line feed.
#[verifier::external_body]
pub(crate) fn pem_encode(label: &str, contents: Vec<u8>, ending: LineEnding) -> (text: String)
    ensures
        text@ == pem_text(label@, contents@, ending),
        pem_framed(text@, label@, ending),
        label@ == "PRIVATE KEY"@ ==> pem_holds(text@, contents@),
        label@ == "PRIVATE KEY"@ && ending == LineEnding::Lf ==> !text@.contains('\r'),
{
    let line_ending = match ending {
        LineEnding::Crlf => pem::LineEnding::CRLF,
        LineEnding::Lf => pem::LineEnding::LF,
    };
    let config = pem::EncodeConfig::new().set_line_ending(line_ending);
    pem::encode_config(&pem::Pem::new(label, contents), config)
}

/// The encoded object identifier of the algorithm and the private key octets of the PKCS#8
/// document that the bytes are, as `pkcs8::PrivateKeyInfo::try_from` finds them, or its error where
/// the bytes are no such document.
pub uninterp spec fn pkcs8_fields(document: Seq<u8>) -> Result<(Seq<u8>, Seq<u8>), Pkcs8Error>;

/// Calls `pkcs8::PrivateKeyInfo::try_from` and takes from the document the encoding of the
/// algorithm's object identifier and the private key octets. Which bytes are a document, what
/// these fields are, and which error other bytes give, is named by [`pkcs8_fields`].
#[verifier::external_body]
pub(crate) fn pkcs8_decode(document: &[u8]) -> (fields: Result<(Vec<u8>, Vec<u8>), Pkcs8Error>)
    ensures
        match fields {
            Ok((oid, key)) => pkcs8_fields(document@) == Ok::<_, Pkcs8Error>((oid@, key@)),
            Err(error) => pkcs8_fields(document@) == Err::<(Seq<u8>, Seq<u8>), _>(error),
        },
{
    let info = pkcs8::PrivateKeyInfo::try_from(document)?;
    Ok((info.algorithm.oid.as_bytes().to_vec(), info.private_key.to_vec()))
}

/// A PKCS#8 version 1 document: the version, the algorithm without parameters, and the private
/// key octets. The lengths are those of documents below 128 bytes, where each is one octet.
pub open spec fn pkcs8_document(oid: Seq<u8>, key: Seq<u8>) -> Seq<u8> {
    seq![0x30u8, (oid.len() + key.len() + 9) as u8, 0x02u8, 0x01u8, 0x00u8] + seq![
        0x30u8,
        (oid.len() + 2) as u8,
        0x06u8,
        oid.len() as u8,
    ] + oid + seq![0x04u8, key.len() as u8] + key
}

/// Calls `to_der` on a `pkcs8::PrivateKeyInfo` without algorithm parameters and without a public
/// key. For the object identifier of X25519 and a short key it succeeds, the bytes are
/// [`pkcs8_document`], and `pkcs8::PrivateKeyInfo::try_from` gets both fields back from them.
#[verifier::external_body]
pub(crate) fn pkcs8_encode(oid: &[u8], key: &[u8]) -> (document: Result<Vec<u8>, DerError>)
    requires
        oid@ == seq![0x2bu8, 0x65u8, 0x6eu8],
        key@.len() <= 100,
    ensures
        match document {
            Ok(bytes) => bytes@ == pkcs8_document(oid@, key@) && pkcs8_fields(bytes@) == Ok::<
                _,
                Pkcs8Error,
            >((oid@, key@)),
            Err(_) => false,
        },
{
    let algorithm = pkcs8::spki::AlgorithmIdentifier {
        oid: pkcs8::ObjectIdentifier::from_bytes(oid)?,
        parameters: None,
    };
    pkcs8::PrivateKeyInfo { algorithm, private_key: key, public_key: None }.to_der()
}

} // verus!
