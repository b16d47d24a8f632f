//! Base64 for file contents, MIME types from file names, and JSON string
//! literals.
use vstd::prelude::*;
use crate::error::ApiError;

verus! {

/// The standard, padded base64 text of a byte sequence.
pub uninterp spec fn base64_encoded(data: Seq<u8>) -> Seq<char>;

/// The bytes that standard, padded base64 text stands for, if it is well-formed.
pub uninterp spec fn base64_decoded(text: Seq<char>) -> Option<Seq<u8>>;

/// The MIME type guessed from the extension of a file name.
pub uninterp spec fn mime_of(name: Seq<char>) -> Seq<char>;

/// A string written as a JSON string literal, quotes and escapes included.
pub uninterp spec fn json_quoted(s: Seq<char>) -> Seq<char>;

pub open spec fn octet_stream() -> Seq<char> {
    "application/octet-stream"@
}

/// Relies on base64::encode (standard alphabet, padded), and on
/// base64::decode giving back the bytes of what it wrote.
#[verifier::external_body]
fn encode_standard(data: &[u8]) -> (r: String)
    ensures
        r@ == base64_encoded(data@),
        base64_decoded(r@) == Some(data@),
{
    #[allow(deprecated)]
    base64::encode(data)
}

/// Relies on base64::decode (standard alphabet, padded).
#[verifier::external_body]
fn decode_standard(text: &str) -> (r: Option<Vec<u8>>)
    ensures
        r is Some <==> base64_decoded(text@) is Some,
        r matches Some(v) ==> base64_decoded(text@) == Some(v@),
{
    #[allow(deprecated)]
    base64::decode(text).ok()
}

/// Relies on mime_guess::from_path(..).first_or_octet_stream(): the first
/// type known for the name's extension, `application/octet-stream` for a
/// name without one.
#[verifier::external_body]
fn guess_mime(name: &str) -> (r: String)
    ensures
        r@ == mime_of(name@),
        !name@.contains('.') ==> r@ == octet_stream(),
{
    mime_guess::from_path(name).first_or_octet_stream().to_string()
}

/// Relies on serde_json writing a `Value::String` as a JSON string literal.
#[verifier::external_body]
pub(crate) fn quote_json(s: &str) -> (r: String)
    ensures
        r@ == json_quoted(s@),
{
    serde_json::Value::String(s.to_string()).to_string()
}

/// The base64 text of a file's contents, as the service expects it.
pub fn as_base64(data: &Vec<u8>) -> (r: String)
    ensures
        r@ == base64_encoded(data@),
        base64_decoded(r@) == Some(data@),
{
    encode_standard(data.as_slice())
}

/// The bytes that base64 text stands for; malformed text is a `Decode` error.
pub fn from_base64(text: &str) -> (r: Result<Vec<u8>, ApiError>)
    ensures
        r is Ok <==> base64_decoded(text@) is Some,
        r matches Ok(v) ==> base64_decoded(text@) == Some(v@),
        r is Err ==> r matches Err(ApiError::Decode(_)),
{
    match decode_standard(text) {
        Some(v) => Ok(v),
        None => Err(ApiError::Decode(String::from_str("malformed base64 content"))),
    }
}

/// The MIME type of a file, from the extension of its name;
/// `application/octet-stream` where none is known.
pub fn mime_type_for(file_name: &str) -> (r: String)
    ensures
        r@ == mime_of(file_name@),
        !file_name@.contains('.') ==> r@ == octet_stream(),
{
    guess_mime(file_name)
}

} // verus!
