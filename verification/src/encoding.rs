//! Base64, as the helpers that carry file contents to and from the frontend
//! use it: the standard alphabet with padding, computed by the `base64` crate.

use vstd::prelude::*;
use vstd::string::*;

verus! {

/// The standard, padded base64 text of `bytes`.
pub uninterp spec fn base64_text(bytes: Seq<u8>) -> Seq<char>;

/// What decoding `text` as standard, padded base64 gives: the bytes, or the
/// decoder's description of what is wrong with the text.
pub uninterp spec fn base64_decoding(text: Seq<char>) -> Result<Seq<u8>, Seq<char>>;

/// Calls `Engine::encode` on `base64::engine::general_purpose::STANDARD`.
/// That function panics where the length of the text does not fit in `usize`;
/// the bound on the input keeps it well below. Trusted: the result is the
/// named answer `base64_text`.
#[verifier::external_body]
fn standard_encode(bytes: &[u8]) -> (r: String)
    requires
        bytes@.len() <= usize::MAX / 2,
    ensures
        r@ == base64_text(bytes@),
{
    base64::Engine::encode(&base64::engine::general_purpose::STANDARD, bytes)
}

/// Calls `Engine::decode` on `base64::engine::general_purpose::STANDARD` and
/// keeps the text of its error. Trusted: the result is the named answer
/// `base64_decoding`.
#[verifier::external_body]
fn standard_decode(text: &str) -> (r: Result<Vec<u8>, String>)
    ensures
        match base64_decoding(text@) {
            Ok(bytes) => r matches Ok(b) && b@ == bytes,
            Err(why) => r matches Err(e) && e@ == why,
        },
{
    base64::Engine::decode(&base64::engine::general_purpose::STANDARD, text).map_err(
        |e| e.to_string(),
    )
}

/// The data handed over was no base64; the text says what is wrong with it.
#[derive(Debug, PartialEq, Eq)]
pub struct DecodeFailure {
    pub reason: String,
}

/// The text shown for a `DecodeFailure`.
pub open spec fn decode_failure_text(reason: Seq<char>) -> Seq<char> {
    "base64 解码失败: "@ + reason
}

impl DecodeFailure {
    /// Describes the error for display.
    pub fn message(&self) -> (r: String)
        ensures
            r@ == decode_failure_text(self.reason@),
    {
        let mut s = String::from_str("base64 解码失败: ");
        s.append(self.reason.as_str());
        s
    }
}

/// Encodes the content of a file for the frontend.
pub fn encode_content(bytes: &[u8]) -> (r: String)
    requires
        bytes@.len() <= usize::MAX / 2,
    ensures
        r@ == base64_text(bytes@),
{
    standard_encode(bytes)
}

/// Turns what the decoder said into the bytes to write, or the failure to
/// report.
pub fn decoded(outcome: Result<Vec<u8>, String>) -> (r: Result<Vec<u8>, DecodeFailure>)
    ensures
        match outcome {
            Ok(bytes) => r matches Ok(b) && b@ == bytes@,
            Err(why) => r matches Err(e) && e.reason@ == why@,
        },
{
    match outcome {
        Ok(bytes) => Ok(bytes),
        Err(reason) => Err(DecodeFailure { reason }),
    }
}

/// Decodes the data that the frontend hands over for a file.
pub fn decode_content(data: &str) -> (r: Result<Vec<u8>, DecodeFailure>)
    ensures
        match base64_decoding(data@) {
            Ok(bytes) => r matches Ok(b) && b@ == bytes,
            Err(why) => r matches Err(e) && e.reason@ == why,
        },
{
    decoded(standard_decode(data))
}

} // verus!
