//! The three decoding steps that other crates perform: base64, gzip and the
//! JSON well-formedness test.  Each is called through one wrapper whose
//! contract is taken on trust; the result of each is named by a spec function
//! so that the contracts built on top can be exact.

use vstd::prelude::*;

verus! {

/// What decoding `text` with the standard base64 alphabet and mandatory
/// padding gives: the bytes, or `None` where the engine rejects `text`.
pub uninterp spec fn base64_decoded(text: Seq<char>) -> Option<Seq<u8>>;

/// What reading `bytes` through a gzip decoder gives: the text of the first
/// member, or `None` where the stream is rejected or its output is not UTF-8.
pub uninterp spec fn gunzipped_text(bytes: Seq<u8>) -> Option<Seq<char>>;

/// Whether the JSON parser accepts `text` as one document: a single value,
/// nothing but white space around it, nesting within the parser's limit.
pub uninterp spec fn json_parses(text: Seq<char>) -> bool;

/// The view of an optional byte vector.
pub open spec fn bytes_view(bytes: Option<Vec<u8>>) -> Option<Seq<u8>> {
    match bytes {
        Some(b) => Some(b@),
        None => None,
    }
}

/// The view of an optional string.
pub open spec fn text_view(text: Option<String>) -> Option<Seq<char>> {
    match text {
        Some(t) => Some(t@),
        None => None,
    }
}

/// Calls `base64::Engine::decode` on `base64::engine::general_purpose::STANDARD`.
/// Trusted: the call is a function of the input text alone, and an `Err` of
/// the engine is handed back as `None`.
#[verifier::external_body]
pub(crate) fn base64_decode(text: &str) -> (out: Option<Vec<u8>>)
    ensures
        bytes_view(out) == base64_decoded(text@),
{
    base64::Engine::decode(&base64::engine::general_purpose::STANDARD, text).ok()
}

/// Reads `bytes` to the end through `flate2::read::GzDecoder` with
/// `std::io::Read::read_to_string`.  Trusted: the outcome is a function of
/// the bytes alone, and an I/O error (bad header, corrupt stream, output that
/// is not UTF-8) is handed back as `None`.
#[verifier::external_body]
pub(crate) fn gunzip_to_string(bytes: &[u8]) -> (out: Option<String>)
    ensures
        text_view(out) == gunzipped_text(bytes@),
{
    let mut text = String::new();
    match std::io::Read::read_to_string(&mut flate2::read::GzDecoder::new(bytes), &mut text) {
        Ok(_) => Some(text),
        Err(_) => None,
    }
}

/// Calls `serde_json::from_str` for a `serde_json::Value` and keeps only
/// whether it succeeded.  Trusted: success is a function of the text alone.
#[verifier::external_body]
pub(crate) fn is_json(text: &str) -> (out: bool)
    ensures
        out == json_parses(text@),
{
    serde_json::from_str::<serde_json::Value>(text).is_ok()
}

} // verus!
