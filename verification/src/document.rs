use vstd::prelude::*;

use crate::errors::PipelineError;

verus! {

/// The canonical pretty-printed text of the JSON document encoded in
/// `bytes`: `Some` exactly when `bytes` is valid UTF-8, syntactically valid
/// JSON, and the parsed structure can be re-emitted; `None` otherwise. The
/// re-emission keeps the key set and key order of the source document and
/// is a function of the input bytes alone.
pub uninterp spec fn pretty_form(bytes: Seq<u8>) -> Option<Seq<char>>;

/// Relies on `serde_json::from_slice` to parse the bytes into a generic
/// `serde_json::Value` (with insertion order of object keys preserved) and
/// on `serde_json::to_string_pretty` to re-emit that value with stable
/// indentation; both are pure functions of the input bytes, so `pretty_form`
/// names their composition.
#[verifier::external_body]
fn parse_and_pretty(bytes: &[u8]) -> (r: Option<String>)
    ensures
        r is Some <==> pretty_form(bytes@) is Some,
        (r matches Some(text) ==> pretty_form(bytes@) == Some(text@)),
{
    let value: serde_json::Value = match serde_json::from_slice(bytes) {
        Ok(v) => v,
        Err(_) => return None,
    };
    match serde_json::to_string_pretty(&value) {
        Ok(text) => Some(text),
        Err(_) => None,
    }
}

/// Parses the decompressed bytes as a JSON document and re-emits it
/// pretty-printed, preserving the key set and key order exactly; no field
/// is filtered, renamed or filled in. Bytes that are not valid UTF-8 JSON,
/// or whose parsed structure cannot be re-emitted, yield a parse error.
pub fn reemit_document(bytes: &[u8]) -> (r: Result<String, PipelineError>)
    ensures
        r is Ok <==> pretty_form(bytes@) is Some,
        (r matches Ok(text) ==> pretty_form(bytes@) == Some(text@)),
        (r matches Err(e) ==> e == PipelineError::Parse),
{
    match parse_and_pretty(bytes) {
        Some(text) => Ok(text),
        None => Err(PipelineError::Parse),
    }
}

} // verus!
