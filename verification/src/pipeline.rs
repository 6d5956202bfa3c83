use vstd::prelude::*;

use crate::decompress::{decompress_payload, zlib_inflate};
use crate::document::{pretty_form, reemit_document};
use crate::envelope::{decode_envelope, envelope_well_formed, spec_payload};
use crate::errors::PipelineError;

verus! {

/// What the whole pipeline returns on a raw account record: the canonical
/// pretty text of the embedded document, or the error of the first stage
/// that fails. Every outcome is one of these; no input yields a partial
/// result.
pub open spec fn pipeline_spec(raw: Seq<u8>) -> Result<Seq<char>, PipelineError> {
    if !envelope_well_formed(raw) {
        Err(PipelineError::Deserialization)
    } else {
        match zlib_inflate(spec_payload(raw)) {
            None => Err(PipelineError::Decompression),
            Some(doc) => match pretty_form(doc) {
                None => Err(PipelineError::Parse),
                Some(text) => Ok(text),
            },
        }
    }
}

/// Runs the three decoding stages in strict sequence on a raw account
/// record: envelope decoding, payload decompression, document re-emission.
/// The first failure aborts the whole operation with its distinct error;
/// otherwise the result is the document's canonical pretty text.
pub fn decode_idl_account(raw: &[u8]) -> (r: Result<String, PipelineError>)
    ensures
        r is Ok <==> pipeline_spec(raw@) is Ok,
        (r matches Ok(text) ==> pipeline_spec(raw@) == Ok::<Seq<char>, PipelineError>(text@)),
        (r matches Err(e) ==> pipeline_spec(raw@) == Err::<Seq<char>, PipelineError>(e)),
{
    let envelope = match decode_envelope(raw) {
        Ok(env) => env,
        Err(e) => {
            return Err(e);
        },
    };
    let decompressed = match decompress_payload(envelope.data.as_slice()) {
        Ok(out) => out,
        Err(e) => {
            return Err(e);
        },
    };
    reemit_document(decompressed.as_slice())
}

/// Turns the fetch collaborator's outcome into the pipeline's result: a
/// missing account is a terminal not-found failure, a present one is
/// decoded in full.
pub fn process_account(fetched: Option<Vec<u8>>) -> (r: Result<String, PipelineError>)
    ensures
        fetched is None ==> (r matches Err(e) && e == PipelineError::AccountNotFound),
        (fetched matches Some(raw) ==> {
            &&& (r is Ok <==> pipeline_spec(raw@) is Ok)
            &&& (r matches Ok(text) ==> pipeline_spec(raw@) == Ok::<Seq<char>, PipelineError>(text@))
            &&& (r matches Err(e) ==> pipeline_spec(raw@) == Err::<Seq<char>, PipelineError>(e))
        }),
{
    match fetched {
        None => Err(PipelineError::AccountNotFound),
        Some(raw) => decode_idl_account(raw.as_slice()),
    }
}

} // verus!
