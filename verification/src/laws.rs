use vstd::prelude::*;

use crate::decompress::zlib_inflate;
use crate::document::pretty_form;
use crate::envelope::{declared_payload_len, envelope_well_formed, le_u32, spec_payload, AUTHORITY_LEN, DISCRIMINATOR_LEN, HEADER_LEN, LEN_PREFIX_LEN, LEN_PREFIX_OFFSET};
use crate::errors::PipelineError;
use crate::pipeline::pipeline_spec;

verus! {

/// Round trip: wrap any zlib stream that inflates to a valid JSON document
/// in a well-formed envelope — an 8-byte tag of any value, a 32-byte
/// authority of any value, and a length prefix declaring exactly the
/// stream's length — and the pipeline returns precisely the canonical
/// pretty text of that document.
pub proof fn lemma_round_trip(
    tag: Seq<u8>,
    authority: Seq<u8>,
    prefix: Seq<u8>,
    payload: Seq<u8>,
    doc: Seq<u8>,
    text: Seq<char>,
)
    requires
        tag.len() == DISCRIMINATOR_LEN,
        authority.len() == AUTHORITY_LEN,
        prefix.len() == LEN_PREFIX_LEN,
        le_u32(prefix) == payload.len(),
        zlib_inflate(payload) == Some(doc),
        pretty_form(doc) == Some(text),
    ensures
        pipeline_spec(tag + authority + prefix + payload) == Ok::<Seq<char>, PipelineError>(text),
{
    let raw = tag + authority + prefix + payload;
    assert(raw.len() == HEADER_LEN + payload.len());
    assert(raw.subrange(LEN_PREFIX_OFFSET as int, HEADER_LEN as int) =~= prefix) by {
        assert forall|i: int| 0 <= i < LEN_PREFIX_LEN implies raw.subrange(
            LEN_PREFIX_OFFSET as int,
            HEADER_LEN as int,
        )[i] == prefix[i] by {
            assert(raw[LEN_PREFIX_OFFSET + i] == prefix[i]);
        }
    }
    assert(declared_payload_len(raw) == payload.len());
    assert(envelope_well_formed(raw));
    assert(spec_payload(raw) =~= payload) by {
        assert forall|i: int| 0 <= i < payload.len() implies spec_payload(raw)[i] == payload[i] by {
            assert(raw[HEADER_LEN + i] == payload[i]);
        }
    }
}

/// Discriminator independence: two raw records that agree on everything
/// but their first 8 bytes run through the pipeline to the same outcome;
/// the tag's value is never read, only its length.
pub proof fn lemma_discriminator_independence(raw1: Seq<u8>, raw2: Seq<u8>)
    requires
        raw1.len() == raw2.len(),
        raw1.len() >= DISCRIMINATOR_LEN,
        forall|i: int| DISCRIMINATOR_LEN <= i < raw1.len() ==> raw1[i] == raw2[i],
    ensures
        pipeline_spec(raw1) == pipeline_spec(raw2),
{
    if raw1.len() >= HEADER_LEN {
        assert(raw1.subrange(LEN_PREFIX_OFFSET as int, HEADER_LEN as int) =~= raw2.subrange(
            LEN_PREFIX_OFFSET as int,
            HEADER_LEN as int,
        ));
        assert(declared_payload_len(raw1) == declared_payload_len(raw2));
        if envelope_well_formed(raw1) {
            assert(spec_payload(raw1) =~= spec_payload(raw2));
        }
    }
}

/// Truncation safety: cutting a well-formed record anywhere strictly before
/// the end of its declared payload always yields the deserialization error —
/// never a partial envelope, and never a later stage's outcome.
pub proof fn lemma_truncation_fails(raw: Seq<u8>, t: int)
    requires
        envelope_well_formed(raw),
        0 <= t <= raw.len(),
        t < HEADER_LEN + declared_payload_len(raw),
    ensures
        pipeline_spec(raw.take(t)) == Err::<Seq<char>, PipelineError>(
            PipelineError::Deserialization,
        ),
{
    let cut = raw.take(t);
    if t >= HEADER_LEN {
        assert(cut.subrange(LEN_PREFIX_OFFSET as int, HEADER_LEN as int) =~= raw.subrange(
            LEN_PREFIX_OFFSET as int,
            HEADER_LEN as int,
        ));
        assert(declared_payload_len(cut) == declared_payload_len(raw));
        assert(!envelope_well_formed(cut));
    }
}

/// Every outcome is accounted for: a record that is not a well-formed
/// envelope yields exactly the deserialization error, and a well-formed one
/// yields the document's text, the decompression error, or the parse error —
/// nothing else, on any input. (That no input can crash the pipeline is part
/// of the verification of each executable function.)
pub proof fn lemma_outcome_total(raw: Seq<u8>)
    ensures
        !envelope_well_formed(raw) <==> pipeline_spec(raw) == Err::<Seq<char>, PipelineError>(
            PipelineError::Deserialization,
        ),
        envelope_well_formed(raw) ==> (pipeline_spec(raw) is Ok || pipeline_spec(raw) == Err::<
            Seq<char>,
            PipelineError,
        >(PipelineError::Decompression) || pipeline_spec(raw) == Err::<Seq<char>, PipelineError>(
            PipelineError::Parse,
        )),
{
}

} // verus!
