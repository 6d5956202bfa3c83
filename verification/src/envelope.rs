use vstd::prelude::*;
use vstd::slice::{slice_subrange, slice_to_vec};

use crate::errors::PipelineError;

verus! {

/// Length of the leading discriminator tag: a fixed prefix defined by the
/// external account-storage convention to tell account record types apart.
/// It is skipped verbatim and never interpreted.
pub const DISCRIMINATOR_LEN: usize = 8;

/// Width of the authority public-key field that follows the discriminator.
pub const AUTHORITY_LEN: usize = 32;

/// Width of the little-endian length prefix that introduces the payload.
pub const LEN_PREFIX_LEN: usize = 4;

/// Offset of the length prefix: right after the tag and the authority key.
pub const LEN_PREFIX_OFFSET: usize = DISCRIMINATOR_LEN + AUTHORITY_LEN;

/// Total number of bytes before the payload: tag, authority, length prefix.
pub const HEADER_LEN: usize = LEN_PREFIX_OFFSET + LEN_PREFIX_LEN;

/// The value of four little-endian bytes.
pub open spec fn le_u32(b: Seq<u8>) -> nat
    recommends
        b.len() == 4,
{
    (b[0] as nat) + 0x100 * (b[1] as nat) + 0x1_0000 * (b[2] as nat) + 0x100_0000 * (b[3] as nat)
}

/// The payload length declared by the envelope's length prefix.
pub open spec fn declared_payload_len(raw: Seq<u8>) -> nat
    recommends
        raw.len() >= HEADER_LEN,
{
    le_u32(raw.subrange(LEN_PREFIX_OFFSET as int, HEADER_LEN as int))
}

/// A raw account record is a well-formed envelope when it holds the full
/// header and at least as many payload bytes as the length prefix declares.
/// Trailing bytes after the declared payload are permitted and ignored.
pub open spec fn envelope_well_formed(raw: Seq<u8>) -> bool {
    &&& raw.len() >= HEADER_LEN
    &&& raw.len() >= HEADER_LEN + declared_payload_len(raw)
}

/// The authority key bytes of a well-formed envelope.
pub open spec fn spec_authority(raw: Seq<u8>) -> Seq<u8>
    recommends
        envelope_well_formed(raw),
{
    raw.subrange(DISCRIMINATOR_LEN as int, LEN_PREFIX_OFFSET as int)
}

/// The compressed payload bytes of a well-formed envelope.
pub open spec fn spec_payload(raw: Seq<u8>) -> Seq<u8>
    recommends
        envelope_well_formed(raw),
{
    raw.subrange(HEADER_LEN as int, HEADER_LEN + declared_payload_len(raw) as int)
}

/// The typed envelope decoded from a raw account record: the authority that
/// may rewrite the account, and the compressed document payload.
pub struct IdlEnvelope {
    /// The authority public key, exactly 32 bytes.
    pub authority: Vec<u8>,
    /// The zlib-compressed document payload.
    pub data: Vec<u8>,
}

impl IdlEnvelope {
    /// The fixed-width authority field is always exactly 32 bytes.
    pub open spec fn well_formed(self) -> bool {
        self.authority@.len() == AUTHORITY_LEN
    }
}

/// Decodes a raw account record into its envelope: skips the 8-byte
/// discriminator without reading it, takes the 32-byte authority key, reads
/// the 4-byte little-endian length prefix, and takes exactly that many
/// payload bytes. Succeeds exactly on well-formed envelopes; a record that
/// is too short, or whose prefix declares more bytes than are present,
/// yields a deserialization error and no partial result.
pub fn decode_envelope(raw: &[u8]) -> (r: Result<IdlEnvelope, PipelineError>)
    ensures
        r is Ok <==> envelope_well_formed(raw@),
        (r matches Ok(env) ==> {
            &&& env.well_formed()
            &&& env.authority@ == spec_authority(raw@)
            &&& env.data@ == spec_payload(raw@)
        }),
        (r matches Err(e) ==> e == PipelineError::Deserialization),
{
    if raw.len() < HEADER_LEN {
        return Err(PipelineError::Deserialization);
    }
    let b0 = raw[LEN_PREFIX_OFFSET] as usize;
    let b1 = raw[LEN_PREFIX_OFFSET + 1] as usize;
    let b2 = raw[LEN_PREFIX_OFFSET + 2] as usize;
    let b3 = raw[LEN_PREFIX_OFFSET + 3] as usize;
    let declared: usize = b0 + 0x100 * b1 + 0x1_0000 * b2 + 0x100_0000 * b3;
    proof {
        assert(declared == declared_payload_len(raw@));
    }
    if declared > raw.len() - HEADER_LEN {
        return Err(PipelineError::Deserialization);
    }
    let authority = slice_to_vec(slice_subrange(raw, DISCRIMINATOR_LEN, LEN_PREFIX_OFFSET));
    let data = slice_to_vec(slice_subrange(raw, HEADER_LEN, HEADER_LEN + declared));
    Ok(IdlEnvelope { authority, data })
}

} // verus!
