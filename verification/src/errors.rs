use vstd::prelude::*;

verus! {

/// The distinct failure kinds of the account decoding pipeline.
///
/// Every failure of an operation in this library is one of these kinds;
/// none is ever collapsed into a generic error, so a caller can report a
/// meaningful status for each.
#[derive(Clone, Copy, Debug, PartialEq, Eq, Structural)]
pub enum PipelineError {
    /// The supplied account identifier is not a well-formed public key.
    InvalidAddress,
    /// The identifier is well-formed but no account exists at it.
    AccountNotFound,
    /// The envelope's binary layout is violated (too short, bad length prefix).
    Deserialization,
    /// The compressed payload stream is corrupt or truncated.
    Decompression,
    /// The decompressed bytes are not valid UTF-8 JSON, or the parsed
    /// document cannot be re-emitted.
    Parse,
}

impl PipelineError {
    /// A short human-readable description of the error kind.
    pub fn describe(&self) -> (r: &'static str)
        ensures
            r@ == match *self {
                PipelineError::InvalidAddress => "invalid account address"@,
                PipelineError::AccountNotFound => "account not found"@,
                PipelineError::Deserialization => "malformed account envelope"@,
                PipelineError::Decompression => "corrupt compressed payload"@,
                PipelineError::Parse => "payload is not a valid JSON document"@,
            },
    {
        match *self {
            PipelineError::InvalidAddress => "invalid account address",
            PipelineError::AccountNotFound => "account not found",
            PipelineError::Deserialization => "malformed account envelope",
            PipelineError::Decompression => "corrupt compressed payload",
            PipelineError::Parse => "payload is not a valid JSON document",
        }
    }
}

} // verus!
