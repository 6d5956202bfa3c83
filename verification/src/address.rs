use vstd::prelude::*;

use crate::errors::PipelineError;
use std::str::FromStr;

verus! {

#[verifier::external_type_specification]
#[verifier::external_body]
pub struct ExPubkey(solana_sdk::pubkey::Pubkey);

/// Whether `s` is the base58 text of a 32-byte public key, exactly the
/// texts that the key parser accepts.
pub uninterp spec fn is_pubkey_text(s: Seq<char>) -> bool;

/// Relies on `solana_sdk::pubkey::Pubkey::from_str`: a pure base58 decode
/// of the characters that succeeds exactly on well-formed encodings of a
/// 32-byte key and never panics.
#[verifier::external_body]
fn parse_pubkey(s: &str) -> (r: Option<solana_sdk::pubkey::Pubkey>)
    ensures
        r is Some <==> is_pubkey_text(s@),
{
    match solana_sdk::pubkey::Pubkey::from_str(s) {
        Ok(key) => Some(key),
        Err(_) => None,
    }
}

/// Checks the supplied account identifier before any network work: a text
/// that is not a well-formed public key is rejected as an invalid address.
pub fn validate_address(s: &str) -> (r: Result<solana_sdk::pubkey::Pubkey, PipelineError>)
    ensures
        r is Ok <==> is_pubkey_text(s@),
        (r matches Err(e) ==> e == PipelineError::InvalidAddress),
{
    match parse_pubkey(s) {
        Some(key) => Ok(key),
        None => Err(PipelineError::InvalidAddress),
    }
}

} // verus!
