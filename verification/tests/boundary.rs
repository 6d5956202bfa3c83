use flate2::write::ZlibEncoder;
use flate2::Compression;
use idl_pipeline::address::validate_address;
use idl_pipeline::cluster::get_cluster_url;
use idl_pipeline::decompress::decompress_payload;
use idl_pipeline::errors::PipelineError;
use idl_pipeline::pipeline::process_account;
use std::io::Write;

fn compress(data: &[u8]) -> Vec<u8> {
    let mut encoder = ZlibEncoder::new(Vec::new(), Compression::default());
    encoder.write_all(data).unwrap();
    encoder.finish().unwrap()
}

#[test]
fn known_cluster_urls() {
    assert_eq!(
        get_cluster_url("mainnet-beta"),
        Some("https://api.mainnet-beta.solana.com")
    );
    assert_eq!(get_cluster_url("testnet"), Some("https://api.testnet.solana.com"));
    assert_eq!(get_cluster_url("devnet"), Some("https://api.devnet.solana.com"));
}

#[test]
fn unknown_cluster_is_quietly_rejected() {
    assert_eq!(get_cluster_url("localnet"), None);
    assert_eq!(get_cluster_url(""), None);
    assert_eq!(get_cluster_url("MAINNET-BETA"), None);
}

#[test]
fn valid_address_accepted() {
    let key = validate_address("11111111111111111111111111111111").unwrap();
    assert_eq!(key.to_bytes(), [0u8; 32]);
}

#[test]
fn invalid_address_rejected() {
    assert_eq!(
        validate_address("not-a-key").map(|k| k.to_bytes()),
        Err(PipelineError::InvalidAddress)
    );
    assert_eq!(
        validate_address("").map(|k| k.to_bytes()),
        Err(PipelineError::InvalidAddress)
    );
    // '0', 'O', 'I' and 'l' are outside the base58 alphabet.
    assert_eq!(
        validate_address("0OIl0OIl0OIl0OIl0OIl0OIl0OIl0OIl").map(|k| k.to_bytes()),
        Err(PipelineError::InvalidAddress)
    );
}

#[test]
fn missing_account_is_not_found() {
    assert_eq!(process_account(None), Err(PipelineError::AccountNotFound));
}

#[test]
fn present_account_is_decoded() {
    let doc = "{\"name\":\"here\"}";
    let mut raw = vec![0u8; 40];
    let payload = compress(doc.as_bytes());
    raw.extend_from_slice(&(payload.len() as u32).to_le_bytes());
    raw.extend_from_slice(&payload);
    let out = process_account(Some(raw)).unwrap();
    assert_eq!(out, "{\n  \"name\": \"here\"\n}");
}

#[test]
fn decompression_recovers_exactly_and_is_no_identity() {
    let original = b"{\"name\":\"abcabcabcabcabcabcabc\"}".to_vec();
    let packed = compress(&original);
    assert_ne!(packed, original);
    assert_eq!(decompress_payload(&packed), Ok(original));
}

#[test]
fn decompression_rejects_plain_bytes() {
    assert_eq!(
        decompress_payload(b"these bytes are no zlib stream"),
        Err(PipelineError::Decompression)
    );
}

#[test]
fn error_descriptions_are_distinct() {
    let kinds = [
        PipelineError::InvalidAddress,
        PipelineError::AccountNotFound,
        PipelineError::Deserialization,
        PipelineError::Decompression,
        PipelineError::Parse,
    ];
    for (i, a) in kinds.iter().enumerate() {
        for (j, b) in kinds.iter().enumerate() {
            assert_eq!(a.describe() == b.describe(), i == j);
        }
    }
    assert_eq!(PipelineError::AccountNotFound.describe(), "account not found");
}
