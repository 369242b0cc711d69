//! Token id extraction from asset URIs of the shape `.../<digits>.json`.

use dust_bridging::error::DustBridgingError;
use dust_bridging::uri::extract_token_id;

#[test]
fn extracts_token_id_from_collection_uri() {
    assert_eq!(
        extract_token_id(b"https://metadata.degods.com/g/3250.json"),
        Ok(3250)
    );
    assert_eq!(
        extract_token_id(b"https://metadata.y00ts.com/y/67.json"),
        Ok(67)
    );
}

#[test]
fn extracts_from_right_padded_uri() {
    assert_eq!(
        extract_token_id(b"https://metadata.y00ts.com/y/67.json\0\0\0\0\0\0"),
        Ok(67)
    );
}

#[test]
fn extracts_zero_and_maximum() {
    assert_eq!(extract_token_id(b"a/0.json"), Ok(0));
    assert_eq!(extract_token_id(b"a/65535.json"), Ok(65535));
}

#[test]
fn rejects_uri_without_slash() {
    assert_eq!(
        extract_token_id(b"3250.json"),
        Err(DustBridgingError::MalformedUri)
    );
}

#[test]
fn rejects_uri_without_json_suffix() {
    assert_eq!(
        extract_token_id(b"https://x/3250.png"),
        Err(DustBridgingError::MalformedUri)
    );
    assert_eq!(extract_token_id(b""), Err(DustBridgingError::MalformedUri));
}

#[test]
fn rejects_json_before_final_slash() {
    assert_eq!(
        extract_token_id(b"a.json/b"),
        Err(DustBridgingError::MalformedUri)
    );
}

#[test]
fn rejects_empty_segment() {
    assert_eq!(
        extract_token_id(b"https://x/.json"),
        Err(DustBridgingError::UnparsableTokenId)
    );
}

#[test]
fn rejects_non_digit_segment() {
    assert_eq!(
        extract_token_id(b"https://x/12a.json"),
        Err(DustBridgingError::UnparsableTokenId)
    );
    assert_eq!(
        extract_token_id(b"https://x/+12.json"),
        Err(DustBridgingError::UnparsableTokenId)
    );
}

#[test]
fn rejects_segment_beyond_u16() {
    assert_eq!(
        extract_token_id(b"https://x/65536.json"),
        Err(DustBridgingError::UnparsableTokenId)
    );
    assert_eq!(
        extract_token_id(b"https://x/99999999999999999999.json"),
        Err(DustBridgingError::UnparsableTokenId)
    );
}
