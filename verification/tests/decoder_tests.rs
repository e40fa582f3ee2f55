use casper_client::decoder::{decode_search_response, encode_search_response, SearchResult};
use casper_client::error::CasperError;

#[test]
fn decode_round_trip_reproduces_records() {
    let records = vec![
        SearchResult { id: 1, score_bits: 0.5f32.to_bits() },
        SearchResult { id: 42, score_bits: (-3.25f32).to_bits() },
        SearchResult { id: u32::MAX, score_bits: 123456789 },
    ];
    let bytes = encode_search_response(&records);
    assert_eq!(bytes.len(), 4 + 8 * records.len());
    let decoded = decode_search_response(&bytes).unwrap();
    assert_eq!(decoded, records);
}

#[test]
fn decode_empty_response() {
    let bytes = encode_search_response(&vec![]);
    assert_eq!(bytes, vec![0u8, 0, 0, 0]);
    let decoded = decode_search_response(&bytes).unwrap();
    assert_eq!(decoded, vec![]);
}

#[test]
fn decode_manual_byte_layout() {
    // count = 2, records (7, 1.5f32) and (9, -2.0f32), little-endian.
    let mut bytes: Vec<u8> = vec![2, 0, 0, 0];
    bytes.extend_from_slice(&7u32.to_le_bytes());
    bytes.extend_from_slice(&1.5f32.to_le_bytes());
    bytes.extend_from_slice(&9u32.to_le_bytes());
    bytes.extend_from_slice(&(-2.0f32).to_le_bytes());
    let decoded = decode_search_response(&bytes).unwrap();
    assert_eq!(decoded.len(), 2);
    assert_eq!(decoded[0].id, 7);
    assert_eq!(f32::from_bits(decoded[0].score_bits), 1.5);
    assert_eq!(decoded[1].id, 9);
    assert_eq!(f32::from_bits(decoded[1].score_bits), -2.0);
}

#[test]
fn decode_tolerates_trailing_bytes() {
    let mut bytes: Vec<u8> = vec![1, 0, 0, 0];
    bytes.extend_from_slice(&3u32.to_le_bytes());
    bytes.extend_from_slice(&0.25f32.to_le_bytes());
    bytes.extend_from_slice(&[0xAA, 0xBB, 0xCC]);
    let decoded = decode_search_response(&bytes).unwrap();
    assert_eq!(decoded, vec![SearchResult { id: 3, score_bits: 0.25f32.to_bits() }]);
}

#[test]
fn decode_too_short_for_header() {
    for len in 0..4usize {
        let bytes = vec![0u8; len];
        let err = decode_search_response(&bytes).unwrap_err();
        assert_eq!(
            err,
            CasperError::InvalidResponse(
                "binary search response too short (missing count)".to_string()
            )
        );
    }
}

#[test]
fn decode_truncated_body() {
    // Claims 3 records but carries none.
    let bytes = 3u32.to_le_bytes().to_vec();
    let err = decode_search_response(&bytes).unwrap_err();
    assert_eq!(
        err,
        CasperError::InvalidResponse(
            "binary search response truncated: expected at least 28 bytes, got 4".to_string()
        )
    );
}

#[test]
fn decode_adversarial_count_fails_cleanly() {
    // count = u32::MAX with a tiny buffer: must reject, not allocate.
    let mut bytes = u32::MAX.to_le_bytes().to_vec();
    bytes.extend_from_slice(&[1, 2, 3, 4]);
    let err = decode_search_response(&bytes).unwrap_err();
    assert_eq!(
        err,
        CasperError::InvalidResponse(
            "binary search response truncated: expected at least 34359738364 bytes, got 8"
                .to_string()
        )
    );
}

#[test]
fn decode_exact_length_boundary() {
    // One record needs exactly 12 bytes; 11 must fail, 12 must pass.
    let mut bytes: Vec<u8> = vec![1, 0, 0, 0];
    bytes.extend_from_slice(&5u32.to_le_bytes());
    bytes.extend_from_slice(&[0, 0, 0]);
    let err = decode_search_response(&bytes).unwrap_err();
    assert_eq!(
        err,
        CasperError::InvalidResponse(
            "binary search response truncated: expected at least 12 bytes, got 11".to_string()
        )
    );
    bytes.push(0);
    let decoded = decode_search_response(&bytes).unwrap();
    assert_eq!(decoded, vec![SearchResult { id: 5, score_bits: 0 }]);
}
