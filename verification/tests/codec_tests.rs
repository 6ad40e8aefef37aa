use gorc::codec::{decode, encode};
use gorc::errors::DecodeError;
use gorc::request::VariantTag;
use gorc::response::{KeyType, QueryResponse};

fn balance_payload(denom: &[u8], amount: u64) -> Vec<u8> {
    let mut bytes = vec![1u8, denom.len() as u8];
    bytes.extend_from_slice(denom);
    bytes.extend_from_slice(&amount.to_be_bytes());
    bytes
}

fn key_payload(kind: u8, key: &[u8]) -> Vec<u8> {
    let mut bytes = vec![2u8, kind, key.len() as u8];
    bytes.extend_from_slice(key);
    bytes
}

#[test]
fn decodes_balance_payload() {
    let bytes = balance_payload(b"uatom", 1_500_000);
    let decoded = decode(&bytes, VariantTag::Balance).unwrap();
    assert_eq!(
        decoded,
        QueryResponse::Balance { denom: b"uatom".to_vec(), amount: 1_500_000 }
    );
}

#[test]
fn decodes_validator_key_payload() {
    let bytes = key_payload(1, &[0xAA, 0xBB, 0xCC]);
    let decoded = decode(&bytes, VariantTag::ValidatorKey).unwrap();
    assert_eq!(
        decoded,
        QueryResponse::ValidatorKey {
            public_key_bytes: vec![0xAA, 0xBB, 0xCC],
            key_type: KeyType::Ed25519,
        }
    );
}

#[test]
fn decoding_twice_yields_equal_values() {
    let bytes = balance_payload(b"stake", u64::MAX);
    let first = decode(&bytes, VariantTag::Balance).unwrap();
    let second = decode(&bytes, VariantTag::Balance).unwrap();
    assert_eq!(first, second);
}

#[test]
fn key_bytes_for_balance_request_is_variant_mismatch() {
    let bytes = key_payload(2, &[1, 2, 3, 4]);
    let err = decode(&bytes, VariantTag::Balance).unwrap_err();
    assert_eq!(err, DecodeError::VariantMismatch);
}

#[test]
fn balance_bytes_for_key_request_is_variant_mismatch() {
    let bytes = balance_payload(b"uatom", 7);
    let err = decode(&bytes, VariantTag::ValidatorKey).unwrap_err();
    assert_eq!(err, DecodeError::VariantMismatch);
}

#[test]
fn empty_payload_is_malformed() {
    let bytes: Vec<u8> = Vec::new();
    assert_eq!(
        decode(&bytes, VariantTag::Balance).unwrap_err(),
        DecodeError::Malformed
    );
}

#[test]
fn unknown_tag_is_malformed() {
    let bytes = vec![9u8, 0, 0];
    assert_eq!(
        decode(&bytes, VariantTag::Balance).unwrap_err(),
        DecodeError::Malformed
    );
    assert_eq!(
        decode(&bytes, VariantTag::ValidatorKey).unwrap_err(),
        DecodeError::Malformed
    );
}

#[test]
fn empty_denomination_is_malformed() {
    let bytes = balance_payload(b"", 5);
    assert_eq!(
        decode(&bytes, VariantTag::Balance).unwrap_err(),
        DecodeError::Malformed
    );
}

#[test]
fn truncated_balance_payload_is_malformed() {
    let mut bytes = balance_payload(b"uatom", 5);
    bytes.pop();
    assert_eq!(
        decode(&bytes, VariantTag::Balance).unwrap_err(),
        DecodeError::Malformed
    );
}

#[test]
fn trailing_bytes_are_malformed() {
    let mut bytes = balance_payload(b"uatom", 5);
    bytes.push(0);
    assert_eq!(
        decode(&bytes, VariantTag::Balance).unwrap_err(),
        DecodeError::Malformed
    );
}

#[test]
fn unknown_key_kind_is_malformed() {
    let bytes = key_payload(3, &[1, 2]);
    assert_eq!(
        decode(&bytes, VariantTag::ValidatorKey).unwrap_err(),
        DecodeError::Malformed
    );
}

#[test]
fn empty_key_is_malformed() {
    let bytes = key_payload(1, &[]);
    assert_eq!(
        decode(&bytes, VariantTag::ValidatorKey).unwrap_err(),
        DecodeError::Malformed
    );
}

#[test]
fn balance_round_trip() {
    let resp = QueryResponse::Balance { denom: b"uatom".to_vec(), amount: 123_456_789_012 };
    let bytes = encode(&resp);
    assert_eq!(bytes, balance_payload(b"uatom", 123_456_789_012));
    assert_eq!(decode(&bytes, VariantTag::Balance).unwrap(), resp);
}

#[test]
fn validator_key_round_trip() {
    let resp = QueryResponse::ValidatorKey {
        public_key_bytes: vec![7u8; 32],
        key_type: KeyType::Secp256k1,
    };
    let bytes = encode(&resp);
    assert_eq!(decode(&bytes, VariantTag::ValidatorKey).unwrap(), resp);
    assert_eq!(
        decode(&bytes, VariantTag::Balance).unwrap_err(),
        DecodeError::VariantMismatch
    );
}

#[test]
fn largest_field_lengths_round_trip() {
    let denom = vec![b'x'; 255];
    let balance = QueryResponse::Balance { denom: denom.clone(), amount: u64::MAX };
    let bytes = encode(&balance);
    assert_eq!(bytes.len(), 2 + 255 + 8);
    assert_eq!(decode(&bytes, VariantTag::Balance).unwrap(), balance);

    let key = QueryResponse::ValidatorKey {
        public_key_bytes: vec![0xEE; 255],
        key_type: KeyType::Ed25519,
    };
    let bytes = encode(&key);
    assert_eq!(bytes.len(), 3 + 255);
    assert_eq!(decode(&bytes, VariantTag::ValidatorKey).unwrap(), key);
}

#[test]
fn decoded_responses_carry_their_variant_tag() {
    let balance = decode(&balance_payload(b"uatom", 1), VariantTag::Balance).unwrap();
    assert_eq!(balance.tag(), VariantTag::Balance);
    let key = decode(&key_payload(2, &[9]), VariantTag::ValidatorKey).unwrap();
    assert_eq!(key.tag(), VariantTag::ValidatorKey);
}

#[test]
fn amount_is_read_big_endian() {
    let bytes = balance_payload(b"a", 0x0102_0304_0506_0708);
    let decoded = decode(&bytes, VariantTag::Balance).unwrap();
    assert_eq!(
        decoded,
        QueryResponse::Balance { denom: b"a".to_vec(), amount: 0x0102_0304_0506_0708 }
    );
}
