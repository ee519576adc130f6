use solkit::codec::{decode_base58, decode_base64, encode_base58, encode_base64, parse_public_key};
use solkit::error::CoreError;

fn sample_inputs() -> Vec<Vec<u8>> {
    vec![
        vec![],
        vec![0],
        vec![0, 0, 0],
        vec![0, 0, 1],
        vec![255, 254, 253, 252, 251],
        vec![1; 32],
        (0u8..=255).collect(),
    ]
}

#[test]
fn base58_round_trip() {
    for b in sample_inputs() {
        let text = encode_base58(&b);
        let back = decode_base58(&text).expect("canonical text must decode");
        assert_eq!(back, b);
    }
}

#[test]
fn base64_round_trip() {
    for b in sample_inputs() {
        let text = encode_base64(&b);
        let back = decode_base64(&text).expect("canonical text must decode");
        assert_eq!(back, b);
    }
}

#[test]
fn base58_matches_reference() {
    for b in sample_inputs() {
        assert_eq!(encode_base58(&b), bs58::encode(&b).into_string());
    }
}

#[test]
fn base64_matches_reference() {
    for b in sample_inputs() {
        assert_eq!(
            encode_base64(&b),
            base64::Engine::encode(&base64::engine::general_purpose::STANDARD, &b)
        );
    }
}

#[test]
fn decode_base58_rejects_bad_alphabet() {
    assert_eq!(decode_base58("0OIl"), Err(CoreError::DecodeError));
    assert_eq!(decode_base58("hello world!"), Err(CoreError::DecodeError));
}

#[test]
fn decode_base64_rejects_bad_text() {
    assert_eq!(decode_base64("####"), Err(CoreError::DecodeError));
    assert_eq!(decode_base64("QQ="), Err(CoreError::DecodeError));
}

#[test]
fn parse_public_key_accepts_key_text() {
    let bytes: Vec<u8> = (10u8..42).collect();
    assert_eq!(bytes.len(), 32);
    let text = encode_base58(&bytes);
    let key = parse_public_key(&text).expect("32-byte encoding must parse");
    assert_eq!(key.bytes, bytes);
}

#[test]
fn parse_public_key_rejects_malformed_text() {
    match parse_public_key("not-base58!!") {
        Err(CoreError::DecodeError) | Err(CoreError::InvalidKeyFormat) => {}
        other => panic!("expected a decode failure, got {:?}", other),
    }
}

#[test]
fn parse_public_key_rejects_wrong_length() {
    let short: Vec<u8> = vec![9; 31];
    let text = encode_base58(&short);
    assert!(matches!(parse_public_key(&text), Err(CoreError::InvalidKeyFormat)));
    let long: Vec<u8> = vec![9; 33];
    let text = encode_base58(&long);
    assert!(matches!(parse_public_key(&text), Err(CoreError::InvalidKeyFormat)));
}
