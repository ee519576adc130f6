use solkit::codec::{encode_base58, parse_public_key};
use solkit::error::CoreError;
use solkit::keys::{from_secret_bytes, generate, sign, sign_with_secret, verify};

#[test]
fn generated_public_key_matches_reference_derivation() {
    let kp = generate();
    assert_eq!(kp.secret.len(), 32);
    assert_eq!(kp.public.bytes.len(), 32);
    let reference = solana_sdk::signer::keypair::keypair_from_seed(&kp.secret).unwrap();
    let reference_public = solana_sdk::signer::Signer::pubkey(&reference);
    assert_eq!(kp.public.bytes, reference_public.to_bytes().to_vec());
}

#[test]
fn generated_key_text_parses_back() {
    let kp = generate();
    let text = encode_base58(&kp.public.bytes);
    let parsed = parse_public_key(&text).expect("key text must parse");
    assert!(parsed == kp.public);
}

#[test]
fn from_secret_bytes_accepts_full_encoding() {
    let reference = solana_sdk::signer::keypair::Keypair::new();
    let bytes = reference.to_bytes().to_vec();
    let kp = from_secret_bytes(&bytes).expect("a real keypair encoding must reconstruct");
    assert_eq!(kp.secret, bytes[..32].to_vec());
    assert_eq!(kp.public.bytes, bytes[32..].to_vec());
}

#[test]
fn from_secret_bytes_accepts_bare_seed() {
    let seed = vec![7u8; 32];
    let kp = from_secret_bytes(&seed).expect("a 32-byte seed must reconstruct");
    assert_eq!(kp.secret, seed);
    let reference = solana_sdk::signer::keypair::keypair_from_seed(&seed).unwrap();
    let reference_public = solana_sdk::signer::Signer::pubkey(&reference);
    assert_eq!(kp.public.bytes, reference_public.to_bytes().to_vec());
}

#[test]
fn from_secret_bytes_rejects_tampered_public_half() {
    let reference = solana_sdk::signer::keypair::Keypair::new();
    let mut bytes = reference.to_bytes().to_vec();
    bytes[40] ^= 0x01;
    assert!(matches!(from_secret_bytes(&bytes), Err(CoreError::InvalidSecretKey)));
}

#[test]
fn from_secret_bytes_rejects_wrong_length() {
    assert!(matches!(from_secret_bytes(&vec![1u8; 63]), Err(CoreError::InvalidSecretKey)));
    assert!(matches!(from_secret_bytes(&vec![1u8; 65]), Err(CoreError::InvalidSecretKey)));
    assert!(matches!(from_secret_bytes(&vec![]), Err(CoreError::InvalidSecretKey)));
}

#[test]
fn sign_matches_reference_signature() {
    let kp = generate();
    let msg = b"interoperability".to_vec();
    let sig = sign(&kp, &msg);
    let mut full = kp.secret.clone();
    full.extend_from_slice(&kp.public.bytes);
    let reference = solana_sdk::signer::keypair::Keypair::from_bytes(&full).unwrap();
    let reference_sig = solana_sdk::signer::Signer::sign_message(&reference, &msg);
    assert_eq!(sig.bytes, reference_sig.as_ref().to_vec());
}

#[test]
fn sign_then_verify_succeeds() {
    let kp = generate();
    let msg = b"hello".to_vec();
    let sig = sign(&kp, &msg);
    assert_eq!(sig.bytes.len(), 64);
    assert!(verify(&kp.public, &msg, &sig));
}

#[test]
fn verify_rejects_bit_flip() {
    let kp = generate();
    let msg = b"hello".to_vec();
    let mut sig = sign(&kp, &msg);
    for flip_at in [0usize, 13, 31, 32, 63] {
        sig.bytes[flip_at] ^= 0x01;
        assert!(!verify(&kp.public, &msg, &sig));
        sig.bytes[flip_at] ^= 0x01;
    }
}

#[test]
fn verify_rejects_other_message() {
    let kp = generate();
    let msg = b"hello".to_vec();
    let sig = sign(&kp, &msg);
    assert!(verify(&kp.public, &msg, &sig));
    let other = b"hellx".to_vec();
    assert!(!verify(&kp.public, &other, &sig));
}

#[test]
fn sign_with_secret_signs_like_the_keypair() {
    let kp = generate();
    let msg = b"payload".to_vec();
    let direct = sign(&kp, &msg);
    let encoded = kp.to_secret_bytes();
    let (sig, public) = sign_with_secret(&encoded, &msg).expect("valid secret must sign");
    assert_eq!(sig.bytes, direct.bytes);
    assert!(public == kp.public);
    assert!(matches!(
        sign_with_secret(&vec![1u8; 10], &msg),
        Err(CoreError::InvalidSecretKey)
    ));
}

#[test]
fn secret_text_flow_signs_and_verifies() {
    let kp = generate();
    let secret_text = encode_base58(&kp.to_secret_bytes());
    let public_text = encode_base58(&kp.public.bytes);
    let secret_bytes = solkit::codec::decode_base58(&secret_text).expect("own text must decode");
    let msg = b"hello".to_vec();
    let (sig, _) = sign_with_secret(&secret_bytes, &msg).expect("valid secret must sign");
    let public = parse_public_key(&public_text).expect("key text must parse");
    assert!(verify(&public, &msg, &sig));
}

#[test]
fn reference_secret_text_reconstructs() {
    let reference = solana_sdk::signer::keypair::Keypair::new();
    let text = reference.to_base58_string();
    let bytes = solkit::codec::decode_base58(&text).expect("reference text must decode");
    let kp = from_secret_bytes(&bytes).expect("reference encoding must reconstruct");
    let reference_public = solana_sdk::signer::Signer::pubkey(&reference);
    assert_eq!(kp.public.bytes, reference_public.to_bytes().to_vec());
}

#[test]
fn secret_encoding_round_trips() {
    let kp = generate();
    let encoded = kp.to_secret_bytes();
    assert_eq!(encoded.len(), 64);
    let back = from_secret_bytes(&encoded).expect("own encoding must reconstruct");
    assert_eq!(back.secret, kp.secret);
    assert!(back.public == kp.public);
}
