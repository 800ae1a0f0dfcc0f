use base64::Engine;

use vault_core::crypto::CryptoManager;
use vault_core::errors::CryptoError;

fn manager() -> CryptoManager {
    let key = CryptoManager::generate_key();
    CryptoManager::new(&key).expect("generated key must load")
}

fn b64_raw(envelope: &str) -> Vec<u8> {
    base64::engine::general_purpose::STANDARD
        .decode(envelope)
        .expect("envelope is base64")
}

fn b64_text(raw: &[u8]) -> String {
    base64::engine::general_purpose::STANDARD.encode(raw)
}

#[test]
fn round_trip_simple_payload() {
    let cm = manager();
    let payload = b"attack at dawn".to_vec();
    let envelope = cm.encrypt(&payload).unwrap();
    assert_eq!(cm.decrypt(&envelope).unwrap(), payload);
}

#[test]
fn round_trip_empty_payload() {
    let cm = manager();
    let payload: Vec<u8> = Vec::new();
    let envelope = cm.encrypt(&payload).unwrap();
    assert_eq!(cm.decrypt(&envelope).unwrap(), payload);
}

#[test]
fn round_trip_binary_payload() {
    let cm = manager();
    let payload: Vec<u8> = (0u16..=255).map(|b| b as u8).collect();
    let envelope = cm.encrypt(&payload).unwrap();
    assert_eq!(cm.decrypt(&envelope).unwrap(), payload);
}

#[test]
fn round_trip_many_payloads() {
    let cm = manager();
    for len in [1usize, 2, 11, 16, 31, 32, 33, 1024] {
        let payload: Vec<u8> = (0..len).map(|i| (i * 7 % 251) as u8).collect();
        let envelope = cm.encrypt(&payload).unwrap();
        assert_eq!(cm.decrypt(&envelope).unwrap(), payload);
    }
}

#[test]
fn envelope_is_nonce_then_ciphertext_and_tag() {
    let cm = manager();
    let payload = b"sized".to_vec();
    let raw = b64_raw(&cm.encrypt(&payload).unwrap());
    assert_eq!(raw.len(), 12 + payload.len() + 16);
}

#[test]
fn tamper_detection_every_bit() {
    let cm = manager();
    let payload = b"document body".to_vec();
    let envelope = cm.encrypt(&payload).unwrap();
    let raw = b64_raw(&envelope);
    for byte in 0..raw.len() {
        for bit in 0..8 {
            let mut bent = raw.clone();
            bent[byte] ^= 1u8 << bit;
            let verdict = cm.decrypt(&b64_text(&bent));
            assert_eq!(verdict, Err(CryptoError::AuthenticationFailed));
        }
    }
}

#[test]
fn nonce_uniqueness_across_sample() {
    let cm = manager();
    let payload = b"same plaintext every time".to_vec();
    let mut nonces: Vec<Vec<u8>> = Vec::new();
    for _ in 0..64 {
        let raw = b64_raw(&cm.encrypt(&payload).unwrap());
        nonces.push(raw[..12].to_vec());
    }
    for i in 0..nonces.len() {
        for j in (i + 1)..nonces.len() {
            assert_ne!(nonces[i], nonces[j]);
        }
    }
}

#[test]
fn key_must_be_valid_base64() {
    let verdict = CryptoManager::new("@@not base64@@");
    assert!(matches!(verdict, Err(CryptoError::InvalidKey)));
}

#[test]
fn key_must_be_exactly_32_bytes() {
    let short = b64_text(&[7u8; 16]);
    assert!(matches!(CryptoManager::new(&short), Err(CryptoError::InvalidKey)));
    let long = b64_text(&[7u8; 48]);
    assert!(matches!(CryptoManager::new(&long), Err(CryptoError::InvalidKey)));
    let exact = b64_text(&[7u8; 32]);
    assert!(CryptoManager::new(&exact).is_ok());
}

#[test]
fn generated_key_always_loads() {
    for _ in 0..8 {
        let key = CryptoManager::generate_key();
        assert!(CryptoManager::new(&key).is_ok());
    }
}

#[test]
fn malformed_envelope_bad_encoding() {
    let cm = manager();
    assert_eq!(cm.decrypt("!!!not base64!!!"), Err(CryptoError::Malformed));
}

#[test]
fn malformed_envelope_shorter_than_nonce() {
    let cm = manager();
    let tiny = b64_text(&[1, 2, 3, 4, 5]);
    assert_eq!(cm.decrypt(&tiny), Err(CryptoError::Malformed));
}

#[test]
fn wrong_key_fails_authentication() {
    let cm1 = manager();
    let cm2 = manager();
    let envelope = cm1.encrypt(&b"between keys".to_vec()).unwrap();
    assert_eq!(cm2.decrypt(&envelope), Err(CryptoError::AuthenticationFailed));
}

#[test]
fn noncanonical_base64_is_malformed() {
    let cm = manager();
    let envelope = cm.encrypt(&b"abc".to_vec()).unwrap();
    let unpadded: String = envelope.trim_end_matches('=').to_string();
    if unpadded.len() != envelope.len() {
        assert_eq!(cm.decrypt(&unpadded), Err(CryptoError::Malformed));
    }
}
