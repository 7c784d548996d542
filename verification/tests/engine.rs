use flora_rs::{
    aes_gcm_decrypt, aes_gcm_encrypt, decode_hex, encode_hex, generate_key,
    generate_nonce_like_id, to_envelope, FloraError, FloraUtils, FloraWasm,
};

fn engine() -> FloraWasm {
    match FloraWasm::new(&[0x11u8; 32]) {
        Ok(engine) => engine,
        Err(e) => panic!("{}", e.message()),
    }
}

#[test]
fn engine_needs_a_32_byte_key() {
    for len in [0usize, 16, 31, 33] {
        assert!(matches!(FloraWasm::new(&vec![0u8; len]), Err(FloraError::KeyLength)));
    }
    assert!(FloraWasm::new(&[0u8; 32]).is_ok());
}

#[test]
fn engine_envelope_round_trip() {
    let engine = engine();
    let envelope = engine.encrypt(b"Hola FLORA desde Rust", b"ABC").unwrap();
    assert_eq!(envelope.len(), 12 + 21 + 16);
    assert_eq!(engine.decrypt(&envelope, b"ABC").unwrap(), b"Hola FLORA desde Rust".to_vec());
}

#[test]
fn engine_envelope_of_empty_plaintext() {
    let engine = engine();
    let envelope = engine.encrypt(b"", b"").unwrap();
    assert_eq!(envelope.len(), 28);
    assert_eq!(engine.decrypt(&envelope, b"").unwrap(), Vec::<u8>::new());
}

#[test]
fn engine_uses_its_key() {
    let engine = engine();
    let envelope = engine.encrypt(b"shared", b"ad").unwrap();
    let plain = aes_gcm_decrypt(&[0x11u8; 32], &envelope[..12], &envelope[12..], b"ad").unwrap();
    assert_eq!(plain, b"shared".to_vec());
    let sealed = aes_gcm_encrypt(&[0x11u8; 32], b"back", b"ad").unwrap();
    let joined = to_envelope(&sealed.nonce, &sealed.ciphertext);
    assert_eq!(engine.decrypt(&joined, b"ad").unwrap(), b"back".to_vec());
    let other = FloraWasm::new(&[0x12u8; 32]).ok().unwrap();
    assert_eq!(other.decrypt(&envelope, b"ad").unwrap_err(), FloraError::Authentication);
}

#[test]
fn engine_refuses_short_envelopes() {
    let engine = engine();
    for len in 0..28usize {
        assert_eq!(
            engine.decrypt(&vec![0u8; len], b"").unwrap_err(),
            FloraError::EnvelopeTooShort
        );
    }
    assert_eq!(engine.decrypt(&[0u8; 28], b"").unwrap_err(), FloraError::Authentication);
}

#[test]
fn engine_rejects_tampered_envelope() {
    let engine = engine();
    let envelope = engine.encrypt(b"attack at dawn", b"orders").unwrap();
    for byte in 0..envelope.len() {
        let mut bent = envelope.clone();
        bent[byte] ^= 0x01;
        assert_eq!(engine.decrypt(&bent, b"orders").unwrap_err(), FloraError::Authentication);
    }
    assert_eq!(engine.decrypt(&envelope, b"order").unwrap_err(), FloraError::Authentication);
    assert_eq!(
        engine.decrypt(&envelope[..envelope.len() - 1], b"orders").unwrap_err(),
        FloraError::Authentication
    );
}

#[test]
fn engine_text_round_trip() {
    let engine = engine();
    let sealed = engine.encrypt_string("Hola FLORA desde Rust", "ABC").unwrap();
    assert_eq!(sealed.len(), 2 * (12 + 21 + 16));
    assert!(sealed.chars().all(|c| c.is_ascii_digit() || ('a'..='f').contains(&c)));
    assert_eq!(engine.decrypt_string(&sealed, "ABC").unwrap(), "Hola FLORA desde Rust");
    assert_eq!(
        engine.decrypt_string(&sealed.to_uppercase(), "ABC").unwrap(),
        "Hola FLORA desde Rust"
    );
}

#[test]
fn engine_text_round_trip_beyond_ascii() {
    let engine = engine();
    let text = "ma\u{f1}ana \u{1f338} \u{4e2d}\u{6587}";
    let aad = "contrase\u{f1}a";
    let sealed = engine.encrypt_string(text, aad).unwrap();
    assert_eq!(sealed.len(), 2 * (12 + text.len() + 16));
    assert_eq!(engine.decrypt_string(&sealed, aad).unwrap(), text);
    let empty = engine.encrypt_string("", "").unwrap();
    assert_eq!(empty.len(), 56);
    assert_eq!(engine.decrypt_string(&empty, "").unwrap(), "");
}

#[test]
fn engine_text_is_hex_of_envelope() {
    let engine = engine();
    let sealed = engine.encrypt_string("abc", "x").unwrap();
    let envelope = decode_hex(&sealed).unwrap();
    assert_eq!(encode_hex(&envelope), sealed);
    assert_eq!(engine.decrypt(&envelope, b"x").unwrap(), b"abc".to_vec());
}

#[test]
fn engine_text_failures() {
    let engine = engine();
    assert_eq!(engine.decrypt_string("not hex at all", "").unwrap_err(), FloraError::Encoding);
    assert_eq!(engine.decrypt_string("abc", "").unwrap_err(), FloraError::Encoding);
    assert_eq!(engine.decrypt_string("", "").unwrap_err(), FloraError::EnvelopeTooShort);
    assert_eq!(
        engine.decrypt_string(&"00".repeat(27), "").unwrap_err(),
        FloraError::EnvelopeTooShort
    );
    assert_eq!(
        engine.decrypt_string(&"00".repeat(28), "").unwrap_err(),
        FloraError::Authentication
    );
    let sealed = engine.encrypt_string("secret", "right").unwrap();
    assert_eq!(engine.decrypt_string(&sealed, "wrong").unwrap_err(), FloraError::Authentication);
    let raw = engine.encrypt(&[0xff, 0xfe, 0xfd], b"").unwrap();
    assert_eq!(
        engine.decrypt_string(&encode_hex(&raw), "").unwrap_err(),
        FloraError::TextDecoding
    );
}

#[test]
fn engine_nonces_differ() {
    let engine = engine();
    let a = engine.encrypt(b"same", b"").unwrap();
    let b = engine.encrypt(b"same", b"").unwrap();
    assert_ne!(a[..12], b[..12]);
    assert_ne!(a, b);
}

#[test]
fn integrity_check_looks_at_lengths_only() {
    let engine = engine();
    assert!(engine.verify_integrity(&[0u8; 13], b"a"));
    assert!(!engine.verify_integrity(&[0u8; 12], b"a"));
    assert!(!engine.verify_integrity(&[0u8; 13], b""));
    assert!(!engine.verify_integrity(&[], &[]));
    assert!(engine.verify_integrity(&[0u8; 100], &[0u8; 100]));
}

#[test]
fn generated_keys_fit_the_engine() {
    let key = FloraWasm::generate_key();
    assert_eq!(key.len(), 32);
    assert!(FloraUtils::validate_key(&key));
    assert!(FloraWasm::new(&key).is_ok());
    let other = generate_key();
    assert_eq!(other.len(), 32);
    assert_ne!(key, other);
    assert_ne!(key, vec![0u8; 32]);
}

#[test]
fn identifiers_have_the_length_asked_for() {
    for len in [0usize, 1, 12, 16, 33, 1000] {
        assert_eq!(generate_nonce_like_id(len).len(), len);
    }
    assert_ne!(generate_nonce_like_id(16), generate_nonce_like_id(16));
}

#[test]
fn session_ids_are_32_hex_digits() {
    let mut seen = std::collections::HashSet::new();
    for _ in 0..200 {
        let id = FloraUtils::generate_session_id();
        assert_eq!(id.len(), 32);
        assert!(id.chars().all(|c| c.is_ascii_digit() || ('a'..='f').contains(&c)));
        assert_eq!(decode_hex(&id).unwrap().len(), 16);
        assert!(seen.insert(id));
    }
}

#[test]
fn utilities() {
    assert!(FloraUtils::is_secure_context());
    assert!(FloraUtils::validate_key(&[0u8; 32]));
    assert!(!FloraUtils::validate_key(&[0u8; 31]));
    assert!(!FloraUtils::validate_key(&[0u8; 33]));
    assert!(!FloraUtils::validate_key(&[]));
}

#[test]
fn error_messages() {
    assert_eq!(FloraError::KeyLength.message(), "key must be exactly 32 bytes");
    assert_eq!(FloraError::NonceLength.message(), "nonce must be exactly 12 bytes");
    assert_eq!(FloraError::Authentication.message(), "authentication failed");
    assert_eq!(FloraError::EnvelopeTooShort.message(), "encrypted data too short");
    assert_eq!(FloraError::Encoding.message(), "invalid hexadecimal text");
    assert_eq!(FloraError::TextDecoding.message(), "plaintext is not valid UTF-8");
    assert_eq!(FloraError::Encryption.message(), "encryption failed");
    assert_eq!(FloraError::Decryption.message(), "decryption failed");
}
