use flora_rs::{decode_hex, decode_text, encode_hex, from_envelope, to_envelope, FloraError};

#[test]
fn hex_of_known_bytes() {
    assert_eq!(encode_hex(&[]), "");
    assert_eq!(encode_hex(&[0x00]), "00");
    assert_eq!(encode_hex(&[0x0f]), "0f");
    assert_eq!(encode_hex(&[0xf0]), "f0");
    assert_eq!(encode_hex(&[0xff]), "ff");
    assert_eq!(encode_hex(&[1, 2, 3, 15, 16]), "0102030f10");
    assert_eq!(encode_hex(b"Hello world!"), "48656c6c6f20776f726c6421");
    assert_eq!(encode_hex(&[0xde, 0xad, 0xbe, 0xef]), "deadbeef");
}

#[test]
fn hex_is_lowercase_and_twice_as_long() {
    let bytes: Vec<u8> = (0..=255u8).collect();
    let text = encode_hex(&bytes);
    assert_eq!(text.len(), 512);
    assert!(text.chars().all(|c| c.is_ascii_digit() || ('a'..='f').contains(&c)));
}

#[test]
fn hex_decodes_either_case() {
    assert_eq!(decode_hex("").unwrap(), Vec::<u8>::new());
    assert_eq!(decode_hex("0102030f10").unwrap(), vec![1, 2, 3, 15, 16]);
    assert_eq!(decode_hex("deadbeef").unwrap(), vec![0xde, 0xad, 0xbe, 0xef]);
    assert_eq!(decode_hex("DEADBEEF").unwrap(), vec![0xde, 0xad, 0xbe, 0xef]);
    assert_eq!(decode_hex("dEaDbEeF").unwrap(), vec![0xde, 0xad, 0xbe, 0xef]);
    assert_eq!(decode_hex("0aFf").unwrap(), vec![10, 255]);
}

#[test]
fn hex_of_odd_length_is_refused() {
    assert_eq!(decode_hex("1").unwrap_err(), FloraError::Encoding);
    assert_eq!(decode_hex("123").unwrap_err(), FloraError::Encoding);
    assert_eq!(decode_hex("abcde").unwrap_err(), FloraError::Encoding);
}

#[test]
fn hex_with_other_characters_is_refused() {
    assert_eq!(decode_hex("zz").unwrap_err(), FloraError::Encoding);
    assert_eq!(decode_hex("0g").unwrap_err(), FloraError::Encoding);
    assert_eq!(decode_hex("g0").unwrap_err(), FloraError::Encoding);
    assert_eq!(decode_hex("12 4").unwrap_err(), FloraError::Encoding);
    assert_eq!(decode_hex("0x12").unwrap_err(), FloraError::Encoding);
    assert_eq!(decode_hex("ab:cd").unwrap_err(), FloraError::Encoding);
    assert_eq!(decode_hex("\u{e9}").unwrap_err(), FloraError::Encoding);
    assert_eq!(decode_hex("a\u{e9}b").unwrap_err(), FloraError::Encoding);
    assert_eq!(decode_hex("\u{ff11}\u{ff12}").unwrap_err(), FloraError::Encoding);
}

#[test]
fn hex_round_trip() {
    let all: Vec<u8> = (0..=255u8).collect();
    assert_eq!(decode_hex(&encode_hex(&all)).unwrap(), all);
    assert_eq!(decode_hex(&encode_hex(&[])).unwrap(), Vec::<u8>::new());
    for len in 0..40usize {
        let bytes: Vec<u8> = (0..len).map(|i| (i * 37 + 11) as u8).collect();
        assert_eq!(decode_hex(&encode_hex(&bytes)).unwrap(), bytes);
    }
}

#[test]
fn text_from_utf8() {
    assert_eq!(decode_text(b"hola".to_vec()).unwrap(), "hola");
    assert_eq!(decode_text(Vec::new()).unwrap(), "");
    assert_eq!(decode_text("ma\u{f1}ana \u{1f338}".as_bytes().to_vec()).unwrap(), "ma\u{f1}ana \u{1f338}");
    assert_eq!(decode_text(vec![0xff]).unwrap_err(), FloraError::TextDecoding);
    assert_eq!(decode_text(vec![0xc3]).unwrap_err(), FloraError::TextDecoding);
    assert_eq!(decode_text(vec![0xed, 0xa0, 0x80]).unwrap_err(), FloraError::TextDecoding);
    assert_eq!(decode_text(vec![0xc0, 0x80]).unwrap_err(), FloraError::TextDecoding);
}

#[test]
fn envelope_is_nonce_then_ciphertext() {
    let nonce = [1u8; 12];
    let ciphertext = [2u8; 16];
    let envelope = to_envelope(&nonce, &ciphertext);
    assert_eq!(envelope.len(), 28);
    assert_eq!(&envelope[..12], &nonce[..]);
    assert_eq!(&envelope[12..], &ciphertext[..]);
    assert_eq!(to_envelope(&[], &[]), Vec::<u8>::new());
    assert_eq!(to_envelope(&[1, 2], &[3]), vec![1, 2, 3]);
}

#[test]
fn envelope_round_trip() {
    for extra in [0usize, 1, 5, 100] {
        let nonce: Vec<u8> = (0..12u8).collect();
        let ciphertext: Vec<u8> = (0..16 + extra).map(|i| (200 - i) as u8).collect();
        let envelope = to_envelope(&nonce, &ciphertext);
        let (n, c) = from_envelope(&envelope).unwrap();
        assert_eq!(n, &nonce[..]);
        assert_eq!(c, &ciphertext[..]);
    }
}

#[test]
fn envelope_splits_after_twelve_bytes() {
    let envelope: Vec<u8> = (0..30u8).collect();
    let (n, c) = from_envelope(&envelope).unwrap();
    assert_eq!(n, &envelope[..12]);
    assert_eq!(c, &envelope[12..]);
    assert_eq!(c.len(), 18);
    assert_eq!(to_envelope(n, c), envelope);
}

#[test]
fn short_envelope_is_refused() {
    for len in 0..28usize {
        let envelope = vec![0u8; len];
        assert_eq!(from_envelope(&envelope).unwrap_err(), FloraError::EnvelopeTooShort);
    }
    assert!(from_envelope(&[0u8; 28]).is_ok());
    assert!(from_envelope(&[0u8; 29]).is_ok());
}
