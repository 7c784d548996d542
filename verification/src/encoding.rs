//! The text layer: lowercase hexadecimal for bytes, UTF-8 for text.
//!
//! Both codecs are specified here in full over sequences of characters and
//! bytes. The work itself is done by the `hex` crate and by the standard
//! library, behind three functions whose contracts are trusted.

use crate::error::FloraError;
use vstd::prelude::*;
use vstd::utf8::{decode_utf8, valid_utf8};

verus! {

/// The lowercase hexadecimal digit for a value below 16.
pub open spec fn hex_digit(value: int) -> char {
    if value < 10 {
        ((value + 0x30) as u8) as char
    } else {
        ((value + 0x57) as u8) as char
    }
}

/// The value of a hexadecimal digit of either case, or `None` for any other
/// character.
pub open spec fn hex_value(c: char) -> Option<int> {
    let code = c as u32 as int;
    if 0x30 <= code <= 0x39 {
        Some(code - 0x30)
    } else if 0x61 <= code <= 0x66 {
        Some(code - 0x57)
    } else if 0x41 <= code <= 0x46 {
        Some(code - 0x37)
    } else {
        None
    }
}

/// The hexadecimal text of `bytes`: two lowercase digits for each byte, the
/// high half first, and nothing between them.
pub open spec fn hex_chars(bytes: Seq<u8>) -> Seq<char> {
    Seq::new(
        2 * bytes.len(),
        |i: int|
            if i % 2 == 0 {
                hex_digit(bytes[i / 2] as int / 16)
            } else {
                hex_digit(bytes[i / 2] as int % 16)
            },
    )
}

/// Whether `text` can be decoded: an even number of characters, each of
/// them a hexadecimal digit.
pub open spec fn is_hex_text(text: Seq<char>) -> bool {
    &&& text.len() % 2 == 0
    &&& forall|i: int| 0 <= i < text.len() ==> (#[trigger] hex_value(text[i])) is Some
}

/// The bytes that hexadecimal text stands for.
pub open spec fn hex_bytes(text: Seq<char>) -> Seq<u8> {
    Seq::new(
        text.len() / 2,
        |i: int| (hex_value(text[2 * i]).unwrap() * 16 + hex_value(text[2 * i + 1]).unwrap()) as u8,
    )
}

/// What decoding hexadecimal text returns.
pub open spec fn decode_hex_spec(text: Seq<char>) -> Result<Seq<u8>, FloraError> {
    if is_hex_text(text) {
        Ok(hex_bytes(text))
    } else {
        Err(FloraError::Encoding)
    }
}

/// What reading bytes as UTF-8 text returns.
pub open spec fn decode_text_spec(bytes: Seq<u8>) -> Result<Seq<char>, FloraError> {
    if valid_utf8(bytes) {
        Ok(decode_utf8(bytes))
    } else {
        Err(FloraError::TextDecoding)
    }
}

/// The error value of `hex::decode`.
#[verifier::external_type_specification]
#[verifier::external_body]
pub struct ExFromHexError(hex::FromHexError);

/// The error value of `String::from_utf8`.
#[verifier::external_type_specification]
#[verifier::external_body]
pub struct ExFromUtf8Error(std::string::FromUtf8Error);

/// Calls `hex::encode`.
///
/// Trusted: the text is two lowercase hexadecimal digits for each byte, in
/// order, the high half of a byte first.
#[verifier::external_body]
fn hex_encode(bytes: &[u8]) -> (text: String)
    ensures
        text@ == hex_chars(bytes@),
{
    hex::encode(bytes)
}

/// Calls `hex::decode`.
///
/// Trusted: decoding succeeds exactly on an even number of hexadecimal
/// digits of either case, and the bytes are the pairs of digits read as
/// numbers, the first digit of a pair being the high half.
#[verifier::external_body]
fn hex_decode(text: &str) -> (result: Result<Vec<u8>, hex::FromHexError>)
    ensures
        result is Ok <==> is_hex_text(text@),
        result matches Ok(bytes) ==> bytes@ == hex_bytes(text@),
{
    hex::decode(text)
}

/// Calls `String::from_utf8`.
///
/// Trusted: the call succeeds exactly on valid UTF-8, and the text is then
/// what the bytes decode to.
#[verifier::external_body]
fn string_from_utf8(bytes: Vec<u8>) -> (result: Result<String, std::string::FromUtf8Error>)
    ensures
        result is Ok <==> valid_utf8(bytes@),
        result matches Ok(text) ==> text@ == decode_utf8(bytes@),
{
    String::from_utf8(bytes)
}

/// The bytes of a result, where it is `Ok`.
pub open spec fn decoded_view(result: Result<Vec<u8>, FloraError>) -> Result<Seq<u8>, FloraError> {
    match result {
        Ok(bytes) => Ok(bytes@),
        Err(e) => Err(e),
    }
}

/// The characters of a result, where it is `Ok`.
pub open spec fn text_view(result: Result<String, FloraError>) -> Result<Seq<char>, FloraError> {
    match result {
        Ok(text) => Ok(text@),
        Err(e) => Err(e),
    }
}

/// Writes `bytes` as lowercase hexadecimal text.
pub fn encode_hex(bytes: &[u8]) -> (text: String)
    ensures
        text@ == hex_chars(bytes@),
{
    hex_encode(bytes)
}

/// Reads hexadecimal text of either case back into bytes. Text of odd
/// length, or with any character that is no hexadecimal digit, is refused.
pub fn decode_hex(text: &str) -> (result: Result<Vec<u8>, FloraError>)
    ensures
        decoded_view(result) == decode_hex_spec(text@),
{
    match hex_decode(text) {
        Ok(bytes) => Ok(bytes),
        Err(_) => Err(FloraError::Encoding),
    }
}

/// Reads `bytes` as UTF-8 text.
pub fn decode_text(bytes: Vec<u8>) -> (result: Result<String, FloraError>)
    ensures
        text_view(result) == decode_text_spec(bytes@),
{
    match string_from_utf8(bytes) {
        Ok(text) => Ok(text),
        Err(_) => Err(FloraError::TextDecoding),
    }
}

/// A digit of the encoder is read back as the value it was written for.
pub proof fn lemma_hex_digit_value(value: int)
    requires
        0 <= value < 16,
    ensures
        hex_value(hex_digit(value)) == Some(value),
{
}

/// Decoding what was encoded gives the bytes back: the text of any byte
/// sequence, the empty one included, is accepted by the decoder and stands
/// for exactly those bytes.
pub proof fn lemma_hex_roundtrip(bytes: Seq<u8>)
    ensures
        decode_hex_spec(hex_chars(bytes)) == Ok::<Seq<u8>, FloraError>(bytes),
{
    let text = hex_chars(bytes);
    assert forall|i: int| 0 <= i < text.len() implies (#[trigger] hex_value(text[i])) is Some by {
        let b = bytes[i / 2] as int;
        if i % 2 == 0 {
            lemma_hex_digit_value(b / 16);
        } else {
            lemma_hex_digit_value(b % 16);
        }
    }
    assert(is_hex_text(text));
    assert forall|i: int| 0 <= i < bytes.len() implies hex_bytes(text)[i] == bytes[i] by {
        let b = bytes[i] as int;
        lemma_hex_digit_value(b / 16);
        lemma_hex_digit_value(b % 16);
        assert(text[2 * i] == hex_digit(b / 16));
        assert(text[2 * i + 1] == hex_digit(b % 16));
    }
    assert(hex_bytes(text) =~= bytes);
}

} // verus!
