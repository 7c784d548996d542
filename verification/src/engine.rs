//! An engine that holds one key and works on envelopes and on text.
//!
//! The key is set when the engine is made and never changes; every method
//! only reads it, so an engine can be shared freely.

use crate::aead::{
    aes_gcm_decrypt, aes_gcm_encrypt, bytes_view, decrypt_spec, encrypt_spec, valid_key,
};
use crate::cipher::{seal_admits, KEY_LEN, NONCE_LEN, TAG_LEN};
use crate::encoding::{
    decode_hex, decode_hex_spec, decode_text, decode_text_spec, encode_hex, hex_chars,
    lemma_hex_roundtrip, text_view,
};
use crate::envelope::{
    envelope_ciphertext, envelope_nonce, from_envelope, split_spec, to_envelope, MIN_ENVELOPE_LEN,
};
use crate::error::FloraError;
use crate::utils::generate_key;
use vstd::prelude::*;
use vstd::string::StringSliceAdditionalSpecFns;
use vstd::utf8::{encode_utf8, encode_utf8_decode_utf8, encode_utf8_valid_utf8};

verus! {

/// An AES-256-GCM engine bound to one key.
pub struct FloraWasm {
    key: [u8; 32],
}

impl View for FloraWasm {
    type V = Seq<u8>;

    /// The key that the engine was made with.
    closed spec fn view(&self) -> Seq<u8> {
        self.key@
    }
}

/// Whether `envelope` holds a nonce and, behind it, the ciphertext of
/// `plaintext` under `key`, that nonce and `aad`.
pub open spec fn is_sealed_envelope(
    key: Seq<u8>,
    envelope: Seq<u8>,
    plaintext: Seq<u8>,
    aad: Seq<u8>,
) -> bool {
    &&& envelope.len() == NONCE_LEN + plaintext.len() + TAG_LEN
    &&& encrypt_spec(key, envelope_nonce(envelope), plaintext, aad) == Ok::<Seq<u8>, FloraError>(
        envelope_ciphertext(envelope),
    )
}

/// What opening an envelope returns: too short an envelope is refused
/// before the cipher sees anything; any other is split and decrypted.
pub open spec fn open_envelope_spec(key: Seq<u8>, envelope: Seq<u8>, aad: Seq<u8>) -> Result<
    Seq<u8>,
    FloraError,
> {
    match split_spec(envelope) {
        Ok((nonce, ciphertext)) => decrypt_spec(key, nonce, ciphertext, aad),
        Err(e) => Err(e),
    }
}

/// What opening hexadecimal text returns: the text is decoded, the envelope
/// opened, and the plaintext read as UTF-8; the first step that fails gives
/// the error.
pub open spec fn open_text_spec(key: Seq<u8>, text: Seq<char>, aad: Seq<char>) -> Result<
    Seq<char>,
    FloraError,
> {
    match decode_hex_spec(text) {
        Ok(envelope) => match open_envelope_spec(key, envelope, encode_utf8(aad)) {
            Ok(plaintext) => decode_text_spec(plaintext),
            Err(e) => Err(e),
        },
        Err(e) => Err(e),
    }
}

impl FloraWasm {
    /// Makes an engine for `key`, which must be exactly 32 bytes long.
    pub fn new(key: &[u8]) -> (result: Result<FloraWasm, FloraError>)
        ensures
            valid_key(key@) ==> (result matches Ok(engine) && engine@ == key@),
            !valid_key(key@) ==> result matches Err(FloraError::KeyLength),
    {
        if key.len() != KEY_LEN {
            return Err(FloraError::KeyLength);
        }
        let mut key_array = [0u8; 32];
        let mut i: usize = 0;
        while i < KEY_LEN
            invariant
                i <= KEY_LEN,
                key@.len() == KEY_LEN,
                forall|j: int| 0 <= j < i ==> key_array@[j] == key@[j],
            decreases KEY_LEN - i,
        {
            key_array[i] = key[i];
            i += 1;
        }
        assert(key_array@ =~= key@);
        Ok(FloraWasm { key: key_array })
    }

    /// The key of an engine is always 32 bytes long.
    pub proof fn lemma_key_shape(&self)
        ensures
            valid_key(self@),
    {
    }

    /// Draws a key that [`FloraWasm::new`] accepts.
    pub fn generate_key() -> (key: Vec<u8>)
        ensures
            valid_key(key@),
    {
        generate_key()
    }

    /// Encrypts `plaintext` under a fresh random nonce and returns the
    /// envelope: the nonce followed by the ciphertext.
    pub fn encrypt(&self, plaintext: &[u8], associated_data: &[u8]) -> (result: Result<
        Vec<u8>,
        FloraError,
    >)
        ensures
            result is Ok <==> seal_admits(plaintext@.len(), associated_data@.len()),
            result is Err ==> result matches Err(FloraError::Encryption),
            result matches Ok(envelope) ==> is_sealed_envelope(
                self@,
                envelope@,
                plaintext@,
                associated_data@,
            ),
    {
        match aes_gcm_encrypt(self.key.as_slice(), plaintext, associated_data) {
            Ok(sealed) => {
                let envelope = to_envelope(sealed.nonce.as_slice(), sealed.ciphertext.as_slice());
                proof {
                    assert(envelope_nonce(envelope@) =~= sealed.nonce@);
                    assert(envelope_ciphertext(envelope@) =~= sealed.ciphertext@);
                }
                Ok(envelope)
            },
            Err(e) => Err(e),
        }
    }

    /// Opens an envelope: verifies the tag under the engine's key, the
    /// envelope's nonce and `associated_data`, and returns the plaintext.
    ///
    /// An envelope that [`FloraWasm::encrypt`] made with the same key and
    /// associated data gives back the plaintext it was made from.
    pub fn decrypt(&self, encrypted_data: &[u8], associated_data: &[u8]) -> (result: Result<
        Vec<u8>,
        FloraError,
    >)
        ensures
            bytes_view(result) == open_envelope_spec(self@, encrypted_data@, associated_data@),
            encrypted_data@.len() < MIN_ENVELOPE_LEN ==> result matches Err(
                FloraError::EnvelopeTooShort,
            ),
            result matches Ok(plaintext) ==> plaintext@.len() + MIN_ENVELOPE_LEN
                == encrypted_data@.len(),
            forall|p: Seq<u8>| #[trigger]
                is_sealed_envelope(self@, encrypted_data@, p, associated_data@) ==> bytes_view(
                    result,
                ) == Ok::<Seq<u8>, FloraError>(p),
    {
        match from_envelope(encrypted_data) {
            Ok((nonce, ciphertext)) => aes_gcm_decrypt(
                self.key.as_slice(),
                nonce,
                ciphertext,
                associated_data,
            ),
            Err(e) => Err(e),
        }
    }

    /// Encrypts text: the UTF-8 bytes of `text` are sealed with the UTF-8
    /// bytes of `associated_data` bound to them, and the envelope is
    /// written as lowercase hexadecimal.
    pub fn encrypt_string(&self, text: &str, associated_data: &str) -> (result: Result<
        String,
        FloraError,
    >)
        ensures
            result is Ok <==> seal_admits(
                encode_utf8(text@).len(),
                encode_utf8(associated_data@).len(),
            ),
            result is Err ==> result matches Err(FloraError::Encryption),
            result matches Ok(sealed) ==> exists|envelope: Seq<u8>|
                sealed@ == #[trigger] hex_chars(envelope) && is_sealed_envelope(
                    self@,
                    envelope,
                    encode_utf8(text@),
                    encode_utf8(associated_data@),
                ),
    {
        match self.encrypt(text.as_bytes(), associated_data.as_bytes()) {
            Ok(envelope) => Ok(encode_hex(envelope.as_slice())),
            Err(e) => Err(e),
        }
    }

    /// Decrypts text that [`FloraWasm::encrypt_string`] made: reads the
    /// hexadecimal text, opens the envelope with the UTF-8 bytes of
    /// `associated_data`, and reads the plaintext as UTF-8.
    pub fn decrypt_string(&self, encrypted_hex: &str, associated_data: &str) -> (result: Result<
        String,
        FloraError,
    >)
        ensures
            text_view(result) == open_text_spec(self@, encrypted_hex@, associated_data@),
            forall|envelope: Seq<u8>, t: Seq<char>|
                encrypted_hex@ == #[trigger] hex_chars(envelope) && #[trigger] is_sealed_envelope(
                    self@,
                    envelope,
                    encode_utf8(t),
                    encode_utf8(associated_data@),
                ) ==> text_view(result) == Ok::<Seq<char>, FloraError>(t),
    {
        let result = match decode_hex(encrypted_hex) {
            Ok(envelope) => match self.decrypt(envelope.as_slice(), associated_data.as_bytes()) {
                Ok(plaintext) => decode_text(plaintext),
                Err(e) => Err(e),
            },
            Err(e) => Err(e),
        };
        proof {
            assert forall|env: Seq<u8>, t: Seq<char>|
                encrypted_hex@ == #[trigger] hex_chars(env) && #[trigger] is_sealed_envelope(
                    self@,
                    env,
                    encode_utf8(t),
                    encode_utf8(associated_data@),
                ) implies text_view(result) == Ok::<Seq<char>, FloraError>(t) by {
                lemma_hex_roundtrip(env);
                encode_utf8_valid_utf8(t);
                encode_utf8_decode_utf8(t);
            }
        }
        result
    }

    /// Whether `data` is longer than a nonce and `associated_data` is not
    /// empty. This looks at the two lengths and at nothing else: it
    /// authenticates nothing, and only [`FloraWasm::decrypt`] tells whether
    /// data is genuine.
    pub fn verify_integrity(&self, data: &[u8], associated_data: &[u8]) -> (plausible: bool)
        ensures
            plausible == (data@.len() > NONCE_LEN && associated_data@.len() > 0),
    {
        data.len() > NONCE_LEN && associated_data.len() > 0
    }
}

} // verus!
