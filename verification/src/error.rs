//! The failures that the engine reports.

use vstd::prelude::*;

verus! {

/// Why an operation was refused or failed.
///
/// Every failure is handed to the caller as one of these values; none is
/// retried and none comes with partial output.
#[derive(Clone, Copy, Debug, PartialEq, Eq, Structural)]
pub enum FloraError {
    /// The key is not exactly 32 bytes long.
    KeyLength,
    /// The nonce is not exactly 12 bytes long.
    NonceLength,
    /// The cipher released no plaintext. Wrong key, wrong nonce, altered
    /// ciphertext, other associated data, truncated input and input longer
    /// than the cipher takes all end here, and the value does not tell them
    /// apart.
    Authentication,
    /// The envelope is shorter than a nonce followed by a tag.
    EnvelopeTooShort,
    /// The text is not an even number of hexadecimal digits.
    Encoding,
    /// The recovered plaintext is not valid UTF-8.
    TextDecoding,
    /// The cipher refused to encrypt: the plaintext or the associated data
    /// is longer than AES-GCM admits.
    Encryption,
    /// An unexpected failure of the cipher at decryption: a defect, not an
    /// answer to an input. The engine reports every refusal of the cipher as
    /// `Authentication`, so none of its operations returns this value; it
    /// completes the set for hosts that tell the two directions of cipher
    /// failure apart.
    Decryption,
}

impl FloraError {
    /// The text of [`FloraError::message`].
    pub open spec fn message_spec(self) -> Seq<char> {
        match self {
            FloraError::KeyLength => "key must be exactly 32 bytes"@,
            FloraError::NonceLength => "nonce must be exactly 12 bytes"@,
            FloraError::Authentication => "authentication failed"@,
            FloraError::EnvelopeTooShort => "encrypted data too short"@,
            FloraError::Encoding => "invalid hexadecimal text"@,
            FloraError::TextDecoding => "plaintext is not valid UTF-8"@,
            FloraError::Encryption => "encryption failed"@,
            FloraError::Decryption => "decryption failed"@,
        }
    }

    /// A short description for a host that reports failures as text. The
    /// description of `Authentication` names no cause.
    pub fn message(&self) -> (text: String)
        ensures
            text@ == self.message_spec(),
    {
        match self {
            FloraError::KeyLength => "key must be exactly 32 bytes".to_owned(),
            FloraError::NonceLength => "nonce must be exactly 12 bytes".to_owned(),
            FloraError::Authentication => "authentication failed".to_owned(),
            FloraError::EnvelopeTooShort => "encrypted data too short".to_owned(),
            FloraError::Encoding => "invalid hexadecimal text".to_owned(),
            FloraError::TextDecoding => "plaintext is not valid UTF-8".to_owned(),
            FloraError::Encryption => "encryption failed".to_owned(),
            FloraError::Decryption => "decryption failed".to_owned(),
        }
    }
}

} // verus!
