//! Random keys and identifiers, and the advisory checks.
//!
//! What is generated here is bound to no message. An identifier is not a
//! nonce and must not be used as one.

use crate::aead::{valid_key, validate_key_shape};
use crate::cipher::KEY_LEN;
use crate::encoding::{encode_hex, hex_chars};
use crate::random::random_bytes;
use vstd::prelude::*;

verus! {

/// The number of random bytes in a session identifier.
pub const SESSION_ID_LEN: usize = 16;

/// Whether `id` has the form of a session identifier: the lowercase
/// hexadecimal text of 16 bytes.
pub open spec fn is_session_id(id: Seq<char>) -> bool {
    exists|bytes: Seq<u8>| bytes.len() == SESSION_ID_LEN && id == #[trigger] hex_chars(bytes)
}

/// Draws a key: 32 bytes from the random source that nonces come from.
pub fn generate_key() -> (key: Vec<u8>)
    ensures
        valid_key(key@),
{
    random_bytes(KEY_LEN)
}

/// Draws `len` bytes from the random source that nonces come from, for use
/// as an identifier.
pub fn generate_nonce_like_id(len: usize) -> (id: Vec<u8>)
    ensures
        id@.len() == len,
{
    random_bytes(len)
}

/// Helpers for a host that embeds the engine.
pub struct FloraUtils;

impl FloraUtils {
    /// Whether the surroundings are fit for handling keys. The engine has
    /// no means to examine them and answers `true`.
    pub fn is_secure_context() -> (secure: bool)
        ensures
            secure,
    {
        true
    }

    /// Draws a session identifier: 16 random bytes as 32 lowercase
    /// hexadecimal digits.
    pub fn generate_session_id() -> (id: String)
        ensures
            is_session_id(id@),
            id@.len() == 2 * SESSION_ID_LEN,
    {
        let bytes = generate_nonce_like_id(SESSION_ID_LEN);
        encode_hex(bytes.as_slice())
    }

    /// Whether `key` is exactly 32 bytes long.
    pub fn validate_key(key: &[u8]) -> (valid: bool)
        ensures
            valid == valid_key(key@),
    {
        validate_key_shape(key)
    }
}

} // verus!
