//! AES-256-GCM authenticated encryption with fresh random nonces, a
//! nonce-prefixed envelope format and a lowercase hexadecimal text layer.
//!
//! Every function states what it returns over byte sequences. The block
//! cipher itself, the random source and the hexadecimal codec are outside
//! crates; the few functions that call them are marked in their
//! documentation, and everything else is proved against their contracts.

pub mod aead;
pub mod cipher;
pub mod encoding;
pub mod engine;
pub mod envelope;
pub mod error;
mod random;
pub mod utils;

pub use crate::aead::{
    aes_gcm_decrypt, aes_gcm_encrypt, encrypt_with_nonce, validate_key_shape, AesGcmResult,
};
pub use crate::encoding::{decode_hex, decode_text, encode_hex};
pub use crate::engine::FloraWasm;
pub use crate::envelope::{from_envelope, to_envelope};
pub use crate::error::FloraError;
pub use crate::utils::{generate_key, generate_nonce_like_id, FloraUtils};
