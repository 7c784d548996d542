//! The boundary to the AES-256-GCM implementation of the `aes-gcm` crate.
//!
//! Nothing in this file is proved. The two functions below hand their
//! arguments to the cipher, and their contracts record what the cipher's
//! source shows of the outcome. The bytes that the cipher computes are too
//! long a story to write down here, so they are given names.

use aes_gcm::aead::{Aead, KeyInit, Payload};
use vstd::prelude::*;

verus! {

/// The length of an AES-256 key in bytes.
pub const KEY_LEN: usize = 32;

/// The length of a nonce in bytes.
pub const NONCE_LEN: usize = 12;

/// The length of the authentication tag that follows the encrypted bytes.
pub const TAG_LEN: usize = 16;

/// The longest plaintext, and the longest associated data, that AES-GCM
/// takes: two to the power of 36 bytes.
pub const MAX_INPUT_LEN: u64 = 68_719_476_736;

/// The error value of the `aead` traits. It carries no information.
#[verifier::external_type_specification]
#[verifier::external_body]
pub struct ExCipherError(aes_gcm::Error);

/// The ciphertext, tag included, that AES-256-GCM computes from a 32-byte
/// key, a 12-byte nonce, a plaintext and associated data.
pub uninterp spec fn aes256_gcm_seal(
    key: Seq<u8>,
    nonce: Seq<u8>,
    plaintext: Seq<u8>,
    aad: Seq<u8>,
) -> Seq<u8>;

/// The plaintext that AES-256-GCM releases for a ciphertext, or `None`
/// where it releases nothing.
pub uninterp spec fn aes256_gcm_open(
    key: Seq<u8>,
    nonce: Seq<u8>,
    ciphertext: Seq<u8>,
    aad: Seq<u8>,
) -> Option<Seq<u8>>;

/// Whether the cipher accepts a plaintext and associated data of these
/// lengths for encryption.
pub open spec fn seal_admits(plaintext_len: nat, aad_len: nat) -> bool {
    plaintext_len <= MAX_INPUT_LEN && aad_len <= MAX_INPUT_LEN
}

/// The bytes that a call of the cipher released, if it released any.
pub open spec fn released(result: Result<Vec<u8>, aes_gcm::Error>) -> Option<Seq<u8>> {
    match result {
        Ok(bytes) => Some(bytes@),
        Err(_) => None,
    }
}

/// Calls `Aes256Gcm::new_from_slice` and then `Aead::encrypt`.
///
/// Trusted: the cipher encrypts exactly when both inputs are within its
/// length limit; what it returns depends on the four arguments alone and is
/// the plaintext's length plus one tag long. The key and nonce lengths are
/// demanded because the cipher's fixed-size arrays panic on any other.
#[verifier::external_body]
pub(crate) fn seal(key: &[u8], nonce: &[u8], plaintext: &[u8], aad: &[u8]) -> (result: Result<
    Vec<u8>,
    aes_gcm::Error,
>)
    requires
        key@.len() == KEY_LEN,
        nonce@.len() == NONCE_LEN,
    ensures
        result is Ok <==> seal_admits(plaintext@.len(), aad@.len()),
        result is Ok ==> released(result) == Some(
            aes256_gcm_seal(key@, nonce@, plaintext@, aad@),
        ),
        result matches Ok(ciphertext) ==> ciphertext@.len() == plaintext@.len() + TAG_LEN,
{
    let cipher = aes_gcm::Aes256Gcm::new_from_slice(key).map_err(|_| aes_gcm::Error)?;
    cipher.encrypt(aes_gcm::Nonce::from_slice(nonce), Payload { msg: plaintext, aad })
}

/// Calls `Aes256Gcm::new_from_slice` and then `Aead::decrypt`.
///
/// Trusted: the outcome depends on the four arguments alone, and a released
/// plaintext is one tag shorter than the ciphertext. The cipher recomputes
/// the tag over the ciphertext and compares, and it decrypts with the key
/// stream that encryption used. So a ciphertext that encryption produced
/// from the same key, nonce and associated data is opened to the plaintext
/// it was produced from; and whatever is opened to a plaintext is what
/// encryption produces from that plaintext. The key and nonce lengths are
/// demanded because the cipher's fixed-size arrays panic on any other.
#[verifier::external_body]
pub(crate) fn open(key: &[u8], nonce: &[u8], ciphertext: &[u8], aad: &[u8]) -> (result: Result<
    Vec<u8>,
    aes_gcm::Error,
>)
    requires
        key@.len() == KEY_LEN,
        nonce@.len() == NONCE_LEN,
    ensures
        released(result) == aes256_gcm_open(key@, nonce@, ciphertext@, aad@),
        result matches Ok(plaintext) ==> plaintext@.len() + TAG_LEN == ciphertext@.len(),
        forall|p: Seq<u8>|
            seal_admits(p.len(), aad@.len()) && ciphertext@ == #[trigger] aes256_gcm_seal(
                key@,
                nonce@,
                p,
                aad@,
            ) ==> released(result) == Some(p),
        result matches Ok(plaintext) ==> (seal_admits(plaintext@.len(), aad@.len())
            ==> ciphertext@ == aes256_gcm_seal(key@, nonce@, plaintext@, aad@)),
{
    let cipher = aes_gcm::Aes256Gcm::new_from_slice(key).map_err(|_| aes_gcm::Error)?;
    cipher.decrypt(aes_gcm::Nonce::from_slice(nonce), Payload { msg: ciphertext, aad })
}

} // verus!
