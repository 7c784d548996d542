//! Authenticated encryption and decryption under a caller-supplied key.
//!
//! Each call stands alone: nothing is kept between calls, and the key and
//! the associated data are only read.

use crate::cipher::{
    aes256_gcm_open, aes256_gcm_seal, open, seal, seal_admits, KEY_LEN, NONCE_LEN, TAG_LEN,
};
use crate::error::FloraError;
use crate::random::random_bytes;
use vstd::prelude::*;

verus! {

/// A nonce and the ciphertext that was produced under it.
#[derive(Clone, Debug, PartialEq, Eq)]
pub struct AesGcmResult {
    /// The 12 bytes drawn for this encryption.
    pub nonce: Vec<u8>,
    /// The encrypted plaintext followed by the 16-byte tag.
    pub ciphertext: Vec<u8>,
}

impl View for AesGcmResult {
    type V = (Seq<u8>, Seq<u8>);

    /// The nonce and the ciphertext, in this order.
    open spec fn view(&self) -> (Seq<u8>, Seq<u8>) {
        (self.nonce@, self.ciphertext@)
    }
}

/// Whether `key` has the shape of an AES-256 key: exactly 32 bytes.
pub open spec fn valid_key(key: Seq<u8>) -> bool {
    key.len() == KEY_LEN
}

/// Whether `nonce` has the shape of a nonce: exactly 12 bytes.
pub open spec fn valid_nonce(nonce: Seq<u8>) -> bool {
    nonce.len() == NONCE_LEN
}

/// What encryption under a given nonce returns.
pub open spec fn encrypt_spec(
    key: Seq<u8>,
    nonce: Seq<u8>,
    plaintext: Seq<u8>,
    aad: Seq<u8>,
) -> Result<Seq<u8>, FloraError> {
    if !valid_key(key) {
        Err(FloraError::KeyLength)
    } else if !valid_nonce(nonce) {
        Err(FloraError::NonceLength)
    } else if !seal_admits(plaintext.len(), aad.len()) {
        Err(FloraError::Encryption)
    } else {
        Ok(aes256_gcm_seal(key, nonce, plaintext, aad))
    }
}

/// Whether `result` is an outcome of encrypting `plaintext` under `key`
/// with a nonce of the engine's own choosing.
///
/// A key of the wrong length is refused first. Otherwise the outcome is a
/// 12-byte nonce together with the ciphertext of the plaintext under that
/// nonce, 16 bytes longer than the plaintext, unless an input is longer
/// than the cipher takes.
pub open spec fn is_encryption_of(
    key: Seq<u8>,
    plaintext: Seq<u8>,
    aad: Seq<u8>,
    result: Result<(Seq<u8>, Seq<u8>), FloraError>,
) -> bool {
    if !valid_key(key) {
        result == Err::<(Seq<u8>, Seq<u8>), FloraError>(FloraError::KeyLength)
    } else if !seal_admits(plaintext.len(), aad.len()) {
        result == Err::<(Seq<u8>, Seq<u8>), FloraError>(FloraError::Encryption)
    } else {
        &&& result matches Ok((nonce, ciphertext))
        &&& valid_nonce(nonce)
        &&& encrypt_spec(key, nonce, plaintext, aad) == Ok::<Seq<u8>, FloraError>(ciphertext)
        &&& ciphertext.len() == plaintext.len() + TAG_LEN
    }
}

/// What decryption returns.
///
/// The shapes of key and nonce are checked first, in this order. Then the
/// cipher decides: it releases the plaintext or nothing at all. Nothing
/// released is an authentication failure, whatever made the cipher refuse:
/// a tag that does not verify, fewer bytes than a tag, or input longer than
/// the cipher takes.
pub open spec fn decrypt_spec(
    key: Seq<u8>,
    nonce: Seq<u8>,
    ciphertext: Seq<u8>,
    aad: Seq<u8>,
) -> Result<Seq<u8>, FloraError> {
    if !valid_key(key) {
        Err(FloraError::KeyLength)
    } else if !valid_nonce(nonce) {
        Err(FloraError::NonceLength)
    } else {
        match aes256_gcm_open(key, nonce, ciphertext, aad) {
            Some(plaintext) => Ok(plaintext),
            None => Err(FloraError::Authentication),
        }
    }
}

/// Whether `result` is the outcome of decrypting `ciphertext`.
///
/// It is what [`decrypt_spec`] gives, and a released plaintext is 16 bytes
/// shorter than the ciphertext. Where the ciphertext is what encryption
/// gives for some plaintext under the same key, nonce and associated data,
/// that plaintext is released. And nothing else is: a released plaintext,
/// encrypted under the same key, nonce and associated data, gives this
/// ciphertext.
pub open spec fn is_decryption_of(
    key: Seq<u8>,
    nonce: Seq<u8>,
    ciphertext: Seq<u8>,
    aad: Seq<u8>,
    result: Result<Seq<u8>, FloraError>,
) -> bool {
    &&& result == decrypt_spec(key, nonce, ciphertext, aad)
    &&& result matches Ok(plaintext) ==> plaintext.len() + TAG_LEN == ciphertext.len()
    &&& forall|p: Seq<u8>|
        #[trigger] encrypt_spec(key, nonce, p, aad) == Ok::<Seq<u8>, FloraError>(ciphertext)
            ==> result == Ok::<Seq<u8>, FloraError>(p)
    &&& result matches Ok(plaintext) ==> (seal_admits(plaintext.len(), aad.len())
        ==> encrypt_spec(key, nonce, plaintext, aad) == Ok::<Seq<u8>, FloraError>(ciphertext))
}

/// The bytes of a result, where it is `Ok`.
pub open spec fn bytes_view(result: Result<Vec<u8>, FloraError>) -> Result<Seq<u8>, FloraError> {
    match result {
        Ok(bytes) => Ok(bytes@),
        Err(e) => Err(e),
    }
}

/// The nonce and ciphertext of a result, where it is `Ok`.
pub open spec fn sealed_view(result: Result<AesGcmResult, FloraError>) -> Result<
    (Seq<u8>, Seq<u8>),
    FloraError,
> {
    match result {
        Ok(sealed) => Ok(sealed@),
        Err(e) => Err(e),
    }
}

/// Whether `key` is exactly 32 bytes long. A convenience for callers; the
/// operations of this crate check the key themselves.
pub fn validate_key_shape(key: &[u8]) -> (valid: bool)
    ensures
        valid == valid_key(key@),
{
    key.len() == KEY_LEN
}

/// Encrypts `plaintext` under `key` and the given `nonce`, binding
/// `associated_data` to the result.
///
/// The nonce must never have been used with this key before; callers that
/// cannot promise this use [`aes_gcm_encrypt`], which draws a fresh one.
pub fn encrypt_with_nonce(
    key: &[u8],
    nonce: &[u8],
    plaintext: &[u8],
    associated_data: &[u8],
) -> (result: Result<Vec<u8>, FloraError>)
    ensures
        bytes_view(result) == encrypt_spec(key@, nonce@, plaintext@, associated_data@),
        result matches Ok(ciphertext) ==> ciphertext@.len() == plaintext@.len() + TAG_LEN,
{
    if !validate_key_shape(key) {
        return Err(FloraError::KeyLength);
    }
    if nonce.len() != NONCE_LEN {
        return Err(FloraError::NonceLength);
    }
    match seal(key, nonce, plaintext, associated_data) {
        Ok(ciphertext) => Ok(ciphertext),
        Err(_) => Err(FloraError::Encryption),
    }
}

/// Encrypts `plaintext` under `key` with a fresh random nonce, binding
/// `associated_data` to the result, and returns the nonce beside the
/// ciphertext.
///
/// The key is checked before anything is drawn or encrypted. Which nonce
/// comes back is not determined by the arguments; whatever it is, the
/// ciphertext is the one that [`encrypt_with_nonce`] gives under it.
pub fn aes_gcm_encrypt(key: &[u8], plaintext: &[u8], associated_data: &[u8]) -> (result: Result<
    AesGcmResult,
    FloraError,
>)
    ensures
        is_encryption_of(key@, plaintext@, associated_data@, sealed_view(result)),
{
    if !validate_key_shape(key) {
        return Err(FloraError::KeyLength);
    }
    let nonce = random_bytes(NONCE_LEN);
    match encrypt_with_nonce(key, nonce.as_slice(), plaintext, associated_data) {
        Ok(ciphertext) => Ok(AesGcmResult { nonce, ciphertext }),
        Err(e) => Err(e),
    }
}

/// Verifies the tag of `ciphertext` under `key`, `nonce` and
/// `associated_data` and, only if it verifies, returns the plaintext.
///
/// A ciphertext that encryption produced under the same key, nonce and
/// associated data is always accepted and gives back the plaintext it was
/// produced from.
pub fn aes_gcm_decrypt(
    key: &[u8],
    nonce: &[u8],
    ciphertext: &[u8],
    associated_data: &[u8],
) -> (result: Result<Vec<u8>, FloraError>)
    ensures
        is_decryption_of(key@, nonce@, ciphertext@, associated_data@, bytes_view(result)),
{
    if !validate_key_shape(key) {
        return Err(FloraError::KeyLength);
    }
    if nonce.len() != NONCE_LEN {
        return Err(FloraError::NonceLength);
    }
    match open(key, nonce, ciphertext, associated_data) {
        Ok(plaintext) => Ok(plaintext),
        Err(_) => Err(FloraError::Authentication),
    }
}

/// Decryption undoes encryption. Let `sealed` be an outcome of encrypting
/// `plaintext` under a 32-byte `key` with `aad`, both within the cipher's
/// length limit. Then `sealed` is a nonce and a ciphertext, and every
/// outcome of decrypting that ciphertext under the same key, that nonce and
/// the same `aad` is `plaintext`.
pub proof fn lemma_decrypt_inverts_encrypt(
    key: Seq<u8>,
    plaintext: Seq<u8>,
    aad: Seq<u8>,
    sealed: Result<(Seq<u8>, Seq<u8>), FloraError>,
    opened: Result<Seq<u8>, FloraError>,
)
    requires
        valid_key(key),
        seal_admits(plaintext.len(), aad.len()),
        is_encryption_of(key, plaintext, aad, sealed),
        sealed matches Ok((nonce, ciphertext)) ==> is_decryption_of(
            key,
            nonce,
            ciphertext,
            aad,
            opened,
        ),
    ensures
        sealed is Ok,
        opened == Ok::<Seq<u8>, FloraError>(plaintext),
{
    let (nonce, ciphertext) = sealed->Ok_0;
    assert(encrypt_spec(key, nonce, plaintext, aad) == Ok::<Seq<u8>, FloraError>(ciphertext));
}

/// The lengths of what encryption returns: the nonce is 12 bytes long and
/// the ciphertext is 16 bytes longer than the plaintext, whatever the key,
/// the plaintext and the associated data were.
pub proof fn lemma_encryption_lengths(
    key: Seq<u8>,
    plaintext: Seq<u8>,
    aad: Seq<u8>,
    nonce: Seq<u8>,
    ciphertext: Seq<u8>,
)
    requires
        is_encryption_of(key, plaintext, aad, Ok((nonce, ciphertext))),
    ensures
        nonce.len() == NONCE_LEN,
        ciphertext.len() == plaintext.len() + TAG_LEN,
{
}

/// Encryption succeeds exactly when the key is 32 bytes long and the
/// plaintext and the associated data are within the cipher's length limit;
/// an empty plaintext with empty associated data is within it.
pub proof fn lemma_encryption_succeeds(
    key: Seq<u8>,
    plaintext: Seq<u8>,
    aad: Seq<u8>,
    sealed: Result<(Seq<u8>, Seq<u8>), FloraError>,
)
    requires
        is_encryption_of(key, plaintext, aad, sealed),
    ensures
        sealed is Ok <==> valid_key(key) && seal_admits(plaintext.len(), aad.len()),
        seal_admits(0, 0),
{
}

/// An altered ciphertext is never taken for the message it was altered
/// from. Let `ciphertext` be the encryption of `plaintext`, and let
/// `altered` be any other byte sequence. Then decrypting `altered` under
/// the same key, nonce and associated data does not return `plaintext`.
///
/// Whether it returns anything at all is up to the cipher: that it does
/// not is AES-GCM's security, which holds with overwhelming probability and
/// not for every input.
pub proof fn lemma_altered_ciphertext_never_restores(
    key: Seq<u8>,
    nonce: Seq<u8>,
    plaintext: Seq<u8>,
    aad: Seq<u8>,
    ciphertext: Seq<u8>,
    altered: Seq<u8>,
    opened: Result<Seq<u8>, FloraError>,
)
    requires
        encrypt_spec(key, nonce, plaintext, aad) == Ok::<Seq<u8>, FloraError>(ciphertext),
        altered != ciphertext,
        is_decryption_of(key, nonce, altered, aad, opened),
    ensures
        opened != Ok::<Seq<u8>, FloraError>(plaintext),
{
}

/// The failures of decryption. A key that is not 32 bytes long is refused
/// as such, whatever the nonce is; with a key of 32 bytes, a nonce that is
/// not 12 bytes long is refused as such. In every other case the outcome is
/// a plaintext or the one authentication failure, which is the same value
/// whatever went wrong.
pub proof fn lemma_decryption_failures(
    key: Seq<u8>,
    nonce: Seq<u8>,
    ciphertext: Seq<u8>,
    aad: Seq<u8>,
    opened: Result<Seq<u8>, FloraError>,
)
    requires
        is_decryption_of(key, nonce, ciphertext, aad, opened),
    ensures
        opened == Err::<Seq<u8>, FloraError>(FloraError::KeyLength) <==> !valid_key(key),
        opened == Err::<Seq<u8>, FloraError>(FloraError::NonceLength) <==> valid_key(key)
            && !valid_nonce(nonce),
        valid_key(key) && valid_nonce(nonce) ==> opened is Ok || opened == Err::<
            Seq<u8>,
            FloraError,
        >(FloraError::Authentication),
{
}

/// A ciphertext too short to hold a tag is never accepted: under a key and
/// a nonce of the right lengths, decrypting fewer than 16 bytes is an
/// authentication failure, whatever the associated data is.
pub proof fn lemma_truncated_ciphertext_rejected(
    key: Seq<u8>,
    nonce: Seq<u8>,
    ciphertext: Seq<u8>,
    aad: Seq<u8>,
    opened: Result<Seq<u8>, FloraError>,
)
    requires
        valid_key(key),
        valid_nonce(nonce),
        ciphertext.len() < TAG_LEN,
        is_decryption_of(key, nonce, ciphertext, aad, opened),
    ensures
        opened == Err::<Seq<u8>, FloraError>(FloraError::Authentication),
{
}

} // verus!
