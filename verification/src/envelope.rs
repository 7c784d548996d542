//! The envelope: a nonce followed by its ciphertext, for transports that
//! carry one buffer. There is no version byte and no length prefix.

use crate::cipher::{NONCE_LEN, TAG_LEN};
use crate::error::FloraError;
use vstd::prelude::*;
use vstd::slice::slice_subrange;

verus! {

/// The length of the shortest envelope: a nonce and the tag of an empty
/// plaintext.
pub const MIN_ENVELOPE_LEN: usize = 28;

/// The envelope of a nonce and a ciphertext: the one after the other.
pub open spec fn envelope_of(nonce: Seq<u8>, ciphertext: Seq<u8>) -> Seq<u8> {
    nonce + ciphertext
}

/// The first 12 bytes of an envelope.
pub open spec fn envelope_nonce(envelope: Seq<u8>) -> Seq<u8> {
    envelope.subrange(0, NONCE_LEN as int)
}

/// What follows the first 12 bytes of an envelope.
pub open spec fn envelope_ciphertext(envelope: Seq<u8>) -> Seq<u8> {
    envelope.subrange(NONCE_LEN as int, envelope.len() as int)
}

/// What splitting an envelope returns.
pub open spec fn split_spec(envelope: Seq<u8>) -> Result<(Seq<u8>, Seq<u8>), FloraError> {
    if envelope.len() < MIN_ENVELOPE_LEN {
        Err(FloraError::EnvelopeTooShort)
    } else {
        Ok((envelope_nonce(envelope), envelope_ciphertext(envelope)))
    }
}

/// The two byte sequences of a result, where it is `Ok`.
pub open spec fn parts_view(result: Result<(&[u8], &[u8]), FloraError>) -> Result<
    (Seq<u8>, Seq<u8>),
    FloraError,
> {
    match result {
        Ok((nonce, ciphertext)) => Ok((nonce@, ciphertext@)),
        Err(e) => Err(e),
    }
}

/// Joins a nonce and a ciphertext into one buffer.
pub fn to_envelope(nonce: &[u8], ciphertext: &[u8]) -> (envelope: Vec<u8>)
    ensures
        envelope@ == envelope_of(nonce@, ciphertext@),
{
    let mut envelope: Vec<u8> = Vec::new();
    envelope.extend_from_slice(nonce);
    envelope.extend_from_slice(ciphertext);
    assert(envelope@ =~= nonce@ + ciphertext@);
    envelope
}

/// Splits an envelope after its 12th byte into nonce and ciphertext. An
/// envelope too short to hold a nonce and a tag is refused.
pub fn from_envelope(envelope: &[u8]) -> (result: Result<(&[u8], &[u8]), FloraError>)
    ensures
        parts_view(result) == split_spec(envelope@),
{
    if envelope.len() < MIN_ENVELOPE_LEN {
        return Err(FloraError::EnvelopeTooShort);
    }
    let nonce = slice_subrange(envelope, 0, NONCE_LEN);
    let ciphertext = slice_subrange(envelope, NONCE_LEN, envelope.len());
    Ok((nonce, ciphertext))
}

/// Splitting undoes joining: an envelope made of a 12-byte nonce and a
/// ciphertext of at least 16 bytes splits into that nonce and that
/// ciphertext.
pub proof fn lemma_envelope_roundtrip(nonce: Seq<u8>, ciphertext: Seq<u8>)
    requires
        nonce.len() == NONCE_LEN,
        ciphertext.len() >= TAG_LEN,
    ensures
        split_spec(envelope_of(nonce, ciphertext)) == Ok::<(Seq<u8>, Seq<u8>), FloraError>(
            (nonce, ciphertext),
        ),
{
    let envelope = envelope_of(nonce, ciphertext);
    assert(envelope_nonce(envelope) =~= nonce);
    assert(envelope_ciphertext(envelope) =~= ciphertext);
}

/// Joining undoes splitting: an envelope that splits is the join of its
/// two parts.
pub proof fn lemma_envelope_rejoin(envelope: Seq<u8>)
    requires
        envelope.len() >= MIN_ENVELOPE_LEN,
    ensures
        envelope_of(envelope_nonce(envelope), envelope_ciphertext(envelope)) == envelope,
        envelope_nonce(envelope).len() == NONCE_LEN,
        envelope_ciphertext(envelope).len() == envelope.len() - NONCE_LEN,
{
    assert(envelope_of(envelope_nonce(envelope), envelope_ciphertext(envelope)) =~= envelope);
}

} // verus!
