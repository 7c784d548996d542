//! The boundary to the random source of the `rand` crate.

use rand::Rng;
use vstd::prelude::*;

verus! {

/// Calls `rand::thread_rng` and fills a buffer with `Rng::fill`.
///
/// Trusted: the buffer that comes back has the length asked for. Nothing is
/// said of the bytes: two calls need not agree. The generator is seeded
/// from the operating system and is cryptographically secure.
#[verifier::external_body]
pub(crate) fn random_bytes(len: usize) -> (bytes: Vec<u8>)
    ensures
        bytes@.len() == len,
{
    let mut bytes = vec![0u8; len];
    rand::thread_rng().fill(&mut bytes[..]);
    bytes
}

} // verus!
