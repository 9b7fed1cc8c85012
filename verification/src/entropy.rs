//! The system's source of unpredictable bytes.

use vstd::prelude::*;

verus! {

/// Draws `count` bytes from the operating system's generator through
/// `ring::rand::SystemRandom`.
///
/// Trusted: when `fill` reports success the buffer it was given, and so the
/// result, has `count` bytes. Which bytes they are depends on chance, so
/// nothing else is claimed; `None` stands for a generator that failed.
#[verifier::external_body]
pub(crate) fn random_bytes(count: usize) -> (bytes: Option<Vec<u8>>)
    ensures
        bytes matches Some(b) ==> b@.len() == count,
{
    let mut buffer = vec![0u8; count];
    match ring::rand::SecureRandom::fill(&ring::rand::SystemRandom::new(), &mut buffer) {
        Ok(()) => Some(buffer),
        Err(_) => None,
    }
}

} // verus!
