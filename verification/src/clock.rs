//! The wall clock, as seconds since the Unix epoch.

use vstd::prelude::*;

verus! {

/// Reads the system clock through `chrono::Utc::now().timestamp()`.
///
/// Nothing is claimed of the value: it depends on the machine's clock, so
/// callers are verified for every `i64` it may hand back.
#[verifier::external_body]
pub(crate) fn unix_now() -> (now: i64) {
    chrono::Utc::now().timestamp()
}

} // verus!
