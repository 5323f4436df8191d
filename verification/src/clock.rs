//! Trusted access to the wall clock, for the cache-busting query
//! parameter of the paginated API.

use vstd::prelude::*;

verus! {

/// Relies on std's `SystemTime::now` and `duration_since`: the seconds
/// since the Unix epoch at the moment of the call, or 0 when the clock
/// reads earlier than the epoch. Nothing is promised of the result: it
/// depends on the wall clock.
#[verifier::external_body]
pub fn get_epoch() -> u64 {
    match std::time::SystemTime::now().duration_since(std::time::UNIX_EPOCH) {
        Ok(d) => d.as_secs(),
        Err(_) => 0,
    }
}

} // verus!
