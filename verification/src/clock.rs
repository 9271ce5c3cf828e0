//! The wall clock, the one thing the library reads from the machine.

use vstd::prelude::*;

verus! {

/// Reads the wall clock with `web_time::SystemTime::now` and hands back the
/// time since `web_time::UNIX_EPOCH` in nanoseconds, cut to 64 bits; a clock
/// set before the epoch reads as zero.
///
/// Trusted, and nothing is claimed of the reading: two calls may give any two
/// values, so whatever uses a reading is proved for every one of them.
#[verifier::external_body]
pub(crate) fn wall_clock_nanos() -> u64 {
    match web_time::SystemTime::now().duration_since(web_time::UNIX_EPOCH) {
        Ok(since_epoch) => since_epoch.as_nanos() as u64,
        Err(_) => 0,
    }
}

} // verus!
