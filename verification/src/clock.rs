//! Reading the process clock.
//!
//! Fresh correlation ids are taken from the current time in microseconds, so
//! the library needs one line of wall-clock access. Nothing is assumed of
//! the value: every contract that involves it only says that some id exists.

use vstd::prelude::*;

verus! {

/// Relies on std::time::SystemTime::now, read as microseconds since the Unix
/// epoch; a clock set before the epoch reads as zero. No contract: nothing
/// can be promised of the wall clock.
#[verifier::external_body]
pub fn now_unix_microseconds() -> i64 {
    match std::time::SystemTime::now().duration_since(std::time::UNIX_EPOCH) {
        Ok(d) => d.as_micros() as i64,
        Err(_) => 0,
    }
}

} // verus!
