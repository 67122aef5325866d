//! The one reading of the outside world: the wall clock that stamps
//! transactions and blocks at construction time.

use std::time::SystemTime;
use vstd::prelude::*;

verus! {

/// Relies on `std::time::SystemTime::now`, read once and converted to whole
/// microseconds since the Unix epoch. Nothing is promised of the value. A
/// system clock reporting a time before the epoch is a fatal, unrecoverable
/// failure here, never a recoverable error.
#[verifier::external_body]
pub(crate) fn current_time_micros() -> u128 {
    SystemTime::now().duration_since(SystemTime::UNIX_EPOCH).unwrap().as_micros()
}

} // verus!
