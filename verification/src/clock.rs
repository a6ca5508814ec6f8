//! The wall clock, read in milliseconds.

use std::time::{Duration, SystemTime, UNIX_EPOCH};
use vstd::prelude::*;

verus! {

/// `std::time::SystemTime`, a moment of the system clock. A value of it is
/// carried through unread.
#[verifier::external_type_specification]
#[verifier::external_body]
pub struct ExSystemTime(SystemTime);

/// `SystemTime::now` reads the system clock. What it returns depends on the
/// moment of the call, so nothing is claimed of it.
pub assume_specification[ SystemTime::now ]() -> (now: SystemTime);

/// `Duration::as_millis` gives the whole milliseconds that a duration holds.
/// A duration cannot be read in a contract, so nothing is claimed of the
/// number.
pub assume_specification[ Duration::as_millis ](duration: &Duration) -> (millis: u128);

/// `SystemTime::duration_since`, measured from `UNIX_EPOCH`: the time that has
/// passed since the epoch, or `None` where `moment` lies before it.
#[verifier::external_body]
fn since_epoch(moment: &SystemTime) -> (elapsed: Option<Duration>) {
    moment.duration_since(UNIX_EPOCH).ok()
}

/// The current time in milliseconds since the Unix epoch, or `None` where the
/// system clock is set to a moment before the epoch. The reading is whatever
/// the clock shows at the moment of the call.
pub fn current_time_as_millis() -> (millis: Option<u128>) {
    let now = SystemTime::now();
    match since_epoch(&now) {
        Some(passed) => Some(passed.as_millis()),
        None => None,
    }
}

} // verus!
