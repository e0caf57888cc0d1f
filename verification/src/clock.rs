//! Reading the wall clock. What the clock says is not a function of anything the library
//! holds, so nothing is promised of it; the stores take it as an argument where their
//! contracts speak of it.
use vstd::prelude::*;
use std::time::SystemTime;

verus! {

#[verifier::external_type_specification]
#[verifier::external_body]
pub struct ExSystemTime(SystemTime);

/// The current system time (`std::time::SystemTime::now`). Nothing is claimed of it.
#[verifier::external_body]
pub(crate) fn system_now() -> SystemTime {
    SystemTime::now()
}

/// Time elapsed from the Unix epoch to `t` (`SystemTime::duration_since(UNIX_EPOCH)`),
/// zero when `t` lies before the epoch (the error case, turned into the default duration).
/// Nothing is claimed of the value: the duration type carries no view.
#[verifier::external_body]
pub(crate) fn since_unix_epoch(t: &SystemTime) -> std::time::Duration {
    t.duration_since(std::time::UNIX_EPOCH).unwrap_or_default()
}

/// Whole milliseconds of a duration (`Duration::as_millis`). Nothing is claimed of the
/// value: the duration type carries no view.
#[verifier::external_body]
pub(crate) fn duration_millis(d: &std::time::Duration) -> u128 {
    d.as_millis()
}

/// The creation stamp the stores use: the system clock's milliseconds since the epoch,
/// cast to `u64` (zero for a clock set before the epoch). Every `u64` is a possible reading,
/// so nothing is stated of the value.
pub fn now_millis() -> (r: u64) {
    system_now_millis()
}

/// The download stamp: the system clock's milliseconds since the epoch, cast to `u64`.
/// Every `u64` is a possible reading, so nothing is stated of the value.
pub fn system_now_millis() -> (r: u64) {
    let t = system_now();
    let d = since_unix_epoch(&t);
    let ms = duration_millis(&d);
    ms as u64
}

} // verus!
