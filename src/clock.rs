//! The wall clock, the one outside source that the generator consults, and
//! only to pick a seed.
use vstd::prelude::*;

verus! {

#[verifier::external_type_specification]
#[verifier::external_body]
pub struct ExSystemTime(std::time::SystemTime);

/// Relies on `std::time::SystemTime::now`: the time now. Nothing is promised
/// of it.
#[verifier::external_body]
fn system_now() -> (r: std::time::SystemTime) {
    std::time::SystemTime::now()
}

/// Relies on `std::time::SystemTime::duration_since`, against `UNIX_EPOCH`:
/// the time elapsed from the epoch to `t`, or `None` where `t` is earlier.
#[verifier::external_body]
fn since_epoch(t: &std::time::SystemTime) -> (r: Option<std::time::Duration>) {
    t.duration_since(std::time::UNIX_EPOCH).ok()
}

/// Relies on `std::time::Duration::as_millis`: the whole milliseconds of `d`.
#[verifier::external_body]
fn whole_millis(d: &std::time::Duration) -> (r: u128) {
    d.as_millis()
}

/// The milliseconds elapsed since the Unix epoch, or `None` where the clock
/// reads earlier than the epoch.
pub(crate) fn millis_since_epoch() -> (r: Option<u128>) {
    let now = system_now();
    match since_epoch(&now) {
        Some(d) => Some(whole_millis(&d)),
        None => None,
    }
}

} // verus!
