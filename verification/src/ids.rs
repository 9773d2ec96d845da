//! Fresh identifiers and the current time, the two values the models take
//! from the outside world.

use vstd::prelude::*;

verus! {

/// A fresh random identifier: the 128-bit value of `uuid::Uuid::new_v4()`.
/// Nothing is promised of the value, which is random.
#[verifier::external_body]
pub(crate) fn new_id() -> (id: u128) {
    uuid::Uuid::new_v4().as_u128()
}

/// The current time from `chrono::Utc::now()`, in milliseconds since the Unix
/// epoch (`DateTime::timestamp_millis`). Nothing is promised of the value,
/// which depends on the clock.
#[verifier::external_body]
pub(crate) fn now_millis() -> (t: i64) {
    chrono::Utc::now().timestamp_millis()
}

} // verus!
