//! Identifier & clock sources backed by outside crates.

use vstd::prelude::*;

verus! {

/// Relies on uuid::Uuid::new_v4 and Uuid::as_u128: a fresh random v4
/// identifier, returned as its 128-bit value. Nothing is promised of a
/// random value.
#[verifier::external_body]
pub fn new_trace_id() -> u128 {
    uuid::Uuid::new_v4().as_u128()
}

/// Relies on chrono::Utc::now and DateTime::timestamp_millis: the current
/// wall-clock time as milliseconds since the Unix epoch. Nothing is promised
/// of the clock's reading.
#[verifier::external_body]
pub fn now_millis() -> i64 {
    chrono::Utc::now().timestamp_millis()
}

} // verus!
