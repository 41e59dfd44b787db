//! Sources of time and of fresh identifiers.
//!
//! These read the wall clock and the random-number generator; nothing can be
//! promised of what they return, so the functions that use them are written
//! against an explicit `now` or identifier, and the callers here only pass the
//! values through.

use vstd::prelude::*;
use chrono::Datelike;

verus! {

/// The current time in milliseconds since the Unix epoch, as
/// `chrono::Utc::now().timestamp_millis()` reports it. The value depends on the
/// clock, so no clause states it.
#[verifier::external_body]
pub(crate) fn now_millis() -> (t: i64) {
    chrono::Utc::now().timestamp_millis()
}

/// The current time in milliseconds since 1970, as a `u64`. `now_millis`
/// gives no negative value (chrono's `Utc::now` stops on a clock set before
/// 1970); one would be taken as 0.
pub fn now_millis_u64() -> (t: u64)
    ensures
        t <= i64::MAX,
{
    let t = now_millis();
    if t < 0 {
        0
    } else {
        t as u64
    }
}

/// A fresh time-ordered identifier: the 128 bits of `uuid::Uuid::now_v7()`.
/// The value is random and time-dependent, so no clause states it.
#[verifier::external_body]
pub(crate) fn new_uuid_v7() -> (id: u128) {
    uuid::Uuid::now_v7().as_u128()
}

/// The current time in RFC 3339 form, as `chrono::Utc::now().to_rfc3339()`
/// writes it. The value depends on the clock, so no clause states it.
#[verifier::external_body]
pub(crate) fn now_rfc3339() -> (s: String) {
    chrono::Utc::now().to_rfc3339()
}

/// The current year and month (1 to 12) in UTC, read from
/// `chrono::Utc::now()` with `Datelike::year` and `Datelike::month`. The value
/// depends on the clock; chrono documents a month as 1 to 12.
#[verifier::external_body]
pub(crate) fn now_year_month() -> (ym: (i32, u32))
    ensures
        1 <= ym.1 <= 12,
{
    let now = chrono::Utc::now();
    (now.year(), now.month())
}

} // verus!
