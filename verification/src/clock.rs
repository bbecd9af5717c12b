//! Timestamps, carried as `chrono::NaiveDateTime`.
use vstd::prelude::*;

verus! {

#[verifier::external_type_specification]
#[verifier::external_body]
pub struct ExNaiveDateTime(chrono::NaiveDateTime);

/// The current time in UTC, by `chrono::Utc::now().naive_utc()`.
///
/// Not stated: which instant it is; that depends on the clock.
#[verifier::external_body]
pub(crate) fn now_utc() -> (now: chrono::NaiveDateTime) {
    chrono::Utc::now().naive_utc()
}

} // verus!
