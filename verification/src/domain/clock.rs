//! The wall clock that stamps each transaction.

use chrono::Utc;
use vstd::prelude::*;

verus! {

/// An instant in UTC, held as plain numbers: whole seconds since the Unix
/// epoch and the nanoseconds into that second. They are the pair that
/// `chrono::DateTime::timestamp` and `timestamp_subsec_nanos` give for an
/// instant and from which `chrono::DateTime::from_timestamp` rebuilds it.
///
/// A timestamp is kept for audit only. The order of a history is the order of
/// its entries, never the order of their timestamps.
#[derive(Clone, Copy, Debug, PartialEq, Eq)]
pub struct Timestamp {
    pub seconds: i64,
    pub nanoseconds: u32,
}

/// Reads the wall clock through `chrono::Utc::now` and hands the instant back
/// as the seconds and nanoseconds that `DateTime::timestamp` and
/// `DateTime::timestamp_subsec_nanos` report for it.
///
/// Nothing is claimed of the value: two readings may differ, and a clock may
/// be set back. `Utc::now` itself stops the program when the system clock
/// stands before the Unix epoch.
#[verifier::external_body]
pub(crate) fn now() -> (instant: Timestamp) {
    let instant = Utc::now();
    Timestamp { seconds: instant.timestamp(), nanoseconds: instant.timestamp_subsec_nanos() }
}

} // verus!
