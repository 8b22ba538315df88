//! The two readings of the system clock that the library takes.
use vstd::prelude::*;

verus! {

/// A bound above every timestamp that a `chrono::DateTime<Utc>` can hold: its
/// dates end with the year 262142, about 8.21e12 seconds after the epoch.
pub const MAX_TIMESTAMP: i64 = 8_300_000_000_000;

/// Relies on `chrono::Utc::now` and `DateTime::timestamp`: whole seconds since
/// the Unix epoch. `Utc::now` builds its value from the duration since the
/// epoch, so it is not negative (it panics instead on a clock set before
/// 1970), and a `DateTime<Utc>` cannot pass the year 262142.
#[verifier::external_body]
pub(crate) fn utc_now_seconds() -> (r: i64)
    ensures
        0 <= r <= MAX_TIMESTAMP,
{
    chrono::Utc::now().timestamp()
}

/// Relies on `chrono::Local::now` and `DateTime::to_rfc2822`: the local time
/// as RFC 2822 text. Nothing is known of it beyond its type.
#[verifier::external_body]
pub(crate) fn local_time_rfc2822() -> (r: String) {
    chrono::Local::now().to_rfc2822()
}

} // verus!
