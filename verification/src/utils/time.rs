//! Wall-clock time: the system clock, and the record time stamps built from it.
use vstd::prelude::*;

verus! {

#[verifier::external_type_specification]
#[verifier::external_body]
pub struct ExNaiveDateTime(chrono::NaiveDateTime);

/// `SystemTime::now().duration_since(UNIX_EPOCH)` as whole seconds and the
/// nanoseconds within the second; `None` when the clock reads earlier than the
/// Unix epoch. Nothing is promised of the value, which depends on the clock.
#[verifier::external_body]
pub(crate) fn unix_time_now() -> (r: Option<(u64, u32)>)
    ensures
        r matches Some(t) ==> t.1 < 1_000_000_000,
{
    match std::time::SystemTime::now().duration_since(std::time::UNIX_EPOCH) {
        Ok(d) => Some((d.as_secs(), d.subsec_nanos())),
        Err(_) => None,
    }
}

/// The last second that chrono can stamp: 23:59:59 on 31 December of year
/// 262142, in seconds since the Unix epoch.
pub const MAX_TIMESTAMP_SECS: u64 = 8210266876799;

/// `chrono::DateTime::from_timestamp(secs, nanos)` as a UTC time without a
/// zone. For a time at or after the Unix epoch with nanoseconds below 10^9 it
/// succeeds exactly up to the end of chrono's last year; the value itself is
/// opaque here and nothing is stated of it.
#[verifier::external_body]
fn naive_utc_from_timestamp(secs: i64, nanos: u32) -> (r: Option<chrono::NaiveDateTime>)
    ensures
        0 <= secs && nanos < 1_000_000_000 ==> (r is Some <==> secs <= MAX_TIMESTAMP_SECS),
{
    chrono::DateTime::from_timestamp(secs, nanos).map(|t| t.naive_utc())
}

/// The UTC time of a clock reading (seconds and nanoseconds since the Unix
/// epoch): present exactly when there is a reading, its nanoseconds are below
/// 10^9, and its seconds do not pass chrono's last year.
pub fn time_from_unix(reading: Option<(u64, u32)>) -> (r: Option<chrono::NaiveDateTime>)
    ensures
        r is Some <==> (reading matches Some(t) && t.0 <= MAX_TIMESTAMP_SECS && t.1 < 1_000_000_000),
{
    match reading {
        Some((secs, nanos)) => {
            if secs <= MAX_TIMESTAMP_SECS && nanos < 1_000_000_000 {
                naive_utc_from_timestamp(secs as i64, nanos)
            } else {
                None
            }
        },
        None => None,
    }
}

/// The current UTC time without a zone: the time of the system clock's
/// reading, `None` when the clock reads earlier than the Unix epoch or past
/// chrono's last year. Which time comes back depends on the clock.
pub fn get_current_time() -> (r: Option<chrono::NaiveDateTime>) {
    time_from_unix(unix_time_now())
}

} // verus!
