use vstd::prelude::*;

verus! {

/// The text that chrono's `to_rfc3339` gives for the UTC time `secs` seconds
/// and `nanos` nanoseconds after the Unix epoch.
pub uninterp spec fn rfc3339_of(secs: i64, nanos: u32) -> Seq<char>;

/// The last second of the year 9999, counted from the Unix epoch.
pub const LAST_SECOND_OF_9999: i64 = 253_402_300_799;

/// A character that an RFC 3339 time in UTC can hold.
pub open spec fn is_stamp_char(c: char) -> bool {
    ('0' <= c && c <= '9') || c == '-' || c == '+' || c == 'T' || c == ':' || c == '.'
}

/// The shape of an RFC 3339 time in UTC: at least `YYYY-MM-DDTHH:MM:SS+00:00`,
/// and nothing but digits and `-`, `+`, `T`, `:` and `.`.
pub open spec fn is_stamp(s: Seq<char>) -> bool {
    s.len() >= 25 && forall|i: int| 0 <= i < s.len() ==> #[trigger] is_stamp_char(s[i])
}

/// Relies on std's `SystemTime::elapsed`, on `UNIX_EPOCH`: the time since the
/// epoch, or nothing where the clock reads before it. A `Duration`'s
/// `subsec_nanos` is below one billion.
#[verifier::external_body]
pub(crate) fn unix_time_now() -> (r: Option<(u64, u32)>)
    ensures
        r matches Some((_, nanos)) ==> nanos < 1_000_000_000,
{
    match std::time::UNIX_EPOCH.elapsed() {
        Ok(d) => Some((d.as_secs(), d.subsec_nanos())),
        Err(_) => None,
    }
}

/// Relies on chrono's `DateTime::<Utc>::from_timestamp`, which gives nothing
/// for seconds out of its range or an invalid nanosecond, and on
/// `DateTime::to_rfc3339`, which writes the date, the time, a fraction where
/// the nanoseconds are not zero, and the offset `+00:00`, in digits and
/// `-`, `+`, `T`, `:` and `.` alone. Every time from the epoch to the end of
/// the year 9999 is in range, and any nanosecond below one billion is valid.
#[verifier::external_body]
pub(crate) fn rfc3339_at(secs: i64, nanos: u32) -> (r: Option<String>)
    ensures
        r matches Some(s) ==> s@ == rfc3339_of(secs, nanos) && is_stamp(s@),
        0 <= secs <= LAST_SECOND_OF_9999 && nanos < 1_000_000_000 ==> r is Some,
{
    match chrono::DateTime::<chrono::Utc>::from_timestamp(secs, nanos) {
        Some(t) => Some(t.to_rfc3339()),
        None => None,
    }
}

/// The RFC 3339 text of the UTC time `secs` seconds and `nanos` nanoseconds
/// after the Unix epoch, or nothing where chrono cannot write that time.
pub fn stamp_at(secs: u64, nanos: u32) -> (r: Option<String>)
    ensures
        r matches Some(s) ==> s@ == rfc3339_of(secs as i64, nanos) && is_stamp(s@),
        secs > i64::MAX as u64 ==> r is None,
        secs <= LAST_SECOND_OF_9999 as u64 && nanos < 1_000_000_000 ==> r is Some,
{
    if secs > i64::MAX as u64 {
        None
    } else {
        rfc3339_at(secs as i64, nanos)
    }
}

/// The current UTC time as RFC 3339 text, or nothing where the clock reads
/// before the Unix epoch or beyond the range that chrono can write.
pub fn now_rfc3339() -> (r: Option<String>)
    ensures
        r matches Some(s) ==> is_stamp(s@) && exists|secs: i64, nanos: u32|
            nanos < 1_000_000_000 && s@ == #[trigger] rfc3339_of(secs, nanos),
{
    match unix_time_now() {
        Some((secs, nanos)) => stamp_at(secs, nanos),
        None => None,
    }
}

} // verus!
