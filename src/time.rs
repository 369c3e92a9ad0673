use vstd::prelude::*;

verus! {

/// Milliseconds since 1970-01-01 00:00:00 UTC of the earliest instant that a
/// UTC date-time can hold (1 January of year -262143).
pub const EARLIEST_MILLIS: i64 = -8334601228800000;

/// Milliseconds since 1970-01-01 00:00:00 UTC of the last instant that a UTC
/// date-time can hold (the end of 31 December of year 262142).
pub const LATEST_MILLIS: i64 = 8210266876799999;

/// An instant, as milliseconds since 1970-01-01 00:00:00 UTC.
#[derive(Clone, Copy, Debug, PartialEq, Eq, Structural)]
pub struct Timestamp {
    pub millis: i64,
}

impl Timestamp {
    /// Whether a UTC date-time can stand for this instant.
    pub open spec fn in_range(self) -> bool {
        EARLIEST_MILLIS <= self.millis && self.millis <= LATEST_MILLIS
    }

    /// The instant `millis` milliseconds after 1970-01-01 00:00:00 UTC.
    pub fn from_millis(millis: i64) -> (r: Timestamp)
        ensures
            r.millis == millis,
    {
        Timestamp { millis }
    }
}

/// The text `YYYY-MM-DD HH:MM:SS UTC` of an instant, as chrono formats it.
pub uninterp spec fn utc_text(millis: int) -> Seq<char>;

/// Relies on chrono's `From<SystemTime> for DateTime<Utc>`: the current time
/// of the system clock, before 1970 as well as after; every `DateTime<Utc>`
/// lies in range.
#[verifier::external_body]
pub(crate) fn current_time() -> (r: Timestamp)
    ensures
        r.in_range(),
{
    Timestamp { millis: chrono::DateTime::<chrono::Utc>::from(std::time::SystemTime::now()).timestamp_millis() }
}

/// Relies on `chrono::DateTime::from_timestamp_millis` (which gives `Some` on
/// the whole range) and on chrono's formatting with
/// `%Y-%m-%d %H:%M:%S UTC`: the text depends on the instant alone.
#[verifier::external_body]
pub(crate) fn format_utc(t: Timestamp) -> (r: String)
    requires
        t.in_range(),
    ensures
        r@ == utc_text(t.millis as int),
{
    chrono::DateTime::from_timestamp_millis(t.millis).unwrap().format("%Y-%m-%d %H:%M:%S UTC").to_string()
}

} // verus!
