//! Points in time, as plain numbers.
use vstd::prelude::*;

verus! {

/// A UTC instant: whole seconds since the Unix epoch plus a sub-second part.
/// This is what `chrono::DateTime<Utc>` holds, in plain integers.
#[derive(Debug, Clone, Copy, PartialEq, Eq, Hash, Structural)]
pub struct Timestamp {
    pub secs: i64,
    pub nanos: u32,
}

impl Timestamp {
    /// The instant as a count of nanoseconds since the epoch.
    pub open spec fn total_nanos(self) -> int {
        self.secs * 1_000_000_000 + self.nanos
    }

    /// 1970-01-01T00:00:00Z.
    pub fn unix_epoch() -> (t: Timestamp)
        ensures
            t == (Timestamp { secs: 0, nanos: 0 }),
    {
        Timestamp { secs: 0, nanos: 0 }
    }

    /// The instant `secs` whole seconds after the epoch.
    pub fn from_secs(secs: i64) -> (t: Timestamp)
        ensures
            t == (Timestamp { secs: secs, nanos: 0 }),
    {
        Timestamp { secs, nanos: 0 }
    }

    /// Whether at least `secs` seconds separate `earlier` from `self`
    /// (`self - earlier >= secs`).
    pub fn at_least_secs_after(self, earlier: Timestamp, secs: i64) -> (r: bool)
        ensures
            r == (self.total_nanos() - earlier.total_nanos() >= secs * 1_000_000_000),
    {
        let a: i128 = (self.secs as i128) * 1_000_000_000i128 + (self.nanos as i128);
        let b: i128 = (earlier.secs as i128) * 1_000_000_000i128 + (earlier.nanos as i128);
        a - b >= (secs as i128) * 1_000_000_000i128
    }
}

/// Whether chrono represents the instant `secs` seconds after the epoch, that
/// is, whether `DateTime::<Utc>::from_timestamp(secs, 0)` is `Some`.
pub uninterp spec fn chrono_represents(secs: i64) -> bool;

/// Calls `chrono::DateTime::<Utc>::from_timestamp(secs, 0)` and reports whether
/// it returned `Some`; the contract names that answer `chrono_represents(secs)`
/// and claims nothing about which values chrono accepts.
#[verifier::external_body]
pub(crate) fn chrono_can_represent(secs: i64) -> (r: bool)
    ensures
        r == chrono_represents(secs),
{
    chrono::DateTime::<chrono::Utc>::from_timestamp(secs, 0).is_some()
}

/// The UTC calendar date of an instant, written `YYYY-MM-DD` the way chrono's
/// `%Y-%m-%d` format writes it.
pub uninterp spec fn utc_calendar_date(secs: i64, nanos: u32) -> Seq<char>;

/// Calls `chrono::DateTime::<Utc>::from_timestamp(secs, nanos)` and, when that
/// gives an instant, formats it with `%Y-%m-%d`. The contract names the text
/// `utc_calendar_date(secs, nanos)`. For a sub-second part below one second,
/// chrono gives an instant exactly when it gives one for the whole second
/// (`chrono_represents(secs)`); for a larger sub-second part, which chrono
/// accepts only in a leap second, whether it gives one is left unsaid.
#[verifier::external_body]
pub(crate) fn calendar_date(secs: i64, nanos: u32) -> (r: Option<String>)
    ensures
        nanos < 1_000_000_000 ==> (r is Some <==> chrono_represents(secs)),
        r matches Some(text) ==> text@ == utc_calendar_date(secs, nanos),
{
    match chrono::DateTime::<chrono::Utc>::from_timestamp(secs, nanos) {
        Some(instant) => Some(instant.format("%Y-%m-%d").to_string()),
        None => None,
    }
}

} // verus!
