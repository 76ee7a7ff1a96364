//! Instants in UTC, the payload of date-time literals.

use vstd::prelude::*;

verus! {

/// What chrono writes, in the layout `%Y-%m-%d %H:%M:%S`, for the instant
/// that lies `secs` whole seconds and `nanos` nanoseconds after
/// 1970-01-01 00:00:00 UTC; `None` where chrono has no such instant.
pub uninterp spec fn utc_text(secs: int, nanos: int) -> Option<Seq<char>>;

/// Calls `chrono::DateTime::<Utc>::from_timestamp` and, where that gives an
/// instant, `chrono::DateTime::format` with `%Y-%m-%d %H:%M:%S` on it.
///
/// The contract claims one thing: what comes back depends on `secs` and
/// `nanos` alone, so that it can be named by [`utc_text`]. Nothing is
/// claimed about which instants exist or which characters are written.
#[verifier::external_body]
fn format_utc(secs: i64, nanos: u32) -> (r: Option<String>)
    ensures
        r.deep_view() == utc_text(secs as int, nanos as int),
{
    match chrono::DateTime::from_timestamp(secs, nanos) {
        Some(instant) => Some(instant.format("%Y-%m-%d %H:%M:%S").to_string()),
        None => None,
    }
}

/// An absolute instant in UTC, held as the seconds and nanoseconds that
/// passed since 1970-01-01 00:00:00 UTC.
///
/// Only instants that chrono can represent exist as values of this type.
#[derive(Clone, Copy, Debug, PartialEq, Eq, Hash)]
pub struct UtcDateTime {
    secs: i64,
    nanos: u32,
}

impl UtcDateTime {
    #[verifier::type_invariant]
    spec fn representable(self) -> bool {
        utc_text(self.secs as int, self.nanos as int) is Some
    }

    /// The whole seconds since the epoch.
    pub closed spec fn secs(self) -> int {
        self.secs as int
    }

    /// The nanoseconds since the last whole second; above 999,999,999 within
    /// a leap second.
    pub closed spec fn nanos(self) -> int {
        self.nanos as int
    }

    /// The text of this instant in SQL: `YYYY-MM-DD HH:MM:SS`, in UTC.
    pub open spec fn sql(self) -> Seq<char> {
        utc_text(self.secs(), self.nanos())->0
    }

    /// Makes the instant that lies `secs` seconds and `nanos` nanoseconds
    /// after the epoch; `None` where no such instant can be represented.
    pub fn from_timestamp(secs: i64, nanos: u32) -> (r: Option<UtcDateTime>)
        ensures
            r is Some <==> utc_text(secs as int, nanos as int) is Some,
            r matches Some(instant) ==> instant.secs() == secs && instant.nanos() == nanos,
    {
        match format_utc(secs, nanos) {
            Some(_) => Some(UtcDateTime { secs, nanos }),
            None => None,
        }
    }

    /// Returns the whole seconds since the epoch.
    pub fn timestamp(&self) -> (r: i64)
        ensures
            r == self.secs(),
    {
        self.secs
    }

    /// Returns the nanoseconds since the last whole second.
    pub fn timestamp_subsec_nanos(&self) -> (r: u32)
        ensures
            r == self.nanos(),
    {
        self.nanos
    }

    /// Appends the text of this instant to `f`.
    pub fn write_sql(&self, f: &mut String)
        ensures
            final(f)@ == old(f)@ + self.sql(),
    {
        proof {
            use_type_invariant(self);
        }
        match format_utc(self.secs, self.nanos) {
            Some(text) => f.append(text.as_str()),
            None => {},
        }
    }
}

} // verus!
