//! Instants in UTC, the staleness rule, and the text forms of instants that
//! the request addresses and the view use.
use chrono::DateTime;
use vstd::prelude::*;

verus! {

/// Earliest second that `chrono` can represent in UTC (January 1, 262144 BCE).
pub const MIN_TIMESTAMP: i64 = -8334601228800;

/// Latest second that `chrono` can represent in UTC (December 31, 262142 CE, 23:59:59).
pub const MAX_TIMESTAMP: i64 = 8210266876799;

/// Nanoseconds in one second.
pub const NANOS_PER_SEC: u32 = 1000000000;

/// Cached data older than this many seconds is refetched.
pub const STALE_AFTER_SECS: i64 = 1800;

/// Seconds in a day: the span of every forecast window that is requested.
pub const SECS_PER_DAY: i64 = 86400;

/// Whether `(secs, nanos)` names an instant: the second lies in the
/// representable range, and the nanosecond part exceeds a second only during
/// a leap second, which follows the last second of a minute.
pub open spec fn valid_instant(secs: int, nanos: int) -> bool {
    &&& MIN_TIMESTAMP <= secs <= MAX_TIMESTAMP
    &&& 0 <= nanos < 2 * NANOS_PER_SEC
    &&& nanos >= NANOS_PER_SEC ==> secs % 60 == 59
}

/// An instant in UTC: whole seconds since the Unix epoch and a nanosecond part.
#[derive(Clone, Copy, Debug, PartialEq, Eq)]
pub struct Instant {
    secs: i64,
    nanos: u32,
}

impl Instant {
    #[verifier::type_invariant]
    spec fn inv(self) -> bool {
        valid_instant(self.secs as int, self.nanos as int)
    }

    /// Whole seconds since the Unix epoch.
    pub closed spec fn spec_secs(self) -> i64 {
        self.secs
    }

    /// Nanoseconds past `spec_secs`.
    pub closed spec fn spec_nanos(self) -> u32 {
        self.nanos
    }

    /// The instant `(secs, nanos)`; an instant only where `valid_instant` holds.
    pub closed spec fn spec_new(secs: i64, nanos: u32) -> Instant {
        Instant { secs, nanos }
    }

    /// What `spec_new` builds.
    pub broadcast proof fn lemma_spec_new(secs: i64, nanos: u32)
        ensures
            #[trigger] Instant::spec_new(secs, nanos).spec_secs() == secs,
            Instant::spec_new(secs, nanos).spec_nanos() == nanos,
    {
    }

    /// Nanoseconds since the Unix epoch.
    pub open spec fn total_nanos(self) -> int {
        self.spec_secs() * NANOS_PER_SEC + self.spec_nanos()
    }

    /// The instant `(secs, nanos)`, if it is valid.
    pub fn new(secs: i64, nanos: u32) -> (r: Option<Instant>)
        ensures
            r == parsed_instant(Some((secs, nanos))),
    {
        if MIN_TIMESTAMP <= secs && secs <= MAX_TIMESTAMP && nanos < 2 * NANOS_PER_SEC && (
        nanos < NANOS_PER_SEC || secs % 60 == 59 || secs % 60 == -1) {
            Some(Instant { secs, nanos })
        } else {
            None
        }
    }

    /// The Unix epoch, 1970-01-01T00:00:00Z.
    pub fn epoch() -> (r: Instant)
        ensures
            r == Instant::spec_new(0, 0),
    {
        Instant { secs: 0, nanos: 0 }
    }

    /// Whole seconds since the Unix epoch.
    pub fn secs(&self) -> (r: i64)
        ensures
            r == self.spec_secs(),
    {
        self.secs
    }

    /// Nanoseconds past `secs`.
    pub fn nanos(&self) -> (r: u32)
        ensures
            r == self.spec_nanos(),
    {
        self.nanos
    }

    /// The same time of day one day later, if that is representable.
    pub fn next_day(&self) -> (r: Option<Instant>)
        ensures
            r is Some <==> self.spec_secs() + SECS_PER_DAY <= MAX_TIMESTAMP,
            r is Some ==> r->0 == Instant::spec_new(
                (self.spec_secs() + SECS_PER_DAY) as i64,
                self.spec_nanos(),
            ),
    {
        proof {
            use_type_invariant(self);
        }
        if self.secs <= MAX_TIMESTAMP - SECS_PER_DAY {
            Some(Instant { secs: self.secs + SECS_PER_DAY, nanos: self.nanos })
        } else {
            None
        }
    }

    /// Nanoseconds since the Unix epoch.
    pub fn total(&self) -> (r: i128)
        ensures
            r == self.total_nanos(),
    {
        proof {
            use_type_invariant(self);
        }
        self.secs as i128 * 1000000000i128 + self.nanos as i128
    }
}

/// Whether data last refreshed at `last` is stale at `now`: strictly more
/// than the staleness window has passed.
pub open spec fn stale(now: Instant, last: Instant) -> bool {
    now.total_nanos() - last.total_nanos() > STALE_AFTER_SECS * NANOS_PER_SEC
}

/// Decides `stale(*now, *last)`.
pub fn is_stale(now: &Instant, last: &Instant) -> (r: bool)
    ensures
        r == stale(*now, *last),
{
    now.total() - last.total() > 1800000000000i128
}

/// What `chrono` reads from RFC 3339 text: whole seconds since the epoch and
/// the nanosecond part, or nothing where the text is not RFC 3339.
pub uninterp spec fn rfc3339_parts(s: Seq<char>) -> Option<(i64, u32)>;

/// What `chrono` reads from text in the form `YYYY-MM-DDTHH:MM` followed by a
/// zone name, taken as UTC: whole seconds and nanosecond part, or nothing.
pub uninterp spec fn minute_utc_parts(s: Seq<char>) -> Option<(i64, u32)>;

/// `YYYY-MM-DDTHH:MM` for the UTC minute that holds second `secs`.
pub uninterp spec fn minute_text(secs: i64) -> Seq<char>;

/// The RFC 3339 text of the instant `(secs, nanos)` with offset `+00:00`.
pub uninterp spec fn rfc3339_text(secs: i64, nanos: u32) -> Seq<char>;

/// Relies on `chrono::DateTime::parse_from_rfc3339`, with the instant read
/// back through `timestamp` and `timestamp_subsec_nanos`.
#[verifier::external_body]
fn parse_rfc3339_parts(s: &str) -> (r: Option<(i64, u32)>)
    ensures
        r == rfc3339_parts(s@),
{
    match DateTime::parse_from_rfc3339(s) {
        Ok(d) => Some((d.timestamp(), d.timestamp_subsec_nanos())),
        Err(_) => None,
    }
}

/// Relies on `chrono::TimeZone::datetime_from_str` for `Utc` with the format
/// `%Y-%m-%dT%H:%M%Z`, read back as in `parse_rfc3339_parts`.
#[allow(deprecated)]
#[verifier::external_body]
fn parse_minute_utc_parts(s: &str) -> (r: Option<(i64, u32)>)
    ensures
        r == minute_utc_parts(s@),
{
    match chrono::TimeZone::datetime_from_str(&chrono::Utc, s, "%Y-%m-%dT%H:%M%Z") {
        Ok(d) => Some((d.timestamp(), d.timestamp_subsec_nanos())),
        Err(_) => None,
    }
}

/// Relies on `chrono::DateTime::from_timestamp`, which accepts every valid
/// instant, and on `format("%Y-%m-%dT%H:%M")`.
#[verifier::external_body]
fn format_minute(secs: i64) -> (r: String)
    requires
        MIN_TIMESTAMP <= secs <= MAX_TIMESTAMP,
    ensures
        r@ == minute_text(secs),
{
    DateTime::from_timestamp(secs, 0).unwrap().format("%Y-%m-%dT%H:%M").to_string()
}

/// Relies on `chrono::DateTime::from_timestamp`, which accepts every valid
/// instant, and on `to_rfc3339`.
#[verifier::external_body]
fn format_rfc3339(secs: i64, nanos: u32) -> (r: String)
    requires
        valid_instant(secs as int, nanos as int),
    ensures
        r@ == rfc3339_text(secs, nanos),
{
    DateTime::from_timestamp(secs, nanos).unwrap().to_rfc3339()
}

/// The instant that `parts` names, if it names a valid one.
pub open spec fn parsed_instant(parts: Option<(i64, u32)>) -> Option<Instant> {
    match parts {
        Some((secs, nanos)) => if valid_instant(secs as int, nanos as int) {
            Some(Instant::spec_new(secs, nanos))
        } else {
            None
        },
        None => None,
    }
}

impl Instant {
    /// Reads an instant from RFC 3339 text such as `2023-07-06T20:30:00Z`.
    pub fn parse_rfc3339(s: &str) -> (r: Option<Instant>)
        ensures
            r == parsed_instant(rfc3339_parts(s@)),
    {
        match parse_rfc3339_parts(s) {
            Some((secs, nanos)) => Instant::new(secs, nanos),
            None => None,
        }
    }

    /// Reads an instant from text such as `2023-07-04T23:30Z`: a UTC minute
    /// followed by a zone name.
    pub fn parse_minute_utc(s: &str) -> (r: Option<Instant>)
        ensures
            r == parsed_instant(minute_utc_parts(s@)),
    {
        match parse_minute_utc_parts(s) {
            Some((secs, nanos)) => Instant::new(secs, nanos),
            None => None,
        }
    }

    /// `YYYY-MM-DDTHH:MM` for the minute that holds this instant.
    pub fn minute_text(&self) -> (r: String)
        ensures
            r@ == minute_text(self.spec_secs()),
    {
        proof {
            use_type_invariant(self);
        }
        format_minute(self.secs)
    }

    /// RFC 3339 text for this instant, such as `2023-07-04T23:30:00+00:00`.
    pub fn to_rfc3339(&self) -> (r: String)
        ensures
            r@ == rfc3339_text(self.spec_secs(), self.spec_nanos()),
    {
        proof {
            use_type_invariant(self);
        }
        format_rfc3339(self.secs, self.nanos)
    }
}

} // verus!
