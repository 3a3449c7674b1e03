//! Points in time and spans of time, and the calls into `chrono` that read the
//! clock, parse and print timestamps, and shift a timestamp by a span.
use vstd::prelude::*;

verus! {

/// A point in time in UTC: whole seconds since the Unix epoch and the
/// nanoseconds past that second (as `chrono` counts them; a leap second is
/// written with `nanos` of one billion or more).
#[derive(Clone, Copy, Debug, PartialEq, Eq, Structural)]
pub struct Instant {
    pub secs: i64,
    pub nanos: u32,
}

/// A non-negative span of time, as `std::time::Duration` holds it.
#[derive(Clone, Copy, Debug, PartialEq, Eq, Structural)]
pub struct Span {
    pub secs: u64,
    pub nanos: u32,
}

/// Chronological order of two instants (`DateTime` ordering).
pub open spec fn instant_lt(a: Instant, b: Instant) -> bool {
    a.secs < b.secs || (a.secs == b.secs && a.nanos < b.nanos)
}

/// `a <= b` in chronological order.
pub open spec fn instant_le(a: Instant, b: Instant) -> bool {
    !instant_lt(b, a)
}

/// `a < b`.
pub fn is_before(a: &Instant, b: &Instant) -> (r: bool)
    ensures
        r == instant_lt(*a, *b),
{
    a.secs < b.secs || (a.secs == b.secs && a.nanos < b.nanos)
}

/// `a <= b`.
pub fn is_not_after(a: &Instant, b: &Instant) -> (r: bool)
    ensures
        r == instant_le(*a, *b),
{
    !is_before(b, a)
}

impl Span {
    /// A span of whole seconds.
    pub fn from_secs(secs: u64) -> (r: Span)
        ensures
            r.secs == secs,
            r.nanos == 0,
    {
        Span { secs, nanos: 0 }
    }
}

/// Reads the system clock (`chrono::Utc::now`). Nothing is promised of the
/// value: it is whatever the clock says.
#[verifier::external_body]
pub(crate) fn now() -> (t: Instant) {
    let t = chrono::Utc::now();
    Instant { secs: t.timestamp(), nanos: t.timestamp_subsec_nanos() }
}

/// A signed span of time as `chrono::TimeDelta` holds it: seconds, and
/// nanoseconds in `0..1_000_000_000` added to them.
#[derive(Clone, Copy, Debug, PartialEq, Eq, Structural)]
pub struct Delta {
    pub secs: i64,
    pub nanos: u32,
}

/// Whole seconds of the largest `TimeDelta` (`i64::MAX` milliseconds).
pub const DELTA_MAX_SECS: i64 = 9223372036854775;

/// Nanoseconds of the largest `TimeDelta` past its whole seconds.
pub const DELTA_MAX_NANOS: u32 = 807000000;

/// The `TimeDelta` that `TimeDelta::from_std` makes of a span, if it has one.
pub open spec fn delta_of_span(s: Span) -> Option<Delta> {
    if s.nanos < 1_000_000_000 && (s.secs < DELTA_MAX_SECS || (s.secs == DELTA_MAX_SECS
        && s.nanos <= DELTA_MAX_NANOS)) {
        Some(Delta { secs: s.secs as i64, nanos: s.nanos })
    } else {
        None
    }
}

/// Whether a delta is one that `TimeDelta::new` accepts: nanoseconds below a
/// second, and no further from zero than `i64::MAX` milliseconds.
pub open spec fn delta_in_range(d: Delta) -> bool {
    &&& d.nanos < 1_000_000_000
    &&& d.secs <= DELTA_MAX_SECS
    &&& d.secs >= -DELTA_MAX_SECS - 1
    &&& d.secs == DELTA_MAX_SECS ==> d.nanos <= DELTA_MAX_NANOS
    &&& d.secs == -DELTA_MAX_SECS - 1 ==> d.nanos >= 1_000_000_000 - DELTA_MAX_NANOS
}

/// `TimeDelta::from_std`: the delta of a span, or `None` when the span is
/// longer than the longest `TimeDelta`.
pub fn delta_from_span(s: Span) -> (r: Option<Delta>)
    ensures
        r == delta_of_span(s),
        r matches Some(d) ==> delta_in_range(d),
{
    if s.nanos < 1_000_000_000 && (s.secs < DELTA_MAX_SECS as u64 || (s.secs
        == DELTA_MAX_SECS as u64 && s.nanos <= DELTA_MAX_NANOS)) {
        Some(Delta { secs: s.secs as i64, nanos: s.nanos })
    } else {
        None
    }
}

/// The zero delta (`TimeDelta::default`).
pub fn zero_delta() -> (r: Delta)
    ensures
        r.secs == 0,
        r.nanos == 0,
        delta_in_range(r),
{
    Delta { secs: 0, nanos: 0 }
}

/// What `DateTime::parse_from_rfc3339` reads in a text, as an instant.
pub uninterp spec fn rfc3339_instant(text: Seq<char>) -> Option<Instant>;

/// What `DateTime::parse_from_str` with the format `%Y-%m-%d %H:%M:%S %z %Z`
/// (the one `ndnd` prints validity periods in) reads in a text, as an instant.
pub uninterp spec fn ndnd_time_instant(text: Seq<char>) -> Option<Instant>;

/// What `DateTime::to_rfc3339` writes for an instant, if `chrono` can hold it.
pub uninterp spec fn instant_rfc3339(t: Instant) -> Option<Seq<char>>;

/// What `format("%Y%m%d%H%M%S")` writes for an instant, if `chrono` can hold it.
pub uninterp spec fn instant_compact(t: Instant) -> Option<Seq<char>>;

/// `DateTime::checked_add_signed`, if `chrono` can hold the instant and the sum.
pub uninterp spec fn instant_plus(t: Instant, d: Delta) -> Option<Instant>;

/// `DateTime::checked_sub_signed`, if `chrono` can hold the instant and the
/// difference.
pub uninterp spec fn instant_minus(t: Instant, d: Delta) -> Option<Instant>;

/// `(to - from).to_std()`: the span from one instant to a later one, if both
/// are instants `chrono` can hold and `to` is not before `from`.
pub uninterp spec fn span_between(from: Instant, to: Instant) -> Option<Span>;

/// Parses an RFC 3339 timestamp (`DateTime::parse_from_rfc3339`). The result
/// is named, not described; on failure the error text is `chrono`'s message,
/// of which nothing is stated.
#[verifier::external_body]
pub(crate) fn parse_rfc3339(text: &str) -> (r: Result<Instant, String>)
    ensures
        match r {
            Ok(t) => rfc3339_instant(text@) == Some(t),
            Err(_) => rfc3339_instant(text@) is None,
        },
{
    match chrono::DateTime::parse_from_rfc3339(text) {
        Ok(d) => Ok(Instant { secs: d.timestamp(), nanos: d.timestamp_subsec_nanos() }),
        Err(e) => Err(e.to_string()),
    }
}

/// Parses a timestamp as `ndnd` prints it (`DateTime::parse_from_str` with
/// `%Y-%m-%d %H:%M:%S %z %Z`). On failure the error text is `chrono`'s
/// message, of which nothing is stated.
#[verifier::external_body]
pub(crate) fn parse_ndnd_time(text: &str) -> (r: Result<Instant, String>)
    ensures
        match r {
            Ok(t) => ndnd_time_instant(text@) == Some(t),
            Err(_) => ndnd_time_instant(text@) is None,
        },
{
    match chrono::DateTime::parse_from_str(text, "%Y-%m-%d %H:%M:%S %z %Z") {
        Ok(d) => Ok(Instant { secs: d.timestamp(), nanos: d.timestamp_subsec_nanos() }),
        Err(e) => Err(e.to_string()),
    }
}

/// Writes an instant in RFC 3339 (`DateTime::to_rfc3339` of the UTC time
/// that `DateTime::from_timestamp` makes of it).
#[verifier::external_body]
pub(crate) fn format_rfc3339(t: Instant) -> (r: Option<String>)
    ensures
        match r {
            Some(s) => instant_rfc3339(t) == Some(s@),
            None => instant_rfc3339(t) is None,
        },
{
    chrono::DateTime::from_timestamp(t.secs, t.nanos).map(|d| d.to_rfc3339())
}

/// Writes an instant as `%Y%m%d%H%M%S` in UTC, the form `ndnd sec sign-cert`
/// takes for the start and end of a validity period.
#[verifier::external_body]
pub(crate) fn format_compact(t: Instant) -> (r: Option<String>)
    ensures
        match r {
            Some(s) => instant_compact(t) == Some(s@),
            None => instant_compact(t) is None,
        },
{
    chrono::DateTime::from_timestamp(t.secs, t.nanos).map(|d| d.format("%Y%m%d%H%M%S").to_string())
}

/// `DateTime::checked_add_signed` on the UTC time of an instant.
#[verifier::external_body]
pub(crate) fn add_delta(t: Instant, d: Delta) -> (r: Option<Instant>)
    requires
        delta_in_range(d),
    ensures
        r == instant_plus(t, d),
{
    let delta = chrono::TimeDelta::new(d.secs, d.nanos).unwrap();
    chrono::DateTime::from_timestamp(t.secs, t.nanos).and_then(|x| x.checked_add_signed(delta)).map(
        |x| Instant { secs: x.timestamp(), nanos: x.timestamp_subsec_nanos() },
    )
}

/// `DateTime::checked_sub_signed` on the UTC time of an instant.
#[verifier::external_body]
pub(crate) fn sub_delta(t: Instant, d: Delta) -> (r: Option<Instant>)
    requires
        delta_in_range(d),
    ensures
        r == instant_minus(t, d),
{
    let delta = chrono::TimeDelta::new(d.secs, d.nanos).unwrap();
    chrono::DateTime::from_timestamp(t.secs, t.nanos).and_then(|x| x.checked_sub_signed(delta)).map(
        |x| Instant { secs: x.timestamp(), nanos: x.timestamp_subsec_nanos() },
    )
}

/// `(to - from).to_std()` on the UTC times of two instants: `None` when `to`
/// is before `from` (as `TimeDelta::to_std` refuses a negative delta).
#[verifier::external_body]
pub(crate) fn span_from_to(from: Instant, to: Instant) -> (r: Option<Span>)
    ensures
        r == span_between(from, to),
{
    let a = chrono::DateTime::from_timestamp(from.secs, from.nanos)?;
    let b = chrono::DateTime::from_timestamp(to.secs, to.nanos)?;
    (b - a).to_std().ok().map(|d| Span { secs: d.as_secs(), nanos: d.subsec_nanos() })
}

} // verus!
