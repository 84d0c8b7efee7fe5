//! Wall-clock instants as whole seconds and nanoseconds since the Unix epoch, and their RFC 3339
//! text.
use vstd::prelude::*;

verus! {

/// Seconds after 1970-01-01T00:00:00Z of the first instant of year 0000.
pub const RFC3339_FIRST_SECS: i64 = -62167219200i64;

/// Seconds after the epoch of the last second of year 9999.
pub const RFC3339_LAST_SECS: i64 = 253402300799i64;

/// Nanoseconds in a second.
pub const NANOS_PER_SEC: u32 = 1000000000u32;

/// A wall-clock instant (UTC): whole seconds after the Unix epoch, and the nanoseconds past that
/// second. As in chrono, `nanos` reaches past a second only inside a leap second.
#[derive(Debug, Clone, Copy, PartialEq, Eq, Hash, Structural)]
pub struct Timestamp {
    pub secs: i64,
    pub nanos: u32,
}

/// The instant of `secs` and `nanos` lies in a four-digit year, off any leap second.
pub open spec fn instant_round_trips(secs: i64, nanos: u32) -> bool {
    RFC3339_FIRST_SECS <= secs <= RFC3339_LAST_SECS && nanos < NANOS_PER_SEC
}

/// Instants of a four-digit year, off any leap second; their RFC 3339 text reads back to the
/// same instant.
pub open spec fn rfc3339_round_trips(t: Timestamp) -> bool {
    instant_round_trips(t.secs, t.nanos)
}

/// The RFC 3339 text that chrono writes for the instant of `secs` and `nanos` (`None` when
/// chrono cannot represent the instant).
pub uninterp spec fn spec_rfc3339_text(secs: i64, nanos: u32) -> Option<Seq<char>>;

/// The instant, as seconds and nanoseconds, that chrono reads from an RFC 3339 text (`None` when
/// it rejects the text).
pub uninterp spec fn spec_rfc3339_instant(text: Seq<char>) -> Option<(i64, u32)>;

/// The RFC 3339 text of an instant.
pub open spec fn timestamp_text(t: Timestamp) -> Option<Seq<char>> {
    spec_rfc3339_text(t.secs, t.nanos)
}

/// A text holds an instant: chrono reads exactly that instant from it.
pub open spec fn text_instant_is(text: Seq<char>, t: Timestamp) -> bool {
    spec_rfc3339_instant(text) == Some((t.secs, t.nanos))
}

/// `a` is not earlier than `b`: instants order by their second, then by the nanoseconds.
pub open spec fn not_before(a: Timestamp, b: Timestamp) -> bool {
    a.secs > b.secs || (a.secs == b.secs && a.nanos >= b.nanos)
}

/// The instant `ms` milliseconds after `t`, with the nanoseconds carried into the seconds;
/// `None` when the seconds no longer fit in an `i64`.
pub open spec fn after_millis(t: Timestamp, ms: nat) -> Option<Timestamp> {
    let nanos = t.nanos + (ms % 1000) * 1000000;
    let secs = t.secs + ms / 1000 + nanos / 1000000000;
    if secs > i64::MAX {
        None
    } else {
        Some(Timestamp { secs: secs as i64, nanos: (nanos % 1000000000) as u32 })
    }
}

/// Calls `chrono::Utc::now` and reads its `timestamp` and `timestamp_subsec_nanos`. What it
/// returns depends on the clock; nothing is claimed of it.
#[verifier::external_body]
fn utc_now() -> (i64, u32) {
    let now = chrono::Utc::now();
    (now.timestamp(), now.timestamp_subsec_nanos())
}

/// Calls `chrono::DateTime::<Utc>::from_timestamp` and then `to_rfc3339`. The text is named by
/// `spec_rfc3339_text`. chrono's sources show that every instant of a four-digit year off a leap
/// second is representable, that `to_rfc3339` writes its nanoseconds in full (3, 6 or 9
/// digits) and that `DateTime::parse_from_rfc3339` reads the text back to the same seconds and
/// nanoseconds.
#[verifier::external_body]
fn chrono_rfc3339(secs: i64, nanos: u32) -> (r: Option<String>)
    ensures
        (match r {
            Some(text) => spec_rfc3339_text(secs, nanos) == Some(text@),
            None => spec_rfc3339_text(secs, nanos) is None,
        }),
        instant_round_trips(secs, nanos) ==> r is Some && spec_rfc3339_instant(r->0@) == Some((secs, nanos)),
{
    match chrono::DateTime::<chrono::Utc>::from_timestamp(secs, nanos) {
        Some(dt) => Some(dt.to_rfc3339()),
        None => None,
    }
}

/// Calls `chrono::DateTime::parse_from_rfc3339` and reads the instant back with `timestamp` and
/// `timestamp_subsec_nanos`. The result is named by `spec_rfc3339_instant`.
#[verifier::external_body]
fn chrono_parse_rfc3339(text: &str) -> (r: Option<(i64, u32)>)
    ensures
        r == spec_rfc3339_instant(text@),
{
    match chrono::DateTime::parse_from_rfc3339(text) {
        Ok(dt) => Some((dt.timestamp(), dt.timestamp_subsec_nanos())),
        Err(_) => None,
    }
}

impl Timestamp {
    /// The instant `millis` milliseconds after the epoch (before it when negative).
    pub fn from_millis(millis: i64) -> (r: Timestamp)
        ensures
            r.secs * 1000 + r.nanos / 1000000 == millis,
            r.nanos % 1000000 == 0,
            r.nanos < NANOS_PER_SEC,
    {
        // Shift by a multiple of 1000 that makes every `i64` positive, so that the division
        // rounds down.
        let shift: i128 = 9223372036854776000i128;
        let shifted: u128 = (millis as i128 + shift) as u128;
        let whole: u128 = shifted / 1000;
        let rest: u128 = shifted % 1000;
        let secs: i128 = whole as i128 - 9223372036854776i128;
        assert(secs * 1000 + rest == millis);
        Timestamp { secs: secs as i64, nanos: (rest as u32) * 1000000 }
    }

    /// The current wall-clock instant.
    pub fn now() -> Timestamp {
        let (secs, nanos) = utc_now();
        Timestamp { secs, nanos }
    }

    /// The RFC 3339 text of this instant, or `None` when chrono cannot represent it.
    pub fn to_rfc3339(&self) -> (r: Option<String>)
        ensures
            r matches Some(text) ==> timestamp_text(*self) == Some(text@),
            r is None ==> timestamp_text(*self) is None,
            rfc3339_round_trips(*self) ==> (r matches Some(text) && text_instant_is(text@, *self)),
    {
        chrono_rfc3339(self.secs, self.nanos)
    }

    /// Reads an RFC 3339 text, to the nanosecond.
    pub fn parse_rfc3339(text: &str) -> (r: Option<Timestamp>)
        ensures
            r matches Some(t) ==> text_instant_is(text@, t),
            r is None ==> spec_rfc3339_instant(text@) is None,
    {
        match chrono_parse_rfc3339(text) {
            Some((secs, nanos)) => Some(Timestamp { secs, nanos }),
            None => None,
        }
    }

    /// Whether this instant is not earlier than `other`.
    pub fn is_not_before(&self, other: &Timestamp) -> (r: bool)
        ensures
            r == not_before(*self, *other),
    {
        self.secs > other.secs || (self.secs == other.secs && self.nanos >= other.nanos)
    }

    /// The instant `ms` milliseconds later, or `None` when its seconds leave the `i64` range.
    pub fn plus_millis(&self, ms: u64) -> (r: Option<Timestamp>)
        ensures
            r == after_millis(*self, ms as nat),
    {
        let nanos: u64 = self.nanos as u64 + (ms % 1000) * 1000000;
        let secs: i128 = self.secs as i128 + (ms / 1000) as i128 + (nanos / 1000000000) as i128;
        if secs > i64::MAX as i128 {
            None
        } else {
            Some(Timestamp { secs: secs as i64, nanos: (nanos % 1000000000) as u32 })
        }
    }
}

} // verus!
