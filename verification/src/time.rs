//! Points in time, the clock, and the text form of a point in time.

use vstd::prelude::*;

verus! {

/// A point in time: whole seconds since the start of 1970 in UTC, and the nanoseconds after them.
#[derive(Clone, Copy, Debug, PartialEq, Eq, Structural)]
pub struct Timestamp {
    pub secs: i64,
    pub nanos: u32,
}

/// The last second that a calendar date can be given for.
pub const LAST_SECOND: i64 = 8210266876799;

/// The first second that a calendar date can be given for.
pub const FIRST_SECOND: i64 = -8334601228800;

/// The last second of the year 9999.
pub const LAST_FOUR_DIGIT_SECOND: i64 = 253402300799;

impl Timestamp {
    /// Whether the point has a calendar date. A leap second goes on for a second after the last one
    /// of a minute, so its nanoseconds count on.
    pub open spec fn has_date(self) -> bool {
        FIRST_SECOND <= self.secs <= LAST_SECOND && (self.nanos < 1_000_000_000 || (self.nanos
            < 2_000_000_000 && self.secs as int % 60 == 59))
    }

    /// Whether the point has a calendar date.
    pub fn is_dated(&self) -> (r: bool)
        ensures
            r == self.has_date(),
    {
        if self.secs < FIRST_SECOND || self.secs > LAST_SECOND {
            return false;
        }
        let since: u64 = (self.secs - FIRST_SECOND) as u64;
        self.nanos < 1_000_000_000 || (self.nanos < 2_000_000_000 && since % 60 == 59)
    }

    /// The order of time.
    pub open spec fn not_before(self, other: Timestamp) -> bool {
        self.secs > other.secs || (self.secs == other.secs && self.nanos >= other.nanos)
    }

    /// Whether this point is at or after `other`.
    pub fn at_or_after(&self, other: &Timestamp) -> (r: bool)
        ensures
            r == self.not_before(*other),
    {
        self.secs > other.secs || (self.secs == other.secs && self.nanos >= other.nanos)
    }

    /// The point so many seconds later; `None` if it has no calendar date. A leap second is not
    /// counted, so whatever is later than one is so by the seconds after it.
    pub open spec fn later(self, seconds: u32) -> Option<Timestamp> {
        if self.secs + seconds <= LAST_SECOND {
            Some(
                Timestamp {
                    secs: (self.secs + seconds) as i64,
                    nanos: if seconds > 0 && self.nanos >= 1_000_000_000 {
                        (self.nanos - 1_000_000_000) as u32
                    } else {
                        self.nanos
                    },
                },
            )
        } else {
            None
        }
    }

    /// The point so many seconds later; `None` if it has no calendar date.
    pub fn plus_seconds(&self, seconds: u32) -> (r: Option<Timestamp>)
        ensures
            r == self.later(seconds),
    {
        if self.secs <= LAST_SECOND - seconds as i64 {
            let nanos: u32 = if seconds > 0 && self.nanos >= 1_000_000_000 {
                self.nanos - 1_000_000_000
            } else {
                self.nanos
            };
            Some(Timestamp { secs: self.secs + seconds as i64, nanos })
        } else {
            None
        }
    }
}

/// The nanoseconds since the start of 1970.
pub open spec fn nanos_since_1970(t: Timestamp) -> int {
    t.secs * 1_000_000_000 + t.nanos
}

impl Timestamp {
    /// The point so many milliseconds earlier. Less than a second before a leap second its own
    /// second is kept.
    pub open spec fn earlier(self, millis: u64) -> Timestamp {
        let nanos = nanos_since_1970(self) - millis * 1_000_000;
        if self.nanos >= 1_000_000_000 && millis < 1000 {
            Timestamp { secs: self.secs, nanos: (self.nanos - millis * 1_000_000) as u32 }
        } else {
            Timestamp {
                secs: (nanos / 1_000_000_000) as i64,
                nanos: (nanos % 1_000_000_000) as u32,
            }
        }
    }

    /// The point so many milliseconds earlier; `None` if it has no calendar date.
    pub fn minus_millis(&self, millis: u64) -> (r: Option<Timestamp>)
        requires
            self.has_date(),
        ensures
            match r {
                Some(t) => t.has_date() && t == self.earlier(millis),
                None => nanos_since_1970(*self) - millis * 1_000_000 < FIRST_SECOND
                    * 1_000_000_000,
            },
    {
        if self.nanos >= 1_000_000_000 {
            if millis < 1000 {
                return Some(
                    Timestamp { secs: self.secs, nanos: self.nanos - (millis * 1_000_000) as u32 },
                );
            }
            let next = Timestamp { secs: self.secs + 1, nanos: self.nanos - 1_000_000_000 };
            return next.minus_plain(millis);
        }
        self.minus_plain(millis)
    }

    fn minus_plain(&self, millis: u64) -> (r: Option<Timestamp>)
        requires
            FIRST_SECOND <= self.secs <= LAST_SECOND + 1,
            self.nanos < 1_000_000_000,
            self.secs > LAST_SECOND ==> millis >= 1000,
        ensures
            match r {
                Some(t) => t.has_date() && t == self.earlier(millis),
                None => nanos_since_1970(*self) - millis * 1_000_000 < FIRST_SECOND
                    * 1_000_000_000,
            },
    {
        let whole: u64 = millis / 1000;
        let rest: u32 = ((millis % 1000) * 1_000_000) as u32;
        if whole > 20_000_000_000_000 {
            return None;
        }
        let mut secs: i64 = self.secs - whole as i64;
        let nanos: u32 = if self.nanos >= rest {
            self.nanos - rest
        } else {
            secs = secs - 1;
            self.nanos + 1_000_000_000 - rest
        };
        if secs < FIRST_SECOND {
            return None;
        }
        Some(Timestamp { secs, nanos })
    }
}

/// [`chrono::Utc::now`]: the clock's time. Nothing is known of it but that it has a date, is not
/// before 1970, and is no leap second.
#[verifier::external_body]
pub(crate) fn now() -> (r: Timestamp)
    ensures
        r.has_date(),
        0 <= r.secs,
        r.nanos < 1_000_000_000,
{
    let t = chrono::Utc::now();
    Timestamp { secs: t.timestamp(), nanos: t.timestamp_subsec_nanos() }
}

/// The text that [`chrono::DateTime::to_rfc3339`] gives for a point in time.
pub uninterp spec fn rfc3339(t: Timestamp) -> Seq<char>;

/// The point in time that [`chrono::DateTime::parse_from_rfc3339`] reads from a text.
pub uninterp spec fn instant_of(text: Seq<char>) -> Option<Timestamp>;

/// [`chrono::DateTime::to_rfc3339`]: the text of a point in time, in UTC. It keeps the
/// nanoseconds, so reading it back gives the same point, as long as the year has four digits.
#[verifier::external_body]
pub(crate) fn to_rfc3339(t: Timestamp) -> (r: String)
    requires
        t.has_date(),
    ensures
        r@ == rfc3339(t),
        0 <= t.secs <= LAST_FOUR_DIGIT_SECOND ==> instant_of(r@) == Some(t),
{
    chrono::DateTime::from_timestamp(t.secs, t.nanos).unwrap_or_default().to_rfc3339()
}

/// [`chrono::DateTime::parse_from_rfc3339`]: the point in time that a text names, or `None` if
/// it names none. It depends on the text alone.
#[verifier::external_body]
pub(crate) fn parse_rfc3339(text: &str) -> (r: Option<Timestamp>)
    ensures
        r == instant_of(text@),
{
    chrono::DateTime::parse_from_rfc3339(text).ok().map(
        |t| Timestamp { secs: t.timestamp(), nanos: t.timestamp_subsec_nanos() },
    )
}

/// The text that [`chrono::DateTime::to_rfc3339_opts`] gives for a point in time, with as many
/// digits as the fraction needs and `Z` for the zone.
pub uninterp spec fn rfc3339_z(t: Timestamp) -> Seq<char>;

/// [`chrono::DateTime::to_rfc3339_opts`], with as many digits as the fraction needs and `Z` for
/// the zone: the text of a point in time, which depends on the point alone.
#[verifier::external_body]
pub(crate) fn to_rfc3339_z(t: Timestamp) -> (r: String)
    requires
        t.has_date(),
    ensures
        r@ == rfc3339_z(t),
{
    let d = chrono::DateTime::from_timestamp(t.secs, t.nanos).unwrap_or_default();
    d.to_rfc3339_opts(chrono::SecondsFormat::AutoSi, true)
}

/// Points in time are ordered: each comes not before itself, of two one comes not before the other,
/// two that come not before each other are one point, and what comes not before a later point comes
/// not before an earlier one.
pub proof fn law_time_is_ordered(a: Timestamp, b: Timestamp, c: Timestamp)
    ensures
        a.not_before(a),
        a.not_before(b) || b.not_before(a),
        a.not_before(b) && b.not_before(a) ==> a == b,
        a.not_before(b) && b.not_before(c) ==> a.not_before(c),
        a.secs > b.secs ==> a.not_before(b) && !b.not_before(a),
{
}

/// A point so many seconds later is later by exactly these seconds; no seconds later is the point
/// itself, and two waits one after the other are one wait of both.
pub proof fn law_later_is_later_by_its_seconds(t: Timestamp, a: u32, b: u32)
    requires
        t.has_date(),
        t.nanos < 1_000_000_000,
        a + b <= u32::MAX,
    ensures
        t.later(0) == Some(t),
        t.later(a) matches Some(end) ==> {
            &&& end.secs == t.secs + a
            &&& end.nanos == t.nanos
            &&& end.not_before(t)
            &&& end.later(b) == t.later((a + b) as u32)
        },
        t.later(a) is None <==> t.secs + a > LAST_SECOND,
{
}

/// A point so many milliseconds earlier is earlier by exactly these, whatever second it falls in.
pub proof fn law_earlier_is_earlier_by_its_milliseconds(t: Timestamp, millis: u64)
    requires
        t.has_date(),
        t.nanos < 1_000_000_000,
    ensures
        nanos_since_1970(t.earlier(millis)) == nanos_since_1970(t) - millis * 1_000_000,
        t.earlier(millis).nanos < 1_000_000_000,
        t.not_before(t.earlier(millis)),
{
    let nanos = nanos_since_1970(t) - millis * 1_000_000;
    assert(nanos / 1_000_000_000 * 1_000_000_000 + nanos % 1_000_000_000 == nanos);
    assert(0 <= nanos % 1_000_000_000 < 1_000_000_000);
}

} // verus!
