//! Points in time as plain integers: whole seconds since the Unix epoch and
//! the nanoseconds within that second.

use vstd::prelude::*;

verus! {

pub const NANOS_PER_SECOND: u32 = 1_000_000_000;

/// A UTC instant. Instants are ordered by `secs`, then by `nanos`.
#[derive(Debug, Clone, Copy, PartialEq, Eq, Structural)]
pub struct Timestamp {
    /// Whole seconds since 1970-01-01T00:00:00Z; negative before it.
    pub secs: i64,
    /// Nanoseconds since the start of that second.
    pub nanos: u32,
}

/// Whether the calendar in use has a date for the instant `secs`, `nanos`.
pub uninterp spec fn calendar_has(secs: i64, nanos: u32) -> bool;

/// The RFC 3339 text of the instant `secs`, `nanos`.
pub uninterp spec fn rfc3339_text(secs: i64, nanos: u32) -> Seq<char>;

/// The RFC 2822 text of the instant `secs`, `nanos`.
pub uninterp spec fn rfc2822_text(secs: i64, nanos: u32) -> Seq<char>;

/// First second of the year 0000 and last second of the year 9999: the
/// years that an RFC 2822 date can show.
pub const RFC2822_FIRST_SECOND: i64 = -62_167_219_200;

pub const RFC2822_LAST_SECOND: i64 = 253_402_300_799;

/// The instant lies in the years 0000 to 9999 and its nanoseconds stay
/// within their second.
pub open spec fn in_four_digit_years(secs: i64, nanos: u32) -> bool {
    RFC2822_FIRST_SECOND <= secs <= RFC2822_LAST_SECOND && nanos < 1_000_000_000
}

/// Calls `chrono::DateTime::from_timestamp` and says whether it yields a
/// date. The answer is named, not described: it depends on the instant
/// alone. The calendar reaches from the year -262143 to the year 262142
/// and takes any count of nanoseconds below a second, so it has a date for
/// every instant of the years 0000 to 9999.
#[verifier::external_body]
fn chrono_has_date(secs: i64, nanos: u32) -> (has: bool)
    ensures
        has == calendar_has(secs, nanos),
        in_four_digit_years(secs, nanos) ==> has,
{
    chrono::DateTime::from_timestamp(secs, nanos).is_some()
}

/// Calls `chrono::DateTime::from_timestamp` and, where that yields a date,
/// `DateTime::to_rfc3339` on it. The text is named, not described: the
/// same instant always yields the same text. There is a date, and so a
/// text, for every instant of the years 0000 to 9999.
#[verifier::external_body]
fn chrono_rfc3339(secs: i64, nanos: u32) -> (text: Option<String>)
    ensures
        text is Some <==> calendar_has(secs, nanos),
        in_four_digit_years(secs, nanos) ==> text is Some,
        text matches Some(s) ==> s@ == rfc3339_text(secs, nanos),
{
    match chrono::DateTime::from_timestamp(secs, nanos) {
        Some(t) => Some(t.to_rfc3339()),
        None => None,
    }
}

/// Calls `chrono::DateTime::from_timestamp` and, where that yields a date,
/// `DateTime::to_rfc2822` on it, which panics outside the years 0000 to
/// 9999; the precondition keeps to those years. The text is named, not
/// described. There is a date, and so a text, for every instant of those
/// years whose nanoseconds stay within their second.
#[verifier::external_body]
fn chrono_rfc2822(secs: i64, nanos: u32) -> (text: Option<String>)
    requires
        RFC2822_FIRST_SECOND <= secs <= RFC2822_LAST_SECOND,
    ensures
        text is Some <==> calendar_has(secs, nanos),
        in_four_digit_years(secs, nanos) ==> text is Some,
        text matches Some(s) ==> s@ == rfc2822_text(secs, nanos),
{
    match chrono::DateTime::from_timestamp(secs, nanos) {
        Some(t) => Some(t.to_rfc2822()),
        None => None,
    }
}

impl Timestamp {
    /// Nanoseconds since the epoch, as a mathematical integer.
    pub open spec fn total_nanos(self) -> int {
        self.secs * 1_000_000_000 + self.nanos
    }

    /// The nanoseconds stay within their second. Clock readings are so; a
    /// larger count stands for a leap second.
    pub open spec fn is_plain(self) -> bool {
        self.nanos < 1_000_000_000
    }

    /// `self` is strictly earlier than `other`.
    pub open spec fn precedes(self, other: Timestamp) -> bool {
        self.secs < other.secs || (self.secs == other.secs && self.nanos < other.nanos)
    }

    /// More than `limit_secs` seconds lie between `earlier` and `self`.
    pub open spec fn later_by_more_than(self, earlier: Timestamp, limit_secs: int) -> bool {
        self.total_nanos() - earlier.total_nanos() > limit_secs * 1_000_000_000
    }

    pub fn new(secs: i64, nanos: u32) -> (t: Timestamp)
        ensures
            t.secs == secs,
            t.nanos == nanos,
    {
        Timestamp { secs, nanos }
    }

    /// Whether `self` is strictly earlier than `other`.
    pub fn is_before(&self, other: &Timestamp) -> (r: bool)
        ensures
            r == self.precedes(*other),
    {
        self.secs < other.secs || (self.secs == other.secs && self.nanos < other.nanos)
    }

    /// Whether `self` is strictly later than `other`.
    pub fn is_after(&self, other: &Timestamp) -> (r: bool)
        ensures
            r == other.precedes(*self),
    {
        other.is_before(self)
    }

    /// The instant `seconds` later (earlier, if negative), or `None` where
    /// the count of seconds would not fit.
    pub fn checked_add_seconds(&self, seconds: i64) -> (r: Option<Timestamp>)
        ensures
            match r {
                Some(t) => t.secs == self.secs + seconds && t.nanos == self.nanos,
                None => self.secs + seconds < i64::MIN || self.secs + seconds > i64::MAX,
            },
    {
        match self.secs.checked_add(seconds) {
            Some(secs) => Some(Timestamp { secs, nanos: self.nanos }),
            None => None,
        }
    }

    /// The instant `seconds` later (earlier, if negative).
    pub fn add_seconds(&self, seconds: i64) -> (t: Timestamp)
        requires
            i64::MIN <= self.secs + seconds <= i64::MAX,
        ensures
            t.secs == self.secs + seconds,
            t.nanos == self.nanos,
    {
        Timestamp { secs: self.secs + seconds, nanos: self.nanos }
    }

    /// Whether more than `limit_secs` seconds have passed since `earlier`.
    pub fn is_later_by_more_than(&self, earlier: &Timestamp, limit_secs: i64) -> (r: bool)
        ensures
            r == self.later_by_more_than(*earlier, limit_secs as int),
    {
        let billion: i128 = 1_000_000_000;
        let here: i128 = (self.secs as i128) * billion + (self.nanos as i128);
        let there: i128 = (earlier.secs as i128) * billion + (earlier.nanos as i128);
        let limit: i128 = (limit_secs as i128) * billion;
        here - there > limit
    }

    /// The instant is a clock reading of the years 0000 to 9999.
    pub open spec fn is_ordinary(self) -> bool {
        in_four_digit_years(self.secs, self.nanos)
    }

    /// The calendar has a date for this instant.
    pub open spec fn has_date(self) -> bool {
        calendar_has(self.secs, self.nanos)
    }

    /// An RFC 2822 date can show this instant: the calendar has a date for
    /// it, in a year from 0000 to 9999.
    pub open spec fn fits_rfc2822(self) -> bool {
        RFC2822_FIRST_SECOND <= self.secs <= RFC2822_LAST_SECOND && self.has_date()
    }

    /// Whether the calendar has a date for this instant.
    pub fn is_representable(&self) -> (r: bool)
        ensures
            r == self.has_date(),
            self.is_ordinary() ==> r,
    {
        chrono_has_date(self.secs, self.nanos)
    }

    /// The instant as RFC 3339 text, such as `2024-01-01T00:00:00+00:00`;
    /// `None` for an instant the calendar has no date for.
    pub fn to_rfc3339(&self) -> (text: Option<String>)
        ensures
            text is Some <==> self.has_date(),
            self.is_ordinary() ==> text is Some,
            text matches Some(s) ==> s@ == rfc3339_text(self.secs, self.nanos),
    {
        chrono_rfc3339(self.secs, self.nanos)
    }

    /// The instant as RFC 2822 text, such as `Mon, 1 Jan 2024 00:00:00 +0000`;
    /// `None` for an instant that this format cannot show.
    pub fn to_rfc2822(&self) -> (text: Option<String>)
        ensures
            text is Some <==> self.fits_rfc2822(),
            self.is_ordinary() ==> text is Some,
            text matches Some(s) ==> s@ == rfc2822_text(self.secs, self.nanos),
    {
        if self.secs < RFC2822_FIRST_SECOND || self.secs > RFC2822_LAST_SECOND {
            None
        } else {
            chrono_rfc2822(self.secs, self.nanos)
        }
    }
}

/// Between instants whose nanoseconds stay within their second, the order
/// is that of the nanoseconds since the epoch.
pub proof fn order_is_by_total_nanos(a: Timestamp, b: Timestamp)
    requires
        a.is_plain(),
        b.is_plain(),
    ensures
        a.precedes(b) <==> a.total_nanos() < b.total_nanos(),
{
}

} // verus!
