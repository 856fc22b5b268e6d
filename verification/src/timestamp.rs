//! The time of an event: an instant with a fixed offset from UTC, in the
//! range that RFC 3339 can write. Two timestamps are equal where they are
//! the same instant with the same offset.

use vstd::prelude::*;

verus! {

/// Seconds from the epoch to 0000-01-01T00:00:00, local time.
pub const MIN_LOCAL_SECONDS: i64 = -62167219200;

/// Seconds from the epoch to 9999-12-31T23:59:59, local time.
pub const MAX_LOCAL_SECONDS: i64 = 253402300799;

/// What `chrono::DateTime::parse_from_rfc3339` reads from a text: the
/// seconds from the epoch in UTC, the nanoseconds of the second, and the
/// offset in seconds east of UTC; `None` where it rejects the text.
pub uninterp spec fn rfc3339_parse(text: Seq<char>) -> Option<(int, int, int)>;

/// What `chrono::DateTime::to_rfc3339` writes for an instant with an offset.
pub uninterp spec fn rfc3339_text(seconds: int, nanos: int, offset: int) -> Seq<char>;

/// What the `FromStr` impl of `chrono::DateTime<FixedOffset>` reads from a
/// text, in the same three numbers.
pub uninterp spec fn datetime_parse(text: Seq<char>) -> Option<(int, int, int)>;

/// What `chrono::DateTime::to_rfc3339_opts` writes with automatic
/// sub-second digits and `Z` for a zero offset.
pub uninterp spec fn datetime_text(seconds: int, nanos: int, offset: int) -> Seq<char>;

/// The numbers that make a timestamp: the offset is less than a day, the
/// local year has four digits, and the nanoseconds run past a full second
/// only in the last second of a minute (a leap second).
pub open spec fn in_range(seconds: int, nanos: int, offset: int) -> bool {
    &&& -86400 < offset < 86400
    &&& MIN_LOCAL_SECONDS <= seconds + offset <= MAX_LOCAL_SECONDS
    &&& 0 <= nanos < 2_000_000_000
    &&& nanos >= 1_000_000_000 ==> seconds % 60 == 59
}

/// An instant with a fixed offset from UTC.
#[derive(Clone, Copy, PartialEq, Eq, Debug, Structural)]
pub struct Timestamp {
    seconds: i64,
    nanos: u32,
    offset: i32,
}

/// `chrono::DateTime::parse_from_rfc3339`, with the result taken apart by
/// `timestamp`, `timestamp_subsec_nanos` and `offset().local_minus_utc()`.
#[verifier::external_body]
fn chrono_parse_rfc3339(text: &str) -> (r: Option<(i64, u32, i32)>)
    ensures
        r is Some <==> rfc3339_parse(text@) is Some,
        r matches Some(t) ==> rfc3339_parse(text@) == Some((t.0 as int, t.1 as int, t.2 as int)),
{
    match chrono::DateTime::parse_from_rfc3339(text) {
        Ok(dt) => Some(
            (dt.timestamp(), dt.timestamp_subsec_nanos(), dt.offset().local_minus_utc()),
        ),
        Err(_) => None,
    }
}

/// The `FromStr` impl of `chrono::DateTime<FixedOffset>`, with the result
/// taken apart in the same way.
#[verifier::external_body]
fn chrono_parse_datetime(text: &str) -> (r: Option<(i64, u32, i32)>)
    ensures
        r is Some <==> datetime_parse(text@) is Some,
        r matches Some(t) ==> datetime_parse(text@) == Some((t.0 as int, t.1 as int, t.2 as int)),
{
    match text.parse::<chrono::DateTime<chrono::FixedOffset>>() {
        Ok(dt) => Some(
            (dt.timestamp(), dt.timestamp_subsec_nanos(), dt.offset().local_minus_utc()),
        ),
        Err(_) => None,
    }
}

/// `chrono::DateTime::to_rfc3339`, on the date and time that
/// `DateTime::from_timestamp` and `FixedOffset::east_opt` make of the three
/// numbers. Both accept every triple that is in range.
#[verifier::external_body]
fn chrono_to_rfc3339(seconds: i64, nanos: u32, offset: i32) -> (r: String)
    requires
        in_range(seconds as int, nanos as int, offset as int),
    ensures
        r@ == rfc3339_text(seconds as int, nanos as int, offset as int),
{
    let zone = chrono::FixedOffset::east_opt(offset).unwrap();
    chrono::DateTime::from_timestamp(seconds, nanos).unwrap().with_timezone(&zone).to_rfc3339()
}

/// `chrono::DateTime::to_rfc3339_opts` with `SecondsFormat::AutoSi` and
/// `use_z`, on the same date and time.
#[verifier::external_body]
fn chrono_to_datetime_text(seconds: i64, nanos: u32, offset: i32) -> (r: String)
    requires
        in_range(seconds as int, nanos as int, offset as int),
    ensures
        r@ == datetime_text(seconds as int, nanos as int, offset as int),
{
    let zone = chrono::FixedOffset::east_opt(offset).unwrap();
    chrono::DateTime::from_timestamp(seconds, nanos).unwrap().with_timezone(&zone).to_rfc3339_opts(
        chrono::SecondsFormat::AutoSi,
        true,
    )
}

impl Timestamp {
    #[verifier::type_invariant]
    spec fn well_formed(self) -> bool {
        in_range(self.seconds as int, self.nanos as int, self.offset as int)
    }

    /// The numbers of this timestamp are in range. This holds of every
    /// timestamp that a program has.
    pub closed spec fn valid(self) -> bool {
        in_range(self.seconds as int, self.nanos as int, self.offset as int)
    }

    /// The timestamp that three numbers make, where they are in range.
    pub open spec fn of(numbers: Option<(int, int, int)>) -> Option<Timestamp> {
        match numbers {
            Some((s, n, o)) => if in_range(s, n, o) {
                Some(Timestamp::at(s, n, o))
            } else {
                None
            },
            None => None,
        }
    }

    /// The timestamp with the given numbers.
    pub closed spec fn at(seconds: int, nanos: int, offset: int) -> Timestamp {
        Timestamp { seconds: seconds as i64, nanos: nanos as u32, offset: offset as i32 }
    }

    /// Seconds from the epoch, in UTC.
    pub closed spec fn seconds(self) -> int {
        self.seconds as int
    }

    /// Nanoseconds of the second.
    pub closed spec fn nanos(self) -> int {
        self.nanos as int
    }

    /// Offset in seconds east of UTC.
    pub closed spec fn offset(self) -> int {
        self.offset as int
    }

    /// The text of this timestamp in a header.
    pub open spec fn header_text(self) -> Seq<char> {
        rfc3339_text(self.seconds(), self.nanos(), self.offset())
    }

    /// The text of this timestamp in a JSON document.
    pub open spec fn json_text(self) -> Seq<char> {
        datetime_text(self.seconds(), self.nanos(), self.offset())
    }

    /// Makes a timestamp of seconds from the epoch in UTC, nanoseconds and
    /// an offset in seconds east of UTC; `None` where they are out of range.
    pub fn new(seconds: i64, nanos: u32, offset: i32) -> (r: Option<Timestamp>)
        ensures
            r == Self::of(Some((seconds as int, nanos as int, offset as int))),
            r is Some <==> in_range(seconds as int, nanos as int, offset as int),
            r matches Some(t) ==> t.valid() && t.seconds() == seconds && t.nanos() == nanos
                && t.offset() == offset,
    {
        if offset <= -86400 || offset >= 86400 {
            return None;
        }
        if seconds < MIN_LOCAL_SECONDS - 86400 || seconds > MAX_LOCAL_SECONDS + 86400 {
            return None;
        }
        let local: i64 = seconds + offset as i64;
        if local < MIN_LOCAL_SECONDS || local > MAX_LOCAL_SECONDS {
            return None;
        }
        if nanos >= 2_000_000_000 {
            return None;
        }
        let shifted: i64 = seconds + 62167305600;
        assert(shifted % 60 == seconds % 60);
        if nanos >= 1_000_000_000 && shifted % 60 != 59 {
            return None;
        }
        Some(Timestamp { seconds, nanos, offset })
    }

    /// Seconds from the epoch, in UTC.
    pub fn timestamp(&self) -> (r: i64)
        ensures
            r == self.seconds(),
            self.valid(),
    {
        proof {
            use_type_invariant(self);
        }
        self.seconds
    }

    /// Nanoseconds of the second; a thousand million or more in a leap
    /// second.
    pub fn timestamp_subsec_nanos(&self) -> (r: u32)
        ensures
            r == self.nanos(),
    {
        self.nanos
    }

    /// Offset in seconds east of UTC.
    pub fn offset_seconds(&self) -> (r: i32)
        ensures
            r == self.offset(),
    {
        self.offset
    }

    /// Reads a timestamp written as RFC 3339 asks, with its offset.
    pub fn parse_from_rfc3339(text: &str) -> (r: Option<Timestamp>)
        ensures
            r == Self::of(rfc3339_parse(text@)),
    {
        match chrono_parse_rfc3339(text) {
            Some((s, n, o)) => Timestamp::new(s, n, o),
            None => None,
        }
    }

    /// Reads a timestamp from the text that a JSON document holds.
    pub fn parse_from_json_text(text: &str) -> (r: Option<Timestamp>)
        ensures
            r == Self::of(datetime_parse(text@)),
    {
        match chrono_parse_datetime(text) {
            Some((s, n, o)) => Timestamp::new(s, n, o),
            None => None,
        }
    }

    /// Writes this timestamp as RFC 3339 asks, with a numeric offset.
    pub fn to_rfc3339(&self) -> (r: String)
        ensures
            r@ == self.header_text(),
    {
        proof {
            use_type_invariant(self);
        }
        chrono_to_rfc3339(self.seconds, self.nanos, self.offset)
    }

    /// Writes this timestamp as a JSON document holds it.
    pub fn to_json_text(&self) -> (r: String)
        ensures
            r@ == self.json_text(),
    {
        proof {
            use_type_invariant(self);
        }
        chrono_to_datetime_text(self.seconds, self.nanos, self.offset)
    }
}

/// A valid timestamp is the one that its own numbers make, and the
/// timestamp that numbers in range make has these numbers.
pub proof fn lemma_timestamp_numbers(t: Timestamp)
    requires
        t.valid(),
    ensures
        in_range(t.seconds(), t.nanos(), t.offset()),
        Timestamp::of(Some((t.seconds(), t.nanos(), t.offset()))) == Some(t),
{
}

/// The timestamp that numbers in range make is valid and has these
/// numbers.
pub proof fn lemma_timestamp_at(seconds: int, nanos: int, offset: int)
    requires
        in_range(seconds, nanos, offset),
    ensures
        Timestamp::at(seconds, nanos, offset).valid(),
        Timestamp::at(seconds, nanos, offset).seconds() == seconds,
        Timestamp::at(seconds, nanos, offset).nanos() == nanos,
        Timestamp::at(seconds, nanos, offset).offset() == offset,
{
}

} // verus!
