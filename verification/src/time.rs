//! Wall-clock instants and clock readings.

use vstd::prelude::*;
use crate::environment::{clock_reading, clock_unreadable, system_clock_unix_nanos};

verus! {

/// Whether chrono can build a UTC date-time from these Unix seconds and
/// nanoseconds (`DateTime::<Utc>::from_timestamp(secs, nanos).is_some()`):
/// the day falls in chrono's calendar, from the first day of year -262143
/// through the last day of year 262142, and the nanoseconds are below one
/// billion, or below two billion within the last second of a minute (a leap
/// second).
pub open spec fn utc_valid(secs: int, nanos: int) -> bool {
    &&& -8_334_601_228_800 <= secs <= 8_210_266_876_799
    &&& nanos < 2_000_000_000
    &&& (nanos < 1_000_000_000 || (secs % 86_400) % 60 == 59)
}

/// What chrono prints for the UTC instant `(secs, nanos)` under a strftime `pattern`.
pub uninterp spec fn spec_utc_format(secs: i64, nanos: u32, pattern: Seq<char>) -> Seq<char>;

/// Whole seconds from the instant `(from_secs, from_nanos)` to the instant
/// `(to_secs, to_nanos)`, as chrono counts them
/// (`signed_duration_since(..).num_seconds()`). An instant's nanoseconds reach
/// past one billion only within a leap second; a leap second on the way
/// between the two times of day counts as one more second. The difference is
/// truncated toward zero.
pub open spec fn whole_seconds_between(from_secs: int, from_nanos: int, to_secs: int, to_nanos: int) -> int {
    let from_sod = from_secs % 86_400;
    let to_sod = to_secs % 86_400;
    let leap: int = if to_sod > from_sod && from_nanos >= 1_000_000_000 {
        1
    } else if to_sod < from_sod && to_nanos >= 1_000_000_000 {
        -1
    } else {
        0
    };
    let frac = to_nanos - from_nanos;
    let secs = to_secs - from_secs + leap + frac / 1_000_000_000;
    let nanos = frac % 1_000_000_000;
    if secs < 0 && nanos > 0 {
        secs + 1
    } else {
        secs
    }
}

/// A character that chrono prints for the pattern `%Y-%m-%d_%H-%M-%S`: a
/// digit, the sign of a year beyond four digits, or a separator.
pub open spec fn stamp_char(c: char) -> bool {
    ('0' <= c && c <= '9') || c == '-' || c == '_' || c == '+'
}

/// The strftime patterns this crate formats instants with.
pub open spec fn supported_pattern(p: Seq<char>) -> bool {
    p == "%Y-%m-%d_%H-%M-%S"@ || p == "%Y-%m-%d"@ || p == "%B %d, %Y"@
}

/// Asks `chrono::DateTime::<Utc>::from_timestamp` whether the parts make an
/// instant. chrono splits the seconds into a day number (from the Unix epoch)
/// and a time of day; the day must fall in its calendar's years, and the
/// nanoseconds may reach past one billion only in the 59th second of a
/// minute.
#[verifier::external_body]
fn chrono_parts_valid(secs: i64, nanos: u32) -> (r: bool)
    ensures
        r == utc_valid(secs as int, nanos as int),
{
    chrono::DateTime::<chrono::Utc>::from_timestamp(secs, nanos).is_some()
}

/// Formats a valid instant with `chrono::DateTime::format`; the patterns allowed
/// here are well-formed, so formatting does not fail. chrono documents `%Y`
/// as the year in at least four digits, signed beyond 9999 or before year 1,
/// and `%m`, `%d`, `%H`, `%M`, `%S` as two digits each, so the folder stamp
/// pattern prints only digits, signs and its own separators.
#[verifier::external_body]
fn chrono_format(secs: i64, nanos: u32, pattern: &str) -> (r: String)
    requires
        utc_valid(secs as int, nanos as int),
        supported_pattern(pattern@),
    ensures
        r@ == spec_utc_format(secs, nanos, pattern@),
        pattern@ == "%Y-%m-%d_%H-%M-%S"@ ==> (r@.len() > 0 && forall|i: int|
            0 <= i < r@.len() ==> stamp_char(#[trigger] r@[i])),
{
    match chrono::DateTime::<chrono::Utc>::from_timestamp(secs, nanos) {
        Some(t) => t.format(pattern).to_string(),
        None => String::new(),
    }
}

/// Whole seconds between two valid instants with chrono's
/// `DateTime::signed_duration_since` and `TimeDelta::num_seconds`. chrono
/// subtracts the dates in days and the times of day with their leap-second
/// adjustment, normalises the nanoseconds into `0..1_000_000_000`, and
/// `num_seconds` rounds a negative difference with a fraction up by one.
#[verifier::external_body]
fn chrono_whole_seconds_between(from_secs: i64, from_nanos: u32, to_secs: i64, to_nanos: u32) -> (r:
    i64)
    requires
        utc_valid(from_secs as int, from_nanos as int),
        utc_valid(to_secs as int, to_nanos as int),
    ensures
        r == whole_seconds_between(from_secs as int, from_nanos as int, to_secs as int, to_nanos as int),
{
    match (
        chrono::DateTime::<chrono::Utc>::from_timestamp(from_secs, from_nanos),
        chrono::DateTime::<chrono::Utc>::from_timestamp(to_secs, to_nanos),
    ) {
        (Some(a), Some(b)) => b.signed_duration_since(a).num_seconds(),
        _ => 0,
    }
}

/// A UTC instant: seconds since the Unix epoch and the nanoseconds within
/// that second. Only instants chrono can represent are built.
#[derive(Debug)]
pub struct Timestamp {
    secs: i64,
    nanos: u32,
}

impl Timestamp {
    #[verifier::type_invariant]
    spec fn representable(self) -> bool {
        utc_valid(self.secs as int, self.nanos as int)
    }

    pub closed spec fn spec_secs(self) -> i64 {
        self.secs
    }

    pub closed spec fn spec_nanos(self) -> u32 {
        self.nanos
    }

    /// This instant is a reading of the system clock: its seconds and
    /// nanoseconds split the nanoseconds the clock gave since the Unix epoch.
    pub open spec fn read_from_clock(self) -> bool {
        exists|n: u128|
            #[trigger] clock_reading(n) && self.spec_secs() == n / 1_000_000_000 && self.spec_nanos()
                == n % 1_000_000_000
    }

    /// What chrono prints for this instant under `pattern`.
    pub open spec fn formatted(self, pattern: Seq<char>) -> Seq<char> {
        spec_utc_format(self.spec_secs(), self.spec_nanos(), pattern)
    }

    /// Whole seconds from `self` to `later`, as chrono counts them.
    pub open spec fn seconds_until(self, later: Timestamp) -> int {
        whole_seconds_between(
            self.spec_secs() as int,
            self.spec_nanos() as int,
            later.spec_secs() as int,
            later.spec_nanos() as int,
        )
    }

    /// The current time: an instant at or after 1970, never a leap second.
    /// `None` when the system clock is set before 1970 or beyond what an
    /// instant can hold.
    pub fn now() -> (r: Option<Timestamp>)
        ensures
            r matches Some(t) ==> t.spec_secs() >= 0 && t.spec_nanos() < 1_000_000_000,
            r matches Some(t) ==> t.read_from_clock(),
            r is None ==> clock_out_of_range(),
    {
        match system_clock_unix_nanos() {
            Some(n) => Timestamp::from_unix_nanos(n),
            None => None,
        }
    }

    /// The instant `n` nanoseconds after the Unix epoch, if it can be held.
    pub fn from_unix_nanos(n: u128) -> (r: Option<Timestamp>)
        ensures
            r is Some <==> n / 1_000_000_000 <= 8_210_266_876_799,
            r matches Some(t) ==> t.spec_secs() == n / 1_000_000_000 && t.spec_nanos() == n
                % 1_000_000_000,
    {
        let secs: u128 = n / 1_000_000_000;
        let nanos: u128 = n % 1_000_000_000;
        if secs > 0x7fff_ffff_ffff_ffff {
            None
        } else {
            Timestamp::from_unix(secs as i64, nanos as u32)
        }
    }

    /// The instant with these parts, if chrono can represent it.
    pub fn from_unix(secs: i64, nanos: u32) -> (r: Option<Timestamp>)
        ensures
            r is Some <==> utc_valid(secs as int, nanos as int),
            r matches Some(t) ==> t.spec_secs() == secs && t.spec_nanos() == nanos,
    {
        if chrono_parts_valid(secs, nanos) {
            Some(Timestamp { secs, nanos })
        } else {
            None
        }
    }

    /// Seconds since the Unix epoch.
    pub fn unix_seconds(&self) -> (r: i64)
        ensures
            r == self.spec_secs(),
    {
        self.secs
    }

    /// Nanoseconds within the second.
    pub fn subsec_nanos(&self) -> (r: u32)
        ensures
            r == self.spec_nanos(),
    {
        self.nanos
    }

    /// A copy of this instant.
    pub fn duplicate(&self) -> (r: Timestamp)
        ensures
            r == *self,
    {
        proof {
            use_type_invariant(self);
        }
        Timestamp { secs: self.secs, nanos: self.nanos }
    }

    /// This instant printed under one of the supported strftime patterns.
    pub fn format(&self, pattern: &str) -> (r: String)
        requires
            supported_pattern(pattern@),
        ensures
            r@ == self.formatted(pattern@),
            pattern@ == "%Y-%m-%d_%H-%M-%S"@ ==> forall|i: int|
                0 <= i < r@.len() ==> stamp_char(#[trigger] r@[i]),
    {
        proof {
            use_type_invariant(self);
        }
        chrono_format(self.secs, self.nanos, pattern)
    }

    /// Whole seconds from `self` to `later` (negative when `later` is earlier).
    pub fn whole_seconds_until(&self, later: &Timestamp) -> (r: i64)
        ensures
            r == self.seconds_until(*later),
    {
        proof {
            use_type_invariant(self);
            use_type_invariant(later);
        }
        chrono_whole_seconds_between(self.secs, self.nanos, later.secs, later.nanos)
    }
}

/// Nanoseconds since the Unix epoch, cut to 64 bits, from a clock reading
/// (`None` when the clock was before the epoch).
pub open spec fn clock_ns_from(reading: Option<u128>) -> u64 {
    match reading {
        Some(n) => (n % 0x1_0000_0000_0000_0000) as u64,
        None => 0,
    }
}

/// The clock could not give an instant: it was set before the Unix epoch, or
/// it read beyond the last instant chrono can hold.
pub open spec fn clock_out_of_range() -> bool {
    clock_unreadable() || exists|n: u128|
        #[trigger] clock_reading(n) && n / 1_000_000_000 > 8_210_266_876_799
}

/// `s` is the whole seconds of a reading of the system clock.
pub open spec fn clock_secs(s: u64) -> bool {
    exists|n: u128| #[trigger] clock_reading(n) && s == (n / 1_000_000_000) as u64
}

/// The clock reading that the sync metadata records: nanoseconds since the
/// Unix epoch, cut to 64 bits; 0 when the clock is set before the epoch.
pub fn mach_time_ns() -> (r: u64)
    ensures
        r == 0 || exists|n: u128| #[trigger] clock_reading(n) && r == clock_ns_from(Some(n)),
{
    let reading = system_clock_unix_nanos();
    ns_from_reading(reading)
}

/// Nanoseconds since the Unix epoch, cut to 64 bits, from a clock reading.
pub fn ns_from_reading(reading: Option<u128>) -> (r: u64)
    ensures
        r == clock_ns_from(reading),
{
    match reading {
        Some(n) => (n % 0x1_0000_0000_0000_0000) as u64,
        None => 0,
    }
}

/// Whole seconds since the Unix epoch, from a clock reading in nanoseconds.
pub fn secs_from_reading(reading: Option<u128>) -> (r: Option<u64>)
    ensures
        r == (match reading {
            Some(n) => Some((n / 1_000_000_000) as u64),
            None => None::<u64>,
        }),
{
    match reading {
        Some(n) => Some((n / 1_000_000_000) as u64),
        None => None,
    }
}

/// Whole seconds since the Unix epoch now, or `None` when the clock is set before the epoch.
pub fn unix_time_secs() -> (r: Option<u64>)
    ensures
        r matches Some(s) ==> clock_secs(s),
        r is None ==> clock_unreadable(),
{
    let reading = system_clock_unix_nanos();
    secs_from_reading(reading)
}

} // verus!
