//! Instants in UTC and spans of time.
use vstd::prelude::*;

verus! {

/// An instant in UTC: whole seconds since the Unix epoch and the nanoseconds
/// within that second. The nanoseconds reach past a billion only within a
/// leap second, which is the 59th second of its minute.
#[derive(Debug, Clone, Copy, PartialEq, Eq, Structural)]
pub struct UtcDateTime {
    pub secs: i64,
    pub nanos: u32,
}

/// Whether `a` is earlier than `b`.
pub open spec fn dt_before(a: UtcDateTime, b: UtcDateTime) -> bool {
    a.secs < b.secs || (a.secs == b.secs && a.nanos < b.nanos)
}

impl UtcDateTime {
    /// Whether this instant is earlier than `other`.
    pub fn is_before(&self, other: &UtcDateTime) -> (r: bool)
        ensures
            r == dt_before(*self, *other),
    {
        self.secs < other.secs || (self.secs == other.secs && self.nanos < other.nanos)
    }

    /// The seconds since the Unix epoch.
    pub fn timestamp(&self) -> (r: i64)
        ensures
            r == self.secs,
    {
        self.secs
    }

    /// The nanoseconds within the second.
    pub fn timestamp_subsec_nanos(&self) -> (r: u32)
        ensures
            r == self.nanos,
    {
        self.nanos
    }
}

/// Whether `chrono::DateTime::<Utc>::from_timestamp` accepts these seconds
/// and nanoseconds: whether they name an instant within chrono's calendar,
/// which runs from January 1 of the year -262143 (-8,334,601,228,800 s) to
/// the end of December 31, 262142 (8,210,266,876,799 s), with nanoseconds
/// below a billion, or below two billion in the 59th second of a minute
/// (a leap second).
pub open spec fn chrono_accepts(secs: i64, nanos: u32) -> bool {
    &&& -8_334_601_228_800 <= secs <= 8_210_266_876_799
    &&& nanos < 2_000_000_000
    &&& (nanos < 1_000_000_000 || secs % 60 == 59)
}

/// Calls `chrono::DateTime::<Utc>::from_timestamp`. It refuses nanoseconds of
/// two billion or more, and a billion or more outside the 59th second of a
/// minute; it accepts every instant within about 262,000 years of the epoch,
/// and the instant it gives has the seconds and nanoseconds it was given.
#[verifier::external_body]
pub(crate) fn datetime_from_timestamp(secs: i64, nanos: u32) -> (r: Option<UtcDateTime>)
    ensures
        r is Some <==> chrono_accepts(secs, nanos),
        r matches Some(d) ==> d.secs == secs && d.nanos == nanos,
        nanos >= 2_000_000_000 ==> r is None,
        nanos >= 1_000_000_000 && secs % 60 != 59 ==> r is None,
        -8_000_000_000_000 <= secs <= 8_000_000_000_000 && nanos < 1_000_000_000 ==> r is Some,
{
    match chrono::DateTime::from_timestamp(secs, nanos) {
        Some(d) => Some(UtcDateTime { secs: d.timestamp(), nanos: d.timestamp_subsec_nanos() }),
        None => None,
    }
}

/// Calls `SystemTime::now` and measures it from the Unix epoch
/// (`duration_since(UNIX_EPOCH)`): `Ok` with the whole seconds and the
/// nanoseconds beyond them for a clock at or after the epoch; `Err` with how
/// far before the epoch a clock set earlier reads. The nanoseconds of a
/// `Duration` are below one billion.
#[verifier::external_body]
fn system_clock() -> (r: Result<(u64, u32), (u64, u32)>)
    ensures
        match r {
            Ok((_, n)) => n < 1_000_000_000,
            Err((_, n)) => n < 1_000_000_000,
        },
{
    match std::time::SystemTime::now().duration_since(std::time::UNIX_EPOCH) {
        Ok(d) => Ok((d.as_secs(), d.subsec_nanos())),
        Err(e) => Err((e.duration().as_secs(), e.duration().subsec_nanos())),
    }
}

/// The current instant by the system clock, within the range of instants
/// that this library computes with (about 250,000 years either side of the
/// epoch; a clock beyond it reads as the range's end). A clock set before
/// the epoch reads as the instant that far before it.
pub fn utc_now() -> (r: UtcDateTime)
    ensures
        -8_000_000_000_000 <= r.secs <= 8_000_000_000_000,
        r.nanos < 1_000_000_000,
{
    match system_clock() {
        Ok((s, n)) => if s <= 8_000_000_000_000 {
            UtcDateTime { secs: s as i64, nanos: n }
        } else {
            UtcDateTime { secs: 8_000_000_000_000, nanos: 0 }
        },
        Err((s, n)) => if s < 8_000_000_000_000 {
            if n == 0 {
                UtcDateTime { secs: -(s as i64), nanos: 0 }
            } else {
                UtcDateTime { secs: -(s as i64) - 1, nanos: 1_000_000_000 - n }
            }
        } else {
            UtcDateTime { secs: -8_000_000_000_000, nanos: 0 }
        },
    }
}

/// A span of time: whole seconds and the nanoseconds beyond them, fewer than
/// a billion.
#[derive(Debug, Clone, Copy, PartialEq, Eq, Structural)]
pub struct Duration {
    pub secs: u64,
    pub nanos: u32,
}

impl Duration {
    /// A span of `secs` seconds and `nanos` nanoseconds, with whole seconds
    /// of the nanoseconds carried into the seconds (`Duration::new`).
    pub fn new(secs: u64, nanos: u32) -> (r: Self)
        requires
            secs + nanos / 1_000_000_000 <= u64::MAX,
        ensures
            r.secs == secs + nanos / 1_000_000_000,
            r.nanos == nanos % 1_000_000_000,
    {
        Duration { secs: secs + (nanos / 1_000_000_000) as u64, nanos: nanos % 1_000_000_000 }
    }

    /// A span of whole seconds.
    pub fn from_secs(secs: u64) -> (r: Self)
        ensures
            r.secs == secs,
            r.nanos == 0,
    {
        Duration { secs, nanos: 0 }
    }

    /// The whole seconds of this span.
    pub fn as_secs(&self) -> (r: u64)
        ensures
            r == self.secs,
    {
        self.secs
    }

    /// The nanoseconds beyond the whole seconds.
    pub fn subsec_nanos(&self) -> (r: u32)
        ensures
            r == self.nanos,
    {
        self.nanos
    }
}

/// What chrono writes for an instant with the format `%Y-%m-%d %H:%M:%S`:
/// the date and time of day in UTC, to the second.
pub uninterp spec fn chrono_ymd_hms(secs: i64, nanos: u32) -> Seq<char>;

/// The date and time of an instant as `YYYY-MM-DD HH:MM:SS`, for an
/// instant that chrono holds; empty otherwise.
pub open spec fn ymd_hms(d: UtcDateTime) -> Seq<char> {
    if chrono_accepts(d.secs, d.nanos) {
        chrono_ymd_hms(d.secs, d.nanos)
    } else {
        Seq::empty()
    }
}

/// Formats an instant with chrono's `format("%Y-%m-%d %H:%M:%S")`; an
/// instant that chrono does not hold gives empty text.
#[verifier::external_body]
pub(crate) fn format_ymd_hms(d: &UtcDateTime) -> (r: String)
    ensures
        chrono_accepts(d.secs, d.nanos) ==> r@ == chrono_ymd_hms(d.secs, d.nanos),
        !chrono_accepts(d.secs, d.nanos) ==> r@ == Seq::<char>::empty(),
{
    match chrono::DateTime::from_timestamp(d.secs, d.nanos) {
        Some(t) => t.format("%Y-%m-%d %H:%M:%S").to_string(),
        None => String::new(),
    }
}

/// What chrono writes for an instant with the format
/// `%Y-%m-%dT%H:%M:%S%.3fZ`: the date and time of day in UTC, to the
/// millisecond, with a `Z`.
pub uninterp spec fn chrono_millis_text(secs: i64, nanos: u32) -> Seq<char>;

/// The instant as `YYYY-MM-DDTHH:MM:SS.mmmZ`, for an instant that chrono
/// holds; empty otherwise.
pub open spec fn millis_text(d: UtcDateTime) -> Seq<char> {
    if chrono_accepts(d.secs, d.nanos) {
        chrono_millis_text(d.secs, d.nanos)
    } else {
        Seq::empty()
    }
}

/// Formats an instant with chrono's `format("%Y-%m-%dT%H:%M:%S%.3fZ")`; an
/// instant that chrono does not hold gives empty text.
#[verifier::external_body]
pub(crate) fn format_millis(d: &UtcDateTime) -> (r: String)
    ensures
        chrono_accepts(d.secs, d.nanos) ==> r@ == chrono_millis_text(d.secs, d.nanos),
        !chrono_accepts(d.secs, d.nanos) ==> r@ == Seq::<char>::empty(),
{
    match chrono::DateTime::from_timestamp(d.secs, d.nanos) {
        Some(t) => t.format("%Y-%m-%dT%H:%M:%S%.3fZ").to_string(),
        None => String::new(),
    }
}

/// What chrono's `DateTime::<Utc>::to_rfc3339` writes for an instant: the
/// date, `T`, the time of day with as many fractional digits as the
/// nanoseconds need, and `+00:00`.
pub uninterp spec fn chrono_rfc3339_text(secs: i64, nanos: u32) -> Seq<char>;

/// The RFC 3339 text of an instant that chrono holds; empty otherwise.
pub open spec fn rfc3339_text(d: UtcDateTime) -> Seq<char> {
    if chrono_accepts(d.secs, d.nanos) {
        chrono_rfc3339_text(d.secs, d.nanos)
    } else {
        Seq::empty()
    }
}

/// Whether an instant lies in the years 0 to 9999 and is no leap second:
/// chrono writes such an instant with a four-digit year, and its RFC 3339
/// parser reads that text back to the same instant.
pub open spec fn rfc3339_round_trips(d: UtcDateTime) -> bool {
    -62_167_219_200 <= d.secs <= 253_402_300_799 && d.nanos < 1_000_000_000
}

/// Whether `s` is the RFC 3339 text that chrono writes for `d`; text that
/// reads back to `d` when the instant round-trips.
pub open spec fn is_rfc3339_of(s: Seq<char>, d: UtcDateTime) -> bool {
    &&& s == rfc3339_text(d)
    &&& rfc3339_round_trips(d) ==> rfc3339_instant(s) == Some(d)
}

/// Calls chrono's `to_rfc3339` on the instant; an instant that chrono does
/// not hold gives empty text. In the years 0 to 9999, outside leap seconds,
/// chrono's `parse_from_rfc3339` reads the text back to the same instant.
#[verifier::external_body]
pub(crate) fn format_rfc3339(d: &UtcDateTime) -> (r: String)
    ensures
        chrono_accepts(d.secs, d.nanos) ==> r@ == chrono_rfc3339_text(d.secs, d.nanos),
        !chrono_accepts(d.secs, d.nanos) ==> r@ == Seq::<char>::empty(),
        rfc3339_round_trips(*d) ==> chrono_rfc3339_parsed(r@) == Some((d.secs, d.nanos)),
{
    match chrono::DateTime::from_timestamp(d.secs, d.nanos) {
        Some(t) => t.to_rfc3339(),
        None => String::new(),
    }
}

/// The instant, as seconds and nanoseconds since the epoch, that
/// `chrono::DateTime::parse_from_rfc3339` reads from a text, if it reads one.
pub uninterp spec fn chrono_rfc3339_parsed(s: Seq<char>) -> Option<(i64, u32)>;

/// The instant read from RFC 3339 text, converted to UTC.
pub open spec fn rfc3339_instant(s: Seq<char>) -> Option<UtcDateTime> {
    match chrono_rfc3339_parsed(s) {
        Some(p) => Some(UtcDateTime { secs: p.0, nanos: p.1 }),
        None => None,
    }
}

/// The message of the error that `chrono::DateTime::parse_from_rfc3339`
/// reports for a text it cannot read (the error's `Display` form).
pub uninterp spec fn chrono_rfc3339_error(s: Seq<char>) -> Seq<char>;

/// Calls `chrono::DateTime::parse_from_rfc3339` and converts the instant to
/// UTC; on failure, gives the message of chrono's error.
#[verifier::external_body]
pub(crate) fn parse_rfc3339_text(s: &str) -> (r: Result<UtcDateTime, String>)
    ensures
        match r {
            Ok(d) => chrono_rfc3339_parsed(s@) == Some((d.secs, d.nanos)),
            Err(m) => chrono_rfc3339_parsed(s@) is None && m@ == chrono_rfc3339_error(s@),
        },
{
    match chrono::DateTime::parse_from_rfc3339(s) {
        Ok(t) => Ok(UtcDateTime { secs: t.timestamp(), nanos: t.timestamp_subsec_nanos() }),
        Err(e) => Err(e.to_string()),
    }
}

/// The instant that RFC 3339 text names, in UTC, if chrono reads one.
pub fn parse_rfc3339(s: &str) -> (r: Option<UtcDateTime>)
    ensures
        r == rfc3339_instant(s@),
{
    match parse_rfc3339_text(s) {
        Ok(d) => Some(d),
        Err(_) => None,
    }
}

} // verus!
