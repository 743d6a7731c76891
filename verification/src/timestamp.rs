//! Instants in UTC, as `chrono` counts them: whole seconds since the Unix
//! epoch and the nanoseconds into that second.

use chrono::DateTime;
use chrono::NaiveDateTime;
use chrono::Utc;
use vstd::prelude::*;
use vstd::string::StrSliceExecFns;

verus! {

/// The first second that `chrono` can hold: midnight on 1 January -262143.
pub const MIN_SECONDS: i64 = -8_334_601_228_800;

/// The last second that `chrono` can hold: 23:59:59 on 31 December 262142.
pub const MAX_SECONDS: i64 = 8_210_266_876_799;

/// Nanoseconds in one second.
pub const NANOS_PER_SECOND: u32 = 1_000_000_000;

/// The first second of the year 0: midnight on 1 January 0000.
pub const YEAR_0_START: i64 = -62_167_219_200;

/// The last second of the year 9999: 23:59:59 on 31 December 9999.
pub const YEAR_9999_END: i64 = 253_402_300_799;

/// Whether `secs` and `nanos` name an instant that a `Timestamp` holds.
pub open spec fn representable(secs: int, nanos: int) -> bool {
    &&& MIN_SECONDS <= secs <= MAX_SECONDS
    &&& 0 <= nanos < NANOS_PER_SECOND
}

/// An instant in UTC.
#[derive(Clone, Copy, Debug, PartialEq, Eq, Structural)]
pub struct Timestamp {
    secs: i64,
    nanos: u32,
}

impl Timestamp {
    #[verifier::type_invariant]
    spec fn in_range(self) -> bool {
        representable(self.secs as int, self.nanos as int)
    }

    /// Seconds since the Unix epoch, negative before it.
    pub closed spec fn spec_secs(self) -> i64 {
        self.secs
    }

    /// Nanoseconds since the last whole second.
    pub closed spec fn spec_nanos(self) -> u32 {
        self.nanos
    }

    /// Whether `self` falls on the first nanosecond of a minute.
    pub open spec fn is_whole_minute(self) -> bool {
        self.secs() % 60 == 0 && self.nanos() == 0
    }

    /// Whether `self` lies in a year that is written with four digits and
    /// no sign, from 0000 to 9999.
    pub open spec fn has_four_digit_year(self) -> bool {
        YEAR_0_START <= self.secs() <= YEAR_9999_END
    }

    /// Whether `self` lies strictly before `other`.
    pub open spec fn precedes(self, other: Timestamp) -> bool {
        self.secs() < other.secs() || (self.secs() == other.secs() && self.nanos() < other.nanos())
    }

    /// The instant `nanos` nanoseconds after the whole second `secs`, where
    /// there is one.
    pub fn new(secs: i64, nanos: u32) -> (made: Option<Timestamp>)
        ensures
            representable(secs as int, nanos as int) <==> made is Some,
            made matches Some(t) ==> t.secs() == secs && t.nanos() == nanos,
    {
        if MIN_SECONDS <= secs && secs <= MAX_SECONDS && nanos < NANOS_PER_SECOND {
            Some(Timestamp { secs, nanos })
        } else {
            None
        }
    }

    /// The Unix epoch, midnight on 1 January 1970.
    pub fn epoch() -> (t: Timestamp)
        ensures
            t.secs() == 0,
            t.nanos() == 0,
    {
        Timestamp { secs: 0, nanos: 0 }
    }

    /// Seconds since the Unix epoch, negative before it.
    #[verifier::when_used_as_spec(spec_secs)]
    pub fn secs(self) -> (s: i64)
        ensures
            s == self.secs(),
            MIN_SECONDS <= s <= MAX_SECONDS,
    {
        proof {
            use_type_invariant(&self);
        }
        self.secs
    }

    /// Nanoseconds since the last whole second.
    #[verifier::when_used_as_spec(spec_nanos)]
    pub fn nanos(self) -> (n: u32)
        ensures
            n == self.nanos(),
            n < NANOS_PER_SECOND,
    {
        proof {
            use_type_invariant(&self);
        }
        self.nanos
    }

    /// Tells whether `self` lies strictly before `other`.
    pub fn is_before(&self, other: &Timestamp) -> (before: bool)
        ensures
            before == self.precedes(*other),
    {
        self.secs < other.secs || (self.secs == other.secs && self.nanos < other.nanos)
    }
}

/// Two instants with the same seconds and nanoseconds are one instant.
pub proof fn timestamps_agree(a: Timestamp, b: Timestamp)
    requires
        a.secs() == b.secs(),
        a.nanos() == b.nanos(),
    ensures
        a == b,
{
}

/// What `chrono` writes for `stamp` under the `strftime` pattern `format`.
pub uninterp spec fn formatted_stamp(stamp: Timestamp, format: Seq<char>) -> Seq<char>;

/// What `chrono` writes for `stamp` where no pattern is given.
pub uninterp spec fn displayed_stamp(stamp: Timestamp) -> Seq<char>;

/// The instant that `chrono` reads from `text` under the `strftime` pattern
/// `format`, where it reads one.
pub uninterp spec fn parsed_stamp(text: Seq<char>, format: Seq<char>) -> Option<Timestamp>;

/// The number of characters of an instant written to the minute.
pub const MINUTE_TEXT_LENGTH: usize = 17;

/// The `strftime` pattern of a UTC instant to the minute.
pub fn minute_format() -> (format: &'static str)
    ensures
        format@ == minute_format_text(),
{
    "%Y-%m-%dT%H:%MZ"
}

/// The text of the pattern that `minute_format` returns.
pub open spec fn minute_format_text() -> Seq<char> {
    "%Y-%m-%dT%H:%MZ"@
}

/// Whether `c` may stand at place `i` of an instant written to the minute:
/// `YYYY-MM-DDTHH:MMZ`, each letter but `T` and `Z` standing for one digit.
pub open spec fn fits_place(i: int, c: char) -> bool {
    if i == 4 || i == 7 {
        c == '-'
    } else if i == 10 {
        c == 'T'
    } else if i == 13 {
        c == ':'
    } else if i == 16 {
        c == 'Z'
    } else {
        '0' <= c <= '9'
    }
}

/// Whether `text` has the form `YYYY-MM-DDTHH:MMZ`: four digits of the
/// year, two each of the month, the day, the hour and the minute, with the
/// marks between them and `Z` at the end, and nothing else.
pub open spec fn has_minute_form(text: Seq<char>) -> bool {
    &&& text.len() == MINUTE_TEXT_LENGTH
    &&& forall|i: int| 0 <= i < text.len() ==> fits_place(i, #[trigger] text[i])
}

/// The instant that `text` names to the minute: `text` has the form
/// `YYYY-MM-DDTHH:MMZ`, and `chrono` reads an instant from it.
pub open spec fn minute_stamp(text: Seq<char>) -> Option<Timestamp> {
    if has_minute_form(text) {
        parsed_stamp(text, minute_format_text())
    } else {
        None
    }
}

/// Tells whether `text` has the form `YYYY-MM-DDTHH:MMZ`.
pub fn is_minute_text(text: &str) -> (fits: bool)
    ensures
        fits == has_minute_form(text@),
{
    if text.unicode_len() != MINUTE_TEXT_LENGTH {
        return false;
    }
    let mut i: usize = 0;
    while i < MINUTE_TEXT_LENGTH
        invariant
            i <= MINUTE_TEXT_LENGTH,
            text@.len() == MINUTE_TEXT_LENGTH,
            forall|j: int| 0 <= j < i ==> fits_place(j, #[trigger] text@[j]),
        decreases MINUTE_TEXT_LENGTH - i,
    {
        let c = text.get_char(i);
        let fits = if i == 4 || i == 7 {
            c == '-'
        } else if i == 10 {
            c == 'T'
        } else if i == 13 {
            c == ':'
        } else if i == 16 {
            c == 'Z'
        } else {
            '0' <= c && c <= '9'
        };
        if !fits {
            assert(!fits_place(i as int, text@[i as int]));
            return false;
        }
        i += 1;
    }
    true
}

/// Reads an instant written to the minute as `YYYY-MM-DDTHH:MMZ`. A text of
/// any other form names no instant, nor does one of that form that names no
/// day of the calendar or no minute of the day. The instant read is the
/// start of a minute.
pub fn read_minute_stamp(text: &str) -> (read: Option<Timestamp>)
    ensures
        read == minute_stamp(text@),
        read matches Some(stamp) ==> stamp.is_whole_minute(),
{
    if is_minute_text(text) {
        parse_stamp(text, minute_format())
    } else {
        None
    }
}

/// `chrono::Utc::now`: the wall clock's reading. Nothing is claimed of it
/// but that it lies in the range of `chrono`, with less than a second's
/// worth of nanoseconds, as every reading that `chrono` hands out does.
/// `chrono` panics where the system clock stands before 1970.
#[verifier::external_body]
pub(crate) fn clock_now() -> (now: Timestamp)
    ensures
        representable(now.secs() as int, now.nanos() as int),
{
    let utc = Utc::now();
    Timestamp { secs: utc.timestamp(), nanos: utc.timestamp_subsec_nanos() }
}

/// `chrono::DateTime::<Utc>::format` followed by `to_string`: the text is
/// the one `chrono` writes for this instant and pattern. Only the minute
/// pattern is admitted, since `chrono` panics on a pattern it cannot read.
/// Under that pattern `chrono` pads the year to four digits and the month,
/// day, hour and minute to two, and signs a year only outside 0000 to 9999:
/// within those years the text has the form `YYYY-MM-DDTHH:MMZ`. Every
/// instant that a `Timestamp` holds is one that `chrono` holds, so the
/// conversion on the way in finds it.
#[verifier::external_body]
pub(crate) fn format_stamp(stamp: Timestamp, format: &str) -> (text: String)
    requires
        format@ == minute_format_text(),
    ensures
        text@ == formatted_stamp(stamp, format@),
        stamp.has_four_digit_year() ==> has_minute_form(text@),
{
    match DateTime::<Utc>::from_timestamp(stamp.secs, stamp.nanos) {
        Some(utc) => utc.format(format).to_string(),
        None => String::new(),
    }
}

/// `chrono::DateTime::<Utc>::to_string`: the text is the one `chrono` writes
/// for this instant. Every instant that a `Timestamp` holds is one that
/// `chrono` holds, so the conversion on the way in finds it.
#[verifier::external_body]
pub(crate) fn display_stamp(stamp: Timestamp) -> (text: String)
    ensures
        text@ == displayed_stamp(stamp),
{
    match DateTime::<Utc>::from_timestamp(stamp.secs, stamp.nanos) {
        Some(utc) => utc.to_string(),
        None => String::new(),
    }
}

/// `chrono::NaiveDateTime::parse_from_str`, read as UTC: the instant is the
/// one `chrono` reads from this text under this pattern, and there is none
/// where `chrono` reports an error. An instant that is read lies in the
/// range of `chrono`. Only the minute pattern is admitted: it names no
/// seconds, and `chrono` takes seconds and nanoseconds that are not named
/// to be zero.
#[verifier::external_body]
fn parse_stamp(text: &str, format: &str) -> (read: Option<Timestamp>)
    requires
        format@ == minute_format_text(),
    ensures
        read == parsed_stamp(text@, format@),
        read matches Some(stamp) ==> MIN_SECONDS <= stamp.secs() <= MAX_SECONDS
            && stamp.is_whole_minute(),
{
    match NaiveDateTime::parse_from_str(text, format) {
        Ok(naive) => Some(
            Timestamp {
                secs: naive.and_utc().timestamp(),
                nanos: naive.and_utc().timestamp_subsec_nanos(),
            },
        ),
        Err(_) => None,
    }
}

} // verus!
