//! Points in time as messages carry them.

use vstd::prelude::*;

use crate::text;

verus! {

/// The first second of a calendar date that a timestamp can name: January 1 of the year -262143.
pub const FIRST_SECOND: i64 = -8_334_601_228_800;

/// The last second of a calendar date that a timestamp can name: December 31 of the year 262142.
pub const LAST_SECOND: i64 = 8_210_266_876_799;

/// Whether a calendar date and a time of day exist for a number of seconds since January 1, 1970
/// and a number of nanoseconds. A count of a billion nanoseconds or more is a leap second, and only
/// the last second of a minute has one behind it.
pub open spec fn nameable(secs: int, nanos: int) -> bool {
    &&& FIRST_SECOND <= secs <= LAST_SECOND
    &&& 0 <= nanos < 2_000_000_000
    &&& nanos >= 1_000_000_000 ==> secs % 60 == 59
}

/// UTC, `Z`-suffixed, millisecond precision. Offsets are not accepted by the schema: evidence
/// timelines get compared across collectors in different timezones and offset arithmetic is where
/// that goes wrong.
#[derive(Debug, Clone, Copy, PartialEq, Eq)]
pub struct Timestamp {
    secs: i64,
    nanos: u32,
}

/// A point in time: seconds since January 1, 1970, and nanoseconds behind them.
#[verifier::ext_equal]
pub struct TimestampView {
    pub secs: int,
    pub nanos: int,
}

impl View for Timestamp {
    type V = TimestampView;

    closed spec fn view(&self) -> TimestampView {
        TimestampView { secs: self.secs as int, nanos: self.nanos as int }
    }
}

impl TimestampView {
    /// The text on the wire.
    pub open spec fn text(self) -> Seq<char> {
        rfc3339_millis(self.secs, self.nanos / 1_000_000)
    }
}

/// What the text of a time ends in: a point, the milliseconds within the second, and `Z`.
pub open spec fn fraction_text(nanos: int) -> Seq<char> {
    seq!['.'] + text::padded(text::decimal((nanos / 1_000_000 % 1000) as nat), 3) + seq!['Z']
}

/// The RFC 3339 text, in UTC with a `Z` and three digits of a second's fraction, of a number of
/// seconds since January 1, 1970 and a number of milliseconds.
pub uninterp spec fn rfc3339_millis(secs: int, millis: int) -> Seq<char>;

/// `chrono::Utc::now`, taken apart into its seconds since January 1, 1970 and its nanoseconds.
/// Which time that is depends on the machine's clock, and is left unsaid. It is one for which a date
/// and time exist, it is not before 1970, and it is never inside a leap second: `chrono` takes the
/// whole seconds and the fraction below a second that have gone by since then. On a clock that stands
/// before 1970, or past every date that `chrono` knows, the call does not return.
#[verifier::external_body]
fn utc_now() -> (r: (i64, u32))
    ensures
        nameable(r.0 as int, r.1 as int),
        r.0 >= 0,
        r.1 < 1_000_000_000,
{
    let now = chrono::Utc::now();
    (now.timestamp(), now.timestamp_subsec_nanos())
}

/// `chrono::DateTime::to_rfc3339_opts` with milliseconds and a `Z`, on the date and time that the
/// numbers name. The text depends on the seconds and on whole milliseconds alone, and ends in a
/// point, the three digits of the milliseconds within the second, and `Z`. How the calendar date and
/// the time of day in front come out of the seconds is left to `chrono`.
#[verifier::external_body]
fn to_rfc3339_millis(secs: i64, nanos: u32) -> (r: String)
    requires
        nameable(secs as int, nanos as int),
    ensures
        r@ == rfc3339_millis(secs as int, nanos as int / 1_000_000),
        fraction_text(nanos as int).is_suffix_of(r@),
{
    let at = chrono::DateTime::from_timestamp(secs, nanos).expect("a date and time exist");
    at.to_rfc3339_opts(chrono::SecondsFormat::Millis, true)
}

impl Timestamp {
    #[verifier::type_invariant]
    spec fn named(self) -> bool {
        nameable(self.secs as int, self.nanos as int)
    }

    /// The current time of the machine's clock: never before 1970, and never inside a leap second.
    pub fn now() -> (r: Timestamp)
        ensures
            nameable(r@.secs, r@.nanos),
            r@.secs >= 0,
            r@.nanos < 1_000_000_000,
    {
        let (secs, nanos) = utc_now();
        Timestamp { secs, nanos }
    }

    /// The timestamp of a number of seconds since January 1, 1970 and a number of nanoseconds, where
    /// a date and time exist for them.
    pub fn from_unix(secs: i64, nanos: u32) -> (r: Option<Timestamp>)
        ensures
            r is Some <==> nameable(secs as int, nanos as int),
            r matches Some(t) ==> t@ == (TimestampView { secs: secs as int, nanos: nanos as int }),
    {
        if secs < FIRST_SECOND || secs > LAST_SECOND || nanos >= 2_000_000_000 {
            return None;
        }
        let since_first: u64 = (secs - FIRST_SECOND) as u64;
        if nanos >= 1_000_000_000 && since_first % 60 != 59 {
            return None;
        }
        Some(Timestamp { secs, nanos })
    }

    /// The text on the wire.
    pub fn to_text(&self) -> (r: String)
        ensures
            r@ == self@.text(),
            fraction_text(self@.nanos).is_suffix_of(r@),
    {
        proof {
            use_type_invariant(self);
        }
        to_rfc3339_millis(self.secs, self.nanos)
    }
}

/// The optional text of an optional timestamp.
pub open spec fn opt_time_text(o: Option<TimestampView>) -> Option<Seq<char>> {
    match o {
        Some(t) => Some(t.text()),
        None => None,
    }
}

/// The view of an optional timestamp.
pub open spec fn opt_time(o: Option<Timestamp>) -> Option<TimestampView> {
    match o {
        Some(t) => Some(t@),
        None => None,
    }
}

/// The wire carries whole milliseconds: timestamps that agree on them have one text.
pub proof fn law_millisecond_precision(a: TimestampView, b: TimestampView)
    requires
        a.secs == b.secs,
        a.nanos / 1_000_000 == b.nanos / 1_000_000,
    ensures
        a.text() == b.text(),
{
}

/// Which points in time have a date: those from the first day of the year -262143 to the last of the
/// year 262142, and behind the last second of a minute a leap second.
pub proof fn law_what_has_a_date(secs: int, nanos: int)
    ensures
        nameable(secs, nanos) ==> -8_334_601_228_800 <= secs <= 8_210_266_876_799 && 0 <= nanos
            < 2_000_000_000,
        -8_334_601_228_800 <= secs <= 8_210_266_876_799 && 0 <= nanos < 1_000_000_000 ==> nameable(
            secs,
            nanos,
        ),
        -8_334_601_228_800 <= secs <= 8_210_266_876_799 && 1_000_000_000 <= nanos < 2_000_000_000
            ==> (nameable(secs, nanos) <==> secs % 60 == 59),
{
}

/// What the text of a time ends in is five characters, and the three digits among them stand for the
/// milliseconds within the second.
pub proof fn law_fraction_is_milliseconds(nanos: int)
    requires
        0 <= nanos < 2_000_000_000,
    ensures
        fraction_text(nanos).len() == 5,
        fraction_text(nanos)[0] == '.',
        fraction_text(nanos)[4] == 'Z',
        text::value_of(fraction_text(nanos).subrange(1, 4), 10) == nanos / 1_000_000 % 1000,
{
    let n = (nanos / 1_000_000 % 1000) as nat;
    reveal_with_fuel(text::decimal, 4);
    text::law_decimal_value(n);
    text::law_padding(text::decimal(n), 3);
    text::law_leading_zeros_are_worth_nothing(text::decimal(n), 3, 10);
    assert(fraction_text(nanos).subrange(1, 4) =~= text::padded(text::decimal(n), 3));
}

/// A time that is not given has no text, and one that is given has its own.
pub proof fn law_time_given(o: Option<TimestampView>)
    ensures
        opt_time_text(o) is Some <==> o is Some,
        o matches Some(t) ==> opt_time_text(o) == Some(t.text()),
{
}

/// The text of a time is the text of its own second and its own milliseconds.
pub proof fn law_text_is_of_the_same_time(t: TimestampView)
    ensures
        t.text() == rfc3339_millis(t.secs, t.nanos / 1_000_000),
{
}

} // verus!
