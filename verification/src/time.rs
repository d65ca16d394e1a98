//! Points in time, days, and the windows that registrations are counted in. All of it is
//! UTC.
//!
//! A day is counted from the first day of the year 1, which is day 1 and a Monday.

use crate::calendar;
use chrono::{DateTime, Datelike, NaiveDate, Utc};
use vstd::prelude::*;

verus! {

/// The first and the last second, counted from 1970, that a point in time may lie in: the
/// first of the year -262143 and the last of the year 262142.
pub const FIRST_SECOND: i64 = -8334601228800;

pub const LAST_SECOND: i64 = 8210266876799;

/// The first and the last day.
pub const FIRST_DAY: i32 = -95746129;

pub const LAST_DAY: i32 = 95745399;

/// The day that 1970 began on.
pub const EPOCH_DAY: i32 = 719163;

/// The last second of the year 9999.
pub const LAST_FOUR_DIGIT_SECOND: i64 = 253402300799;

/// A point in time as a mathematical value.
pub struct Moment {
    /// Whole seconds since 1970, leap seconds not counted.
    pub seconds: int,
    /// Nanoseconds into the second. A leap second goes on behind the second before it, with
    /// up to two billion of them.
    pub nanos: int,
}

/// Whether a point in time exists.
pub open spec fn exists_at(seconds: int, nanos: int) -> bool {
    &&& FIRST_SECOND <= seconds <= LAST_SECOND
    &&& 0 <= nanos < 2000000000
    &&& nanos >= 1000000000 ==> seconds % 60 == 59
}

/// A point in time.
#[derive(Clone, Copy, Debug)]
pub struct Instant {
    seconds: i64,
    nanos: u32,
}

impl View for Instant {
    type V = Moment;

    closed spec fn view(&self) -> Moment {
        Moment { seconds: self.seconds as int, nanos: self.nanos as int }
    }
}

impl Instant {
    #[verifier::type_invariant]
    spec fn well_formed(self) -> bool {
        exists_at(self.seconds as int, self.nanos as int)
    }

    /// The point in time so many seconds after 1970 began and so many nanoseconds later, if
    /// there is one.
    pub fn new(seconds: i64, nanos: u32) -> (instant: Option<Instant>)
        ensures
            instant is Some <==> exists_at(seconds as int, nanos as int),
            instant is Some ==> instant->0@ == (Moment {
                seconds: seconds as int,
                nanos: nanos as int,
            }),
    {
        if seconds < FIRST_SECOND || seconds > LAST_SECOND || nanos >= 2000000000 {
            return None;
        }
        if nanos >= 1000000000 {
            let offset: i64 = seconds - FIRST_SECOND;
            assert(FIRST_SECOND % 60 == 0);
            if offset % 60 != 59 {
                return None;
            }
        }
        Some(Instant { seconds, nanos })
    }

    /// The point in time that an RFC 3339 text names, if it is such a text.
    pub fn parse(written: &str) -> (instant: Option<Instant>)
        ensures
            opt_moment(instant) == written_moment(written@),
    {
        match parse_rfc3339(written) {
            Some((seconds, nanos)) => Some(Instant { seconds, nanos }),
            None => None,
        }
    }

    /// The point in time that it is now.
    pub fn now() -> (instant: Instant)
        ensures
            0 <= instant@.seconds <= LAST_SECOND,
            0 <= instant@.nanos < 1000000000,
    {
        let (seconds, nanos) = clock();
        Instant { seconds, nanos }
    }

    /// Whether this point in time is later than the other.
    pub fn is_after(&self, other: &Instant) -> (found: bool)
        ensures
            found == later(self@, other@),
    {
        self.seconds > other.seconds || (self.seconds == other.seconds && self.nanos > other.nanos)
    }

    /// The point in time so many seconds later. From a leap second one gets to the same
    /// fraction of the second that goes before it.
    pub fn plus_seconds(&self, more: u32) -> (sum: Instant)
        requires
            0 < more,
            self@.seconds + more <= LAST_SECOND,
        ensures
            sum@ == plus(self@, more as int),
    {
        proof {
            use_type_invariant(self);
        }
        let nanos: u32 = if self.nanos >= 1000000000 {
            self.nanos - 1000000000
        } else {
            self.nanos
        };
        Instant { seconds: self.seconds + more as i64, nanos }
    }

    /// The day that the point in time lies on.
    pub fn day(&self) -> (day: i32)
        ensures
            day == day_of(self@),
            FIRST_DAY <= day <= LAST_DAY,
    {
        proof {
            use_type_invariant(self);
        }
        let since_first: i64 = self.seconds - FIRST_SECOND;
        let days: i64 = since_first / 86400;
        assert(FIRST_SECOND == 86400 * (FIRST_DAY - EPOCH_DAY));
        assert(self.seconds as int / 86400 == days + FIRST_DAY - EPOCH_DAY);
        FIRST_DAY + days as i32
    }

    /// The point in time as RFC 3339 text with the offset `+00:00`.
    pub fn rfc3339(&self) -> (found: String)
        ensures
            found@ == rfc3339_text(self@.seconds, self@.nanos),
    {
        proof {
            use_type_invariant(self);
        }
        to_rfc3339(self.seconds, self.nanos)
    }

    /// The point in time as the text that stands for it in JSON.
    pub fn timestamp(&self) -> (found: String)
        ensures
            found@ == timestamp_text(self@.seconds, self@.nanos),
            0 <= self@.seconds <= LAST_FOUR_DIGIT_SECOND ==> written_moment(found@) == Some(self@),
    {
        proof {
            use_type_invariant(self);
        }
        to_timestamp(self.seconds, self.nanos)
    }
}

/// Whether the first point in time is later.
pub open spec fn later(left: Moment, right: Moment) -> bool {
    left.seconds > right.seconds || (left.seconds == right.seconds && left.nanos > right.nanos)
}

/// The point in time a positive number of seconds later.
pub open spec fn plus(moment: Moment, more: int) -> Moment {
    Moment {
        seconds: moment.seconds + more,
        nanos: if moment.nanos >= 1000000000 {
            moment.nanos - 1000000000
        } else {
            moment.nanos
        },
    }
}

/// The day that a point in time lies on.
pub open spec fn day_of(moment: Moment) -> int {
    moment.seconds / 86400 + EPOCH_DAY
}

/// How many days ago the week of a day began, on a Monday.
pub open spec fn days_since_monday(day: int) -> int {
    (day - 1) % 7
}

/// The text `HH:MM:SS` of a point in time. A leap second is the sixtieth.
pub open spec fn clock_text(seconds: int, nanos: int) -> Seq<char> {
    let within = seconds % 86400;
    let second = within % 60 + (if nanos >= 1000000000 {
        1int
    } else {
        0
    });
    calendar::digits((within / 3600) as nat, 2) + seq![':'] + calendar::digits(
        (within % 3600 / 60) as nat,
        2,
    ) + seq![':'] + calendar::digits(second as nat, 2)
}

/// The text of a fraction of a second: nothing, or a point and as many of three, six or nine
/// digits as it takes.
pub open spec fn fraction_text(nanos: int) -> Seq<char> {
    if nanos == 0 {
        Seq::empty()
    } else if nanos % 1000000 == 0 {
        seq!['.'] + calendar::digits((nanos / 1000000) as nat, 3)
    } else if nanos % 1000 == 0 {
        seq!['.'] + calendar::digits((nanos / 1000) as nat, 6)
    } else {
        seq!['.'] + calendar::digits(nanos as nat, 9)
    }
}

/// The day and the time of a point in time, without an offset.
pub open spec fn local_text(seconds: int, nanos: int) -> Seq<char> {
    day_text_of(seconds / 86400 + EPOCH_DAY) + (seq!['T'] + clock_text(seconds, nanos)
        + fraction_text(nanos % 1000000000))
}

/// The RFC 3339 text of a point in time, with the offset `+00:00`.
pub open spec fn rfc3339_text(seconds: int, nanos: int) -> Seq<char> {
    local_text(seconds, nanos) + seq!['+', '0', '0', ':', '0', '0']
}

/// The text of a point in time in JSON, with the offset `Z`.
pub open spec fn timestamp_text(seconds: int, nanos: int) -> Seq<char> {
    local_text(seconds, nanos) + seq!['Z']
}

/// The text is that of a point in time from 1970 on. Up to the year 9999 it is RFC 3339, and
/// names that point in time.
pub open spec fn is_timestamp(text: Seq<char>) -> bool {
    exists|seconds: int, nanos: int|
        {
            &&& 0 <= seconds <= LAST_SECOND
            &&& 0 <= nanos < 1000000000
            &&& text == #[trigger] timestamp_text(seconds, nanos)
            &&& seconds <= LAST_FOUR_DIGIT_SECOND ==> written_moment(text) == Some(
                (Moment { seconds, nanos }),
            )
        }
}

/// The point in time that an RFC 3339 text names, if it is such a text.
pub uninterp spec fn written_moment(text: Seq<char>) -> Option<Moment>;

/// The UTC day that an RFC 3339 text names a time of, if it is such a text.
pub open spec fn submitted_day(text: Seq<char>) -> Option<int> {
    match written_moment(text) {
        Some(moment) => Some(day_of(moment)),
        None => None,
    }
}

/// An optional point in time as a mathematical value.
pub open spec fn opt_moment(instant: Option<Instant>) -> Option<Moment> {
    match instant {
        Some(held) => Some(held@),
        None => None,
    }
}

/// The first day of the month that a day lies in.
pub open spec fn month_start_of(day: int) -> int {
    day - calendar::date_of(day).day + 1
}

/// The text `YYYY-MM-DD` of a day.
pub open spec fn day_text_of(day: int) -> Seq<char> {
    calendar::date_text(calendar::date_of(day))
}

/// A point in time from 1970 to 9999 is written with its day first: the first ten characters
/// are the text of the day.
pub proof fn law_timestamps_begin_with_their_day(moment: Moment)
    requires
        0 <= moment.seconds <= LAST_FOUR_DIGIT_SECOND,
    ensures
        day_text_of(day_of(moment)).len() == 10,
        timestamp_text(moment.seconds, moment.nanos).take(10) == day_text_of(day_of(moment)),
        rfc3339_text(moment.seconds, moment.nanos).take(10) == day_text_of(day_of(moment)),
{
    let day = day_of(moment);
    let date = calendar::date_of(day);
    let first = calendar::Date { year: 1970, month: 1, day: 1 };
    let last = calendar::Date { year: 9999, month: 12, day: 31 };
    calendar::law_every_day_has_one_date(day);
    reveal_with_fuel(calendar::days_before_month, 13);
    calendar::law_days_go_as_their_dates(date, first);
    calendar::law_days_go_as_their_dates(last, date);
    calendar::law_date_texts_sort_like_days(date, date);
    let text = day_text_of(day);
    let local = local_text(moment.seconds, moment.nanos);
    assert(local.take(10) == text);
    assert(timestamp_text(moment.seconds, moment.nanos).take(10) == local.take(10));
    assert(rfc3339_text(moment.seconds, moment.nanos).take(10) == local.take(10));
}

/// `Utc::now`, by its seconds and nanoseconds. They are the time that the system clock shows
/// since 1970, which is no leap second; which time that is depends on the clock and is not
/// stated. Where the clock is set to a time before 1970, or beyond the last second, the call
/// panics.
#[verifier::external_body]
fn clock() -> (now: (i64, u32))
    ensures
        0 <= now.0 <= LAST_SECOND,
        now.1 < 1000000000,
{
    let now = Utc::now();
    (now.timestamp(), now.timestamp_subsec_nanos())
}

/// `DateTime::<Utc>::to_rfc3339`: day, time, and as many digits of the second as are needed,
/// with the offset `+00:00`. `DateTime::from_timestamp` makes the value of seconds and
/// nanoseconds; the condition is that under which it does.
#[verifier::external_body]
fn to_rfc3339(seconds: i64, nanos: u32) -> (found: String)
    requires
        exists_at(seconds as int, nanos as int),
    ensures
        found@ == rfc3339_text(seconds as int, nanos as int),
{
    DateTime::<Utc>::from_timestamp(seconds, nanos).unwrap().to_rfc3339()
}

/// The text that `DateTime<Utc>` serializes to: day, time, and as many digits of the second as
/// are needed, with the offset `Z`, as `to_rfc3339_opts` writes it.
/// For the years 1970 to 9999 `parse_from_rfc3339` reads the same point in time back.
#[verifier::external_body]
fn to_timestamp(seconds: i64, nanos: u32) -> (found: String)
    requires
        exists_at(seconds as int, nanos as int),
    ensures
        found@ == timestamp_text(seconds as int, nanos as int),
        0 <= seconds <= LAST_FOUR_DIGIT_SECOND ==> written_moment(found@) == Some(
            (Moment { seconds: seconds as int, nanos: nanos as int }),
        ),
{
    DateTime::<Utc>::from_timestamp(seconds, nanos).unwrap().to_rfc3339_opts(
        chrono::SecondsFormat::AutoSi,
        true,
    )
}

/// `DateTime::parse_from_rfc3339`, taken to UTC, by its seconds and nanoseconds. Named by
/// `written_moment`. What it gives is a point in time that exists.
#[verifier::external_body]
fn parse_rfc3339(written: &str) -> (found: Option<(i64, u32)>)
    ensures
        match found {
            Some((seconds, nanos)) => {
                &&& written_moment(written@) == Some(
                    (Moment { seconds: seconds as int, nanos: nanos as int }),
                )
                &&& exists_at(seconds as int, nanos as int)
            },
            None => written_moment(written@) is None,
        },
{
    let written = DateTime::parse_from_rfc3339(written).ok()?.with_timezone(&Utc);
    Some((written.timestamp(), written.timestamp_subsec_nanos()))
}

/// `NaiveDate::with_day(1)` of a day: the first day of its month. The day that the calendar
/// begins on is the first of a month, so that there is one for every day.
#[verifier::external_body]
pub(crate) fn month_start(day: i32) -> (start: i32)
    requires
        FIRST_DAY <= day <= LAST_DAY,
    ensures
        start == month_start_of(day as int),
        FIRST_DAY <= start,
{
    let today = NaiveDate::from_num_days_from_ce_opt(day).unwrap();
    today.with_day(1).unwrap_or(today).num_days_from_ce()
}

/// `NaiveDate`'s text: year, month and day with dashes between, the year in four digits, or
/// with a sign where it is negative or needs more.
#[verifier::external_body]
pub(crate) fn day_text(day: i32) -> (found: String)
    requires
        FIRST_DAY <= day <= LAST_DAY,
    ensures
        found@ == day_text_of(day as int),
{
    NaiveDate::from_num_days_from_ce_opt(day).unwrap().to_string()
}

/// A day lasts from midnight to midnight, and 1970 began on its day.
pub proof fn law_days_last_from_midnight_to_midnight(moment: Moment, day: int)
    ensures
        day_of(moment) == day <==> (day - 719163) * 86400 <= moment.seconds < (day - 719163 + 1)
            * 86400,
{
}

/// Later points in time have more seconds, or as many and more nanoseconds: of two different
/// ones one is later, and none is later than itself.
pub proof fn law_time_goes_one_way(left: Moment, right: Moment)
    requires
        0 <= left.nanos < 2000000000,
        0 <= right.nanos < 2000000000,
    ensures
        later(left, right) <==> left.seconds * 2000000000 + left.nanos > right.seconds * 2000000000
            + right.nanos,
        left == right <==> !later(left, right) && !later(right, left),
{
}

/// So many seconds later is later, by so many seconds. A fraction of a second stays.
pub proof fn law_seconds_are_added(moment: Moment, more: int)
    requires
        0 < more,
        0 <= moment.nanos < 2000000000,
    ensures
        later(plus(moment, more), moment),
        plus(moment, more).seconds == moment.seconds + more,
        plus(moment, more).nanos == moment.nanos % 1000000000,
{
}

/// The time of day can be read in its text: two digits each of the hour, the minute and the
/// second, with colons between. A leap second counts as the one after the last.
pub proof fn law_clocks_can_be_read(seconds: int, nanos: int)
    ensures
        ({
            let text = clock_text(seconds, nanos);
            let leap: int = if nanos >= 1000000000 {
                1
            } else {
                0
            };
            &&& text.len() == 8
            &&& text[2] == ':'
            &&& text[5] == ':'
            &&& calendar::value_of(text.subrange(0, 2)) * 3600 + calendar::value_of(
                text.subrange(3, 5),
            ) * 60 + calendar::value_of(text.subrange(6, 8)) == seconds % 86400 + leap
            &&& 0 <= calendar::value_of(text.subrange(3, 5)) < 60
            &&& 0 <= calendar::value_of(text.subrange(6, 8)) < 60 + leap
        }),
{
    let within = seconds % 86400;
    let leap: int = if nanos >= 1000000000 {
        1
    } else {
        0
    };
    let hour = (within / 3600) as nat;
    let minute = (within % 3600 / 60) as nat;
    let second = (within % 60 + leap) as nat;
    assert(within == hour * 3600 + minute * 60 + within % 60);
    calendar::law_small_numbers_fill_their_width(hour);
    calendar::law_small_numbers_fill_their_width(minute);
    calendar::law_small_numbers_fill_their_width(second);
    calendar::law_digits_stand_for_their_number(hour, 2);
    calendar::law_digits_stand_for_their_number(minute, 2);
    calendar::law_digits_stand_for_their_number(second, 2);
    let text = clock_text(seconds, nanos);
    assert(text.subrange(0, 2) == calendar::digits(hour, 2));
    assert(text.subrange(3, 5) == calendar::digits(minute, 2));
    assert(text.subrange(6, 8) == calendar::digits(second, 2));
}

/// A fraction of a second can be read in its text: after a point, in milliseconds if it is so
/// many, else in microseconds, else in nanoseconds. A whole second has none.
pub proof fn law_fractions_can_be_read(nanos: int)
    requires
        0 <= nanos < 1000000000,
    ensures
        ({
            let text = fraction_text(nanos);
            let read = calendar::value_of(text.skip(1));
            &&& nanos == 0 <==> text.len() == 0
            &&& nanos != 0 ==> text[0] == '.' && (text.len() == 4 || text.len() == 7 || text.len()
                == 10)
            &&& text.len() == 4 ==> read * 1000000 == nanos
            &&& text.len() == 7 ==> read * 1000 == nanos && nanos % 1000000 != 0
            &&& text.len() == 10 ==> read == nanos && nanos % 1000 != 0
        }),
{
    let millis = (nanos / 1000000) as nat;
    let micros = (nanos / 1000) as nat;
    calendar::law_small_numbers_fill_their_width(millis);
    calendar::law_small_numbers_fill_their_width(micros);
    calendar::law_small_numbers_fill_their_width(nanos as nat);
    calendar::law_digits_stand_for_their_number(millis, 3);
    calendar::law_digits_stand_for_their_number(micros, 6);
    calendar::law_digits_stand_for_their_number(nanos as nat, 9);
    let text = fraction_text(nanos);
    if nanos % 1000000 == 0 && nanos != 0 {
        assert(text.skip(1) == calendar::digits(millis, 3));
    } else if nanos % 1000 == 0 && nanos != 0 {
        assert(text.skip(1) == calendar::digits(micros, 6));
    } else if nanos != 0 {
        assert(text.skip(1) == calendar::digits(nanos as nat, 9));
    }
}

/// A point in time is written as its day, the time of day and the fraction, and says that it is
/// in UTC.
pub proof fn law_texts_of_time_have_these_parts(seconds: int, nanos: int)
    requires
        0 <= nanos < 1000000000,
    ensures
        timestamp_text(seconds, nanos) == day_text_of(day_of(Moment { seconds, nanos })) + seq!['T']
            + clock_text(seconds, nanos) + fraction_text(nanos) + seq!['Z'],
        rfc3339_text(seconds, nanos) == day_text_of(day_of(Moment { seconds, nanos })) + seq!['T']
            + clock_text(seconds, nanos) + fraction_text(nanos) + "+00:00"@,
{
    reveal_strlit("+00:00");
    assert("+00:00"@ == seq!['+', '0', '0', ':', '0', '0']);
}

/// The week of a day began on the last Monday, less than seven days ago.
pub proof fn law_weeks_have_seven_days(day: int)
    ensures
        0 <= days_since_monday(day) < 7,
        (day - days_since_monday(day) - 1) % 7 == 0,
        days_since_monday(day + 7) == days_since_monday(day),
        days_since_monday(1) == 0,
{
}

/// A text is submitted on the day of the moment that it names, if it names one.
pub proof fn law_texts_name_their_day(text: Seq<char>, moment: Moment)
    ensures
        written_moment(text) == Some(moment) ==> submitted_day(text) == Some(day_of(moment)),
        written_moment(text) is None ==> submitted_day(text) is None,
{
}

/// A timestamp is the text of a point in time from 1970 on. Of a point in time up to the year 9999
/// it names that very point.
pub proof fn law_timestamps_name_their_moment(text: Seq<char>)
    requires
        is_timestamp(text),
    ensures
        exists|seconds: int, nanos: int|
            0 <= seconds && 0 <= nanos < 1000000000 && text == #[trigger] timestamp_text(
                seconds,
                nanos,
            ) && (seconds <= 253402300799 ==> written_moment(text) == Some(
                (Moment { seconds, nanos }),
            )),
{
}

} // verus!
