//! The calendar: days and their dates.
//!
//! Days are counted from the first day of the year 1, which is day 1. Dates are those of the
//! Gregorian calendar, taken back to the years before it and with a year 0.

use crate::text;
use vstd::prelude::*;

verus! {

/// A year, a month from 1 on and a day of the month from 1 on.
pub struct Date {
    pub year: int,
    pub month: int,
    pub day: int,
}

/// Whether a year has a twenty-ninth of February.
pub open spec fn is_leap(year: int) -> bool {
    year % 4 == 0 && (year % 100 != 0 || year % 400 == 0)
}

/// How many days a month has.
pub open spec fn month_length(year: int, month: int) -> int {
    if month == 2 {
        if is_leap(year) {
            29
        } else {
            28
        }
    } else if month == 4 || month == 6 || month == 9 || month == 11 {
        30
    } else {
        31
    }
}

/// How many days of the year lie before the month.
pub open spec fn days_before_month(year: int, month: int) -> int
    decreases month,
{
    if month <= 1 {
        0
    } else {
        days_before_month(year, month - 1) + month_length(year, month - 1)
    }
}

/// The last day before the year: 365 days for each year since the year 1, and the leap days.
pub open spec fn days_before_year(year: int) -> int {
    365 * (year - 1) + (year - 1) / 4 - (year - 1) / 100 + (year - 1) / 400
}

/// Whether there is such a date.
pub open spec fn is_date(date: Date) -> bool {
    1 <= date.month <= 12 && 1 <= date.day <= month_length(date.year, date.month)
}

/// The day of a date.
pub open spec fn day_number(date: Date) -> int {
    days_before_year(date.year) + days_before_month(date.year, date.month) + date.day
}

/// The date of a day.
pub open spec fn date_of(day: int) -> Date {
    choose|date: Date| is_date(date) && #[trigger] day_number(date) == day
}

/// Whether the first date is the earlier one, by year, month and day.
pub open spec fn date_before(left: Date, right: Date) -> bool {
    left.year < right.year || (left.year == right.year && (left.month < right.month || (left.month
        == right.month && left.day < right.day)))
}

/// A decimal digit.
pub open spec fn digit(value: int) -> char {
    (48 + value) as char
}

/// A number in decimal digits, with zeros in front up to the given width.
pub open spec fn digits(number: nat, width: nat) -> Seq<char>
    decreases number, width,
{
    if number == 0 && width == 0 {
        Seq::empty()
    } else {
        digits(
            number / 10,
            if width == 0 {
                0
            } else {
                (width - 1) as nat
            },
        ).push(digit(number as int % 10))
    }
}

/// The text of a year: four digits, or a sign and at least four.
pub open spec fn year_text(year: int) -> Seq<char> {
    if year < 0 {
        seq!['-'] + digits((-year) as nat, 4)
    } else if year <= 9999 {
        digits(year as nat, 4)
    } else {
        seq!['+'] + digits(year as nat, 4)
    }
}

/// The text `YYYY-MM-DD` of a date.
pub open spec fn date_text(date: Date) -> Seq<char> {
    year_text(date.year) + (seq!['-'] + (digits(date.month as nat, 2) + (seq!['-'] + digits(
        date.day as nat,
        2,
    ))))
}

/// A year has 365 days, or 366 if it is a leap year.
proof fn year_has_its_days(year: int)
    ensures
        days_before_year(year + 1) == days_before_year(year) + (if is_leap(year) {
            366int
        } else {
            365
        }),
{
}

/// The days before each month, as the months go.
proof fn months_have_their_days(year: int)
    ensures
        ({
            let leap: int = if is_leap(year) {
                1
            } else {
                0
            };
            &&& days_before_month(year, 1) == 0
            &&& days_before_month(year, 2) == 31
            &&& days_before_month(year, 3) == 59 + leap
            &&& days_before_month(year, 4) == 90 + leap
            &&& days_before_month(year, 5) == 120 + leap
            &&& days_before_month(year, 6) == 151 + leap
            &&& days_before_month(year, 7) == 181 + leap
            &&& days_before_month(year, 8) == 212 + leap
            &&& days_before_month(year, 9) == 243 + leap
            &&& days_before_month(year, 10) == 273 + leap
            &&& days_before_month(year, 11) == 304 + leap
            &&& days_before_month(year, 12) == 334 + leap
            &&& days_before_month(year, 13) == 365 + leap
        }),
{
    reveal_with_fuel(days_before_month, 13);
}

/// Later years begin later.
proof fn years_go_on(left: int, right: int)
    requires
        left <= right,
    ensures
        days_before_year(left) <= days_before_year(right),
    decreases right - left,
{
    if left < right {
        years_go_on(left, right - 1);
        year_has_its_days(right - 1);
    }
}

/// Later months begin when the earlier ones are over.
proof fn months_go_on(year: int, left: int, right: int)
    requires
        1 <= left < right <= 13,
    ensures
        days_before_month(year, left) + month_length(year, left) <= days_before_month(year, right),
    decreases right - left,
{
    if left + 1 < right {
        months_go_on(year, left, right - 1);
    }
}

/// A date lies in its year.
proof fn dates_lie_in_their_year(date: Date)
    requires
        is_date(date),
    ensures
        days_before_year(date.year) < day_number(date) <= days_before_year(date.year + 1),
{
    months_have_their_days(date.year);
    year_has_its_days(date.year);
    months_go_on(date.year, date.month, 13);
    if date.month > 1 {
        months_go_on(date.year, 1, date.month);
    }
}

/// Days follow one another as their dates do.
pub proof fn law_days_go_as_their_dates(left: Date, right: Date)
    requires
        is_date(left),
        is_date(right),
    ensures
        date_before(left, right) <==> day_number(left) < day_number(right),
        left == right <==> day_number(left) == day_number(right),
{
    if date_before(left, right) {
        earlier_dates_have_earlier_days(left, right);
    } else if left != right {
        earlier_dates_have_earlier_days(right, left);
    }
}

/// An earlier date has an earlier day.
proof fn earlier_dates_have_earlier_days(left: Date, right: Date)
    requires
        is_date(left),
        is_date(right),
        date_before(left, right),
    ensures
        day_number(left) < day_number(right),
{
    if left.year < right.year {
        dates_lie_in_their_year(left);
        dates_lie_in_their_year(right);
        years_go_on(left.year + 1, right.year);
    } else if left.month < right.month {
        months_go_on(left.year, left.month, right.month);
    }
}

/// Every day lies in some year.
proof fn some_year_holds(day: int) -> (year: int)
    ensures
        days_before_year(year) < day <= days_before_year(year + 1),
    decreases if day >= 1 { day } else { 1 - day },
{
    if day == 1 {
        1
    } else if day > 1 {
        let year = some_year_holds(day - 1);
        year_has_its_days(year + 1);
        if day <= days_before_year(year + 1) {
            year
        } else {
            year + 1
        }
    } else {
        let year = if day == 0 {
            1
        } else {
            some_year_holds(day + 1)
        };
        year_has_its_days(year - 1);
        if day > days_before_year(year) {
            year
        } else {
            year - 1
        }
    }
}

/// Every day has a date, and one only.
pub proof fn law_every_day_has_one_date(day: int)
    ensures
        is_date(date_of(day)),
        day_number(date_of(day)) == day,
        forall|date: Date| is_date(date) && #[trigger] day_number(date) == day ==> date == date_of(
            day,
        ),
{
    let year = some_year_holds(day);
    year_has_its_days(year);
    months_have_their_days(year);
    let rest = day - days_before_year(year);
    let month: int = if rest <= days_before_month(year, 2) {
        1
    } else if rest <= days_before_month(year, 3) {
        2
    } else if rest <= days_before_month(year, 4) {
        3
    } else if rest <= days_before_month(year, 5) {
        4
    } else if rest <= days_before_month(year, 6) {
        5
    } else if rest <= days_before_month(year, 7) {
        6
    } else if rest <= days_before_month(year, 8) {
        7
    } else if rest <= days_before_month(year, 9) {
        8
    } else if rest <= days_before_month(year, 10) {
        9
    } else if rest <= days_before_month(year, 11) {
        10
    } else if rest <= days_before_month(year, 12) {
        11
    } else {
        12
    };
    let found = Date { year, month, day: rest - days_before_month(year, month) };
    assert(is_date(found) && day_number(found) == day);
    assert forall|date: Date| is_date(date) && #[trigger] day_number(date) == day implies date
        == date_of(day) by {
        law_days_go_as_their_dates(date, date_of(day));
    }
}

/// The first day of the month of a date is the day of the first of that month.
pub proof fn law_months_begin_on_the_first(date: Date)
    requires
        is_date(date),
    ensures
        date_of(day_number(date)) == date,
        day_number(date) - date.day + 1 == day_number(Date { day: 1, ..date }),
{
    law_every_day_has_one_date(day_number(date));
}

/// The smallest number that needs more digits than the width.
spec fn too_wide(width: nat) -> nat
    decreases width,
{
    if width == 0 {
        1
    } else {
        10 * too_wide((width - 1) as nat)
    }
}

/// A number that fits in the width has as many digits.
proof fn digits_fill_the_width(number: nat, width: nat)
    requires
        number < too_wide(width),
    ensures
        digits(number, width).len() == width,
    decreases width,
{
    if width > 0 {
        digits_fill_the_width(number / 10, (width - 1) as nat);
    }
}

/// Where two texts begin with parts of one length, the parts decide unless they are equal.
proof fn first_parts_decide(a: Seq<char>, b: Seq<char>, x: Seq<char>, y: Seq<char>)
    requires
        a.len() == b.len(),
    ensures
        text::text_before(a + x, b + y) <==> (if a == b {
            text::text_before(x, y)
        } else {
            text::text_before(a, b)
        }),
    decreases a.len(),
{
    if a.len() == 0 {
        assert(a + x == x && b + y == y);
        assert(a == b);
    } else {
        first_parts_decide(a.drop_first(), b.drop_first(), x, y);
        assert((a + x).drop_first() == a.drop_first() + x);
        assert((b + y).drop_first() == b.drop_first() + y);
        assert((a + x)[0] == a[0] && (b + y)[0] == b[0]);
        if a[0] == b[0] && a.drop_first() == b.drop_first() {
            assert(a == seq![a[0]] + a.drop_first());
            assert(b == seq![b[0]] + b.drop_first());
            assert(a == b);
        }
    }
}

/// Digits of one width sort like their numbers.
proof fn digits_sort_like_numbers(left: nat, right: nat, width: nat)
    requires
        left < too_wide(width),
        right < too_wide(width),
    ensures
        text::text_before(digits(left, width), digits(right, width)) <==> left < right,
        digits(left, width) == digits(right, width) <==> left == right,
    decreases width,
{
    if width > 0 {
        let fewer = (width - 1) as nat;
        digits_sort_like_numbers(left / 10, right / 10, fewer);
        digits_fill_the_width(left / 10, fewer);
        digits_fill_the_width(right / 10, fewer);
        let a = digits(left / 10, fewer);
        let b = digits(right / 10, fewer);
        let x = digit(left as int % 10);
        let y = digit(right as int % 10);
        assert((x as int) == 48 + left as int % 10 && (y as int) == 48 + right as int % 10);
        assert(a.push(x) == a + seq![x]);
        assert(b.push(y) == b + seq![y]);
        first_parts_decide(a, b, seq![x], seq![y]);
        reveal_with_fuel(text::text_before, 2);
        assert(seq![x].drop_first() == Seq::<char>::empty());
        assert(seq![y].drop_first() == Seq::<char>::empty());
        if a.push(x) == b.push(y) {
            assert(a.push(x).last() == x && b.push(y).last() == y);
            assert(a.push(x).drop_last() == a && b.push(y).drop_last() == b);
        }
    }
}

/// The texts of the dates from the year 0 to the year 9999 sort like the days: a day can be
/// compared with another by the texts of the two.
pub proof fn law_date_texts_sort_like_days(left: Date, right: Date)
    requires
        is_date(left),
        is_date(right),
        0 <= left.year <= 9999,
        0 <= right.year <= 9999,
    ensures
        text::text_before(date_text(left), date_text(right)) <==> day_number(left) < day_number(
            right,
        ),
        date_text(left).len() == 10,
{
    law_days_go_as_their_dates(left, right);
    reveal_with_fuel(too_wide, 5);
    let (y, m, d) = (left.year as nat, left.month as nat, left.day as nat);
    let (v, n, e) = (right.year as nat, right.month as nat, right.day as nat);
    digits_sort_like_numbers(y, v, 4);
    digits_sort_like_numbers(m, n, 2);
    digits_sort_like_numbers(d, e, 2);
    digits_fill_the_width(y, 4);
    digits_fill_the_width(v, 4);
    digits_fill_the_width(m, 2);
    digits_fill_the_width(n, 2);
    digits_fill_the_width(d, 2);
    digits_fill_the_width(e, 2);
    let dash = seq!['-'];
    let (day_left, day_right) = (dash + digits(d, 2), dash + digits(e, 2));
    let (month_left, month_right) = (digits(m, 2) + day_left, digits(n, 2) + day_right);
    first_parts_decide(dash, dash, digits(d, 2), digits(e, 2));
    first_parts_decide(digits(m, 2), digits(n, 2), day_left, day_right);
    first_parts_decide(dash, dash, month_left, month_right);
    first_parts_decide(digits(y, 4), digits(v, 4), dash + month_left, dash + month_right);
}

/// Leap years: every fourth, but of the hundreds every fourth alone.
pub proof fn law_leap_years_come_every_four_years(year: int)
    ensures
        year % 4 != 0 ==> !is_leap(year),
        year % 4 == 0 && year % 100 != 0 ==> is_leap(year),
        year % 100 == 0 ==> (is_leap(year) <==> year % 400 == 0),
{
}

/// The day after the last of a month is the first of the next, and the day after the last of
/// December is the first of the next year. Within a month days go on by one.
pub proof fn law_days_follow_one_another(date: Date)
    requires
        is_date(date),
    ensures
        date.day < month_length(date.year, date.month) ==> day_number(
            Date { day: date.day + 1, ..date },
        ) == day_number(date) + 1,
        date.day == month_length(date.year, date.month) && date.month < 12 ==> day_number(
            Date { month: date.month + 1, day: 1, ..date },
        ) == day_number(date) + 1,
        date.day == month_length(date.year, date.month) && date.month == 12 ==> day_number(
            Date { year: date.year + 1, month: 1, day: 1 },
        ) == day_number(date) + 1,
        day_number(Date { year: 1, month: 1, day: 1 }) == 1,
{
    months_have_their_days(date.year);
    months_have_their_days(date.year + 1);
    year_has_its_days(date.year);
    reveal_with_fuel(days_before_month, 2);
}

/// The months have these lengths.
pub proof fn law_months_have_their_length(year: int)
    ensures
        month_length(year, 1) == 31,
        month_length(year, 2) == (if year % 4 == 0 && (year % 100 != 0 || year % 400 == 0) {
            29int
        } else {
            28
        }),
        month_length(year, 3) == 31,
        month_length(year, 4) == 30,
        month_length(year, 5) == 31,
        month_length(year, 6) == 30,
        month_length(year, 7) == 31,
        month_length(year, 8) == 31,
        month_length(year, 9) == 30,
        month_length(year, 10) == 31,
        month_length(year, 11) == 30,
        month_length(year, 12) == 31,
{
}

/// The number that decimal digits stand for.
pub open spec fn value_of(text: Seq<char>) -> int
    decreases text.len(),
{
    if text.len() == 0 {
        0
    } else {
        10 * value_of(text.drop_last()) + (text.last() as int - '0' as int)
    }
}

/// Digits stand for their number, and are as many as asked for at least.
pub proof fn law_digits_stand_for_their_number(number: nat, width: nat)
    ensures
        value_of(digits(number, width)) == number,
        digits(number, width).len() >= width,
        forall|i: int|
            0 <= i < digits(number, width).len() ==> '0' <= #[trigger] digits(number, width)[i]
                <= '9',
    decreases number, width,
{
    if number > 0 || width > 0 {
        let fewer: nat = if width == 0 {
            0
        } else {
            (width - 1) as nat
        };
        law_digits_stand_for_their_number(number / 10, fewer);
        let front = digits(number / 10, fewer);
        let all = digits(number, width);
        assert(all == front.push(digit(number as int % 10)));
        assert(all.drop_last() == front);
        assert(all.last() as int == 48 + number as int % 10);
    }
}

/// A date of the years 0 to 9999 can be read in its text: four digits of the year, two of the
/// month and two of the day, with dashes between.
pub proof fn law_dates_can_be_read(date: Date)
    requires
        is_date(date),
        0 <= date.year <= 9999,
    ensures
        date_text(date).len() == 10,
        value_of(date_text(date).subrange(0, 4)) == date.year,
        date_text(date)[4] == '-',
        value_of(date_text(date).subrange(5, 7)) == date.month,
        date_text(date)[7] == '-',
        value_of(date_text(date).subrange(8, 10)) == date.day,
{
    reveal_with_fuel(too_wide, 5);
    let (y, m, d) = (date.year as nat, date.month as nat, date.day as nat);
    digits_fill_the_width(y, 4);
    digits_fill_the_width(m, 2);
    digits_fill_the_width(d, 2);
    law_digits_stand_for_their_number(y, 4);
    law_digits_stand_for_their_number(m, 2);
    law_digits_stand_for_their_number(d, 2);
    let text = date_text(date);
    assert(text.subrange(0, 4) == digits(y, 4));
    assert(text.subrange(5, 7) == digits(m, 2));
    assert(text.subrange(8, 10) == digits(d, 2));
}

/// A number below a hundred has two digits, and one below a thousand, a million or a billion
/// three, six or nine, where so many are asked for.
pub proof fn law_small_numbers_fill_their_width(number: nat)
    ensures
        number < 100 ==> digits(number, 2).len() == 2,
        number < 1000 ==> digits(number, 3).len() == 3,
        number < 1000000 ==> digits(number, 6).len() == 6,
        number < 1000000000 ==> digits(number, 9).len() == 9,
{
    reveal_with_fuel(too_wide, 10);
    if number < 100 {
        digits_fill_the_width(number, 2);
    }
    if number < 1000 {
        digits_fill_the_width(number, 3);
    }
    if number < 1000000 {
        digits_fill_the_width(number, 6);
    }
    if number < 1000000000 {
        digits_fill_the_width(number, 9);
    }
}

/// Years before the year 0 have a minus in front, and years after 9999 a plus.
pub proof fn law_far_years_have_a_sign(year: int)
    ensures
        year < 0 ==> year_text(year)[0] == '-' && value_of(year_text(year).skip(1)) == -year
            && year_text(year).len() >= 5,
        0 <= year <= 9999 ==> value_of(year_text(year)) == year && year_text(year).len() >= 4,
        year > 9999 ==> year_text(year)[0] == '+' && value_of(year_text(year).skip(1)) == year
            && year_text(year).len() >= 5,
{
    let number = if year < 0 {
        (-year) as nat
    } else {
        year as nat
    };
    law_digits_stand_for_their_number(number, 4);
    assert((seq!['-'] + digits(number, 4)).skip(1) == digits(number, 4));
    assert((seq!['+'] + digits(number, 4)).skip(1) == digits(number, 4));
}

} // verus!
