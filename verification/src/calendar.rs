//! The Gregorian calendar, extended without bounds to both sides.
use crate::text::{law_two_digits_read_back, number_of, two_digits};
use vstd::prelude::*;

verus! {

/// A year, a month and a day of the month, each month and day counted from one. The year
/// before year one is year zero.
pub struct CalendarDate {
    pub year: int,
    pub month: int,
    pub day: int,
}

/// Whether February has a leap day.
pub open spec fn is_leap_year(year: int) -> bool {
    year % 4 == 0 && (year % 100 != 0 || year % 400 == 0)
}

/// The length of a month.
pub open spec fn days_in_month(year: int, month: int) -> int {
    if month == 2 {
        if is_leap_year(year) {
            29
        } else {
            28
        }
    } else if month == 4 || month == 6 || month == 9 || month == 11 {
        30
    } else {
        31
    }
}

/// The days of a year that lie before a month.
pub open spec fn days_before_month(year: int, month: int) -> int
    decreases month,
{
    if month <= 1 {
        0
    } else {
        days_before_month(year, month - 1) + days_in_month(year, month - 1)
    }
}

/// The days from the start of year one to the start of a year.
pub open spec fn days_before_year(year: int) -> int {
    365 * (year - 1) + (year - 1) / 4 - (year - 1) / 100 + (year - 1) / 400
}

/// Whether a year, a month and a day make a date.
pub open spec fn is_date(date: CalendarDate) -> bool {
    1 <= date.month <= 12 && 1 <= date.day <= days_in_month(date.year, date.month)
}

/// The days from the first of January 1970 to a date, negative before it.
pub open spec fn day_number(date: CalendarDate) -> int {
    days_before_year(date.year) + days_before_month(date.year, date.month) + date.day - 1 - 719162
}

/// The date that is `day` days after the first of January 1970, or before it when negative.
pub open spec fn date_of(day: int) -> CalendarDate {
    choose|date: CalendarDate| is_date(date) && #[trigger] day_number(date) == day
}

/// The month and the day of the month, as `MM-DD`.
pub open spec fn month_and_day(date: CalendarDate) -> Seq<char> {
    two_digits(date.month) + "-"@ + two_digits(date.day)
}

/// The time of day, as `HH:MM:SS`, at `second` seconds after midnight.
pub open spec fn time_of_day(second: int) -> Seq<char> {
    two_digits(second / 3600) + ":"@ + two_digits(second / 60 % 60) + ":"@ + two_digits(second % 60)
}

/// The months of a year have 365 days, or one more in a leap year.
proof fn lemma_months_add_up(year: int)
    ensures
        days_before_month(year, 12) + days_in_month(year, 12) == 365 + if is_leap_year(year) {
            1int
        } else {
            0
        },
{
    assert(days_before_month(year, 1) == 0);
    assert(days_before_month(year, 2) == 31);
    let leap = days_in_month(year, 2) - 28;
    assert(days_before_month(year, 3) == 59 + leap);
    assert(days_before_month(year, 4) == 90 + leap);
    assert(days_before_month(year, 5) == 120 + leap);
    assert(days_before_month(year, 6) == 151 + leap);
    assert(days_before_month(year, 7) == 181 + leap);
    assert(days_before_month(year, 8) == 212 + leap);
    assert(days_before_month(year, 9) == 243 + leap);
    assert(days_before_month(year, 10) == 273 + leap);
    assert(days_before_month(year, 11) == 304 + leap);
    assert(days_before_month(year, 12) == 334 + leap);
}

/// A multiple of `step` lies between two neighbours exactly when the later is one.
proof fn lemma_multiples_passed(n: int, step: int)
    requires
        step > 1,
    ensures
        n / step - (n - 1) / step == if n % step == 0 {
            1int
        } else {
            0
        },
{
    let quotient = n / step;
    vstd::arithmetic::div_mod::lemma_fundamental_div_mod(n, step);
    assert(quotient * step == step * quotient) by (nonlinear_arith);
    assert((quotient - 1) * step == quotient * step - step) by (nonlinear_arith);
    if n % step == 0 {
        vstd::arithmetic::div_mod::lemma_fundamental_div_mod_converse(
            n - 1,
            step,
            quotient - 1,
            step - 1,
        );
    } else {
        vstd::arithmetic::div_mod::lemma_fundamental_div_mod_converse(
            n - 1,
            step,
            quotient,
            n % step - 1,
        );
    }
}

/// The months of a year add up to the year.
proof fn lemma_year_length(year: int)
    ensures
        days_before_month(year, 12) + days_in_month(year, 12) == days_before_year(year + 1)
            - days_before_year(year),
{
    lemma_months_add_up(year);
    lemma_multiples_passed(year, 4);
    lemma_multiples_passed(year, 100);
    lemma_multiples_passed(year, 400);
    assert(year % 400 == 0 ==> year % 100 == 0);
    assert(year % 100 == 0 ==> year % 4 == 0);
}

/// A date lies within its year.
proof fn lemma_date_within_year(date: CalendarDate)
    requires
        is_date(date),
    ensures
        days_before_year(date.year) <= day_number(date) + 719162 < days_before_year(date.year + 1),
{
    lemma_year_length(date.year);
    lemma_months_add_up(date.year);
    if date.month > 1 {
        lemma_months_in_order(date.year, 1, date.month);
    }
    if date.month < 12 {
        lemma_months_in_order(date.year, date.month, 12);
    }
}

/// Later years start later.
proof fn lemma_years_in_order(earlier: int, later: int)
    requires
        earlier <= later,
    ensures
        days_before_year(earlier) <= days_before_year(later),
    decreases later - earlier,
{
    if earlier < later {
        lemma_years_in_order(earlier, later - 1);
    }
}

/// Later months of a year start after the end of earlier ones.
proof fn lemma_months_in_order(year: int, earlier: int, later: int)
    requires
        1 <= earlier < later <= 12,
    ensures
        days_before_month(year, earlier) + days_in_month(year, earlier) <= days_before_month(
            year,
            later,
        ),
    decreases later - earlier,
{
    if earlier < later - 1 {
        lemma_months_in_order(year, earlier, later - 1);
    }
}

/// No two dates fall on the same day.
pub proof fn law_dates_are_distinct(one: CalendarDate, other: CalendarDate)
    requires
        is_date(one),
        is_date(other),
        day_number(one) == day_number(other),
    ensures
        one == other,
{
    lemma_date_within_year(one);
    lemma_date_within_year(other);
    if one.year < other.year {
        lemma_years_in_order(one.year + 1, other.year);
    } else if other.year < one.year {
        lemma_years_in_order(other.year + 1, one.year);
    }
    if one.month < other.month {
        lemma_months_in_order(one.year, one.month, other.month);
    } else if other.month < one.month {
        lemma_months_in_order(one.year, other.month, one.month);
    }
}

/// Every day has a date.
pub proof fn law_each_day_has_a_date(day: int)
    ensures
        is_date(date_of(day)),
        day_number(date_of(day)) == day,
{
    lemma_date_exists(day);
}

/// A date that falls on the given day.
proof fn lemma_date_exists(day: int) -> (date: CalendarDate)
    ensures
        is_date(date),
        day_number(date) == day,
    decreases
            if day < 0 {
                -day
            } else {
                day
            },
{
    if day == 0 {
        CalendarDate { year: 1970, month: 1, day: 1 }
    } else if day > 0 {
        let before = lemma_date_exists(day - 1);
        lemma_year_length(before.year);
        if before.day < days_in_month(before.year, before.month) {
            CalendarDate { day: before.day + 1, ..before }
        } else if before.month < 12 {
            CalendarDate { month: before.month + 1, day: 1, ..before }
        } else {
            CalendarDate { year: before.year + 1, month: 1, day: 1 }
        }
    } else {
        let after = lemma_date_exists(day + 1);
        lemma_year_length(after.year - 1);
        if after.day > 1 {
            CalendarDate { day: after.day - 1, ..after }
        } else if after.month > 1 {
            CalendarDate {
                month: after.month - 1,
                day: days_in_month(after.year, after.month - 1),
                ..after
            }
        } else {
            CalendarDate { year: after.year - 1, month: 12, day: 31 }
        }
    }
}

/// A time of day is written as hours, minutes and seconds, two digits each between colons,
/// and they add up to the seconds since midnight.
pub proof fn law_time_of_day_reads_back(second: int)
    requires
        0 <= second < 86400,
    ensures
        ({
            let text = time_of_day(second);
            let hours = number_of(text.subrange(0, 2));
            let minutes = number_of(text.subrange(3, 5));
            let seconds = number_of(text.subrange(6, 8));
            &&& text.len() == 8
            &&& text[2] == ':'
            &&& text[5] == ':'
            &&& 0 <= hours < 24
            &&& 0 <= minutes < 60
            &&& 0 <= seconds < 60
            &&& hours * 3600 + minutes * 60 + seconds == second
        }),
{
    reveal_strlit(":");
    law_two_digits_read_back(second / 3600);
    law_two_digits_read_back(second / 60 % 60);
    law_two_digits_read_back(second % 60);
    let text = time_of_day(second);
    assert(text.subrange(0, 2) =~= two_digits(second / 3600));
    assert(text.subrange(3, 5) =~= two_digits(second / 60 % 60));
    assert(text.subrange(6, 8) =~= two_digits(second % 60));
}

/// A date is written as its month and its day of the month, two digits each around a hyphen.
pub proof fn law_month_and_day_read_back(date: CalendarDate)
    requires
        is_date(date),
    ensures
        ({
            let text = month_and_day(date);
            &&& text.len() == 5
            &&& text[2] == '-'
            &&& number_of(text.subrange(0, 2)) == date.month
            &&& number_of(text.subrange(3, 5)) == date.day
        }),
{
    reveal_strlit("-");
    law_two_digits_read_back(date.month);
    law_two_digits_read_back(date.day);
    let text = month_and_day(date);
    assert(text.subrange(0, 2) =~= two_digits(date.month));
    assert(text.subrange(3, 5) =~= two_digits(date.day));
}

} // verus!
