//! Moments of time: reading the clock, and writing a moment into the access log.
use crate::calendar::{
    date_of, day_number, is_date, law_each_day_has_a_date, law_month_and_day_read_back,
    law_time_of_day_reads_back, month_and_day, time_of_day, CalendarDate,
};
use crate::text::number_of;
use vstd::prelude::*;

verus! {

/// The first second that a moment can fall in: the start of the year -262143.
pub const MIN_SECONDS: i64 = -8_334_601_228_800;

/// The last second that a moment can fall in: the end of the year 262142.
pub const MAX_SECONDS: i64 = 8_210_266_876_799;

/// The nanoseconds in a second.
pub const NANOS_PER_SECOND: u32 = 1_000_000_000;

/// How a moment is written in the access log.
pub const LOG_TIME_FORMAT: &'static str = "%m-%d %H:%M:%S";

/// Whether a count of seconds and nanoseconds is a moment of time.
pub open spec fn is_moment(seconds: int, nanos: int) -> bool {
    MIN_SECONDS <= seconds <= MAX_SECONDS && 0 <= nanos < NANOS_PER_SECOND
}

/// A moment of time, in UTC: whole seconds since the start of 1970, and the nanoseconds
/// past the last of them.
#[derive(Clone, Copy, Debug, PartialEq, Eq, Structural)]
pub struct Timestamp {
    seconds: i64,
    nanos: u32,
}

impl Timestamp {
    #[verifier::type_invariant]
    pub open spec fn well_formed(self) -> bool {
        is_moment(self.spec_seconds(), self.spec_nanos())
    }

    /// The whole seconds since the start of 1970.
    pub closed spec fn spec_seconds(self) -> int {
        self.seconds as int
    }

    /// The nanoseconds past the last whole second.
    pub closed spec fn spec_nanos(self) -> int {
        self.nanos as int
    }

    /// Whether a reading of the clock can be this moment: no reading is before 1970.
    pub open spec fn is_reading(self) -> bool {
        self.well_formed() && self.spec_seconds() >= 0
    }

    /// The moment at the given count of seconds and nanoseconds, where there is one.
    pub fn new(seconds: i64, nanos: u32) -> (moment: Option<Timestamp>)
        ensures
            moment is Some <==> is_moment(seconds as int, nanos as int),
            moment matches Some(moment) ==> moment.well_formed() && moment.spec_seconds()
                == seconds && moment.spec_nanos() == nanos,
    {
        if MIN_SECONDS <= seconds && seconds <= MAX_SECONDS && nanos < NANOS_PER_SECOND {
            Some(Timestamp { seconds, nanos })
        } else {
            None
        }
    }

    /// The moment at which this is called, by the system clock.
    pub fn now() -> (moment: Timestamp)
        ensures
            moment.is_reading(),
    {
        let (seconds, nanos): (i64, u32) = utc_now();
        Timestamp { seconds, nanos }
    }

    /// The whole seconds since the start of 1970.
    pub fn seconds(&self) -> (seconds: i64)
        ensures
            seconds == self.spec_seconds(),
    {
        self.seconds
    }

    /// The nanoseconds past the last whole second.
    pub fn nanos(&self) -> (nanos: u32)
        ensures
            nanos == self.spec_nanos(),
    {
        self.nanos
    }

    /// The moment as the access log shows it: month, day and time of day.
    pub fn log_text(&self) -> (text: String)
        ensures
            text@ == log_time(*self),
    {
        proof {
            use_type_invariant(self);
        }
        format_utc(self.seconds, self.nanos, LOG_TIME_FORMAT)
    }
}

/// Some moment that a reading of the clock can be, where a statement needs one and none was
/// read.
pub proof fn lemma_some_reading() -> (moment: Timestamp)
    ensures
        moment.is_reading(),
{
    Timestamp { seconds: 0, nanos: 0 }
}

/// How the access log shows a moment.
pub open spec fn log_time(moment: Timestamp) -> Seq<char> {
    month_and_day(date_of(moment.spec_seconds() / 86400)) + " "@ + time_of_day(
        moment.spec_seconds() % 86400,
    )
}

/// Calls `chrono::Utc::now`, and takes the seconds and nanoseconds of its result. Claimed:
/// they are a moment, and not before 1970. Which moment is left unsaid: it rests on the
/// system clock. With a clock set before 1970, or past the last year of the calendar, that
/// function does not return but panics.
#[verifier::external_body]
fn utc_now() -> (moment: (i64, u32))
    ensures
        is_moment(moment.0 as int, moment.1 as int),
        moment.0 >= 0,
{
    let now = chrono::Utc::now();
    (now.timestamp(), now.timestamp_subsec_nanos())
}

/// Calls `chrono::DateTime::format` on the moment, and writes its result out. Claimed: for
/// the format of the access log the text is the month and the day of the date on which the
/// moment falls, a space, and the time of day with two digits each for hour, minute and
/// second; the nanoseconds do not show.
#[verifier::external_body]
fn format_utc(seconds: i64, nanos: u32, format: &str) -> (text: String)
    requires
        is_moment(seconds as int, nanos as int),
        format@ == LOG_TIME_FORMAT@,
    ensures
        text@ == month_and_day(date_of(seconds as int / 86400)) + " "@ + time_of_day(
            seconds as int % 86400,
        ),
{
    let moment = chrono::DateTime::from_timestamp(seconds, nanos);
    moment.expect("the moment is in range").format(format).to_string()
}

/// A moment is written in the log as fourteen characters: the month and the day of its date
/// around a hyphen, a space, and hours, minutes and seconds that add up to the seconds since
/// the date began. The date is the one that lies as many days from the first of January 1970
/// as whole days have passed.
pub proof fn law_log_time_reads_back(moment: Timestamp)
    ensures
        ({
            let text = log_time(moment);
            let seconds = moment.spec_seconds();
            exists|date: CalendarDate|
                is_date(date) && #[trigger] day_number(date) * 86400 <= seconds < day_number(date)
                    * 86400 + 86400 && text.len() == 14 && text[2] == '-' && text[5] == ' '
                    && text[8] == ':' && text[11] == ':' && number_of(text.subrange(0, 2))
                    == date.month && number_of(text.subrange(3, 5)) == date.day && number_of(
                    text.subrange(6, 8),
                ) * 3600 + number_of(text.subrange(9, 11)) * 60 + number_of(
                    text.subrange(12, 14),
                ) == seconds - day_number(date) * 86400
        }),
{
    reveal_strlit(" ");
    let seconds = moment.spec_seconds();
    let date = date_of(seconds / 86400);
    law_each_day_has_a_date(seconds / 86400);
    law_month_and_day_read_back(date);
    law_time_of_day_reads_back(seconds % 86400);
    let text = log_time(moment);
    let day = month_and_day(date);
    let time = time_of_day(seconds % 86400);
    assert(text.subrange(0, 2) =~= day.subrange(0, 2));
    assert(text.subrange(3, 5) =~= day.subrange(3, 5));
    assert(text.subrange(6, 8) =~= time.subrange(0, 2));
    assert(text.subrange(9, 11) =~= time.subrange(3, 5));
    assert(text.subrange(12, 14) =~= time.subrange(6, 8));
    assert(day_number(date) == seconds / 86400);
}

/// Every second of the years from -262143 to 262142, and every nanosecond of it, is a moment,
/// and nothing else is; a clock can read exactly those that are not before 1970.
pub proof fn law_moments_fill_the_calendar(seconds: int, nanos: int, moment: Timestamp)
    ensures
        is_moment(seconds, nanos) <==> -8_334_601_228_800 <= seconds <= 8_210_266_876_799 && 0
            <= nanos < 1_000_000_000,
        moment.is_reading() <==> is_moment(moment.spec_seconds(), moment.spec_nanos()) && 0
            <= moment.spec_seconds(),
{
}

} // verus!
