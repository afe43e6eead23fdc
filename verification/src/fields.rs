use vstd::prelude::*;
use crate::calendar::{is_calendar_date, is_clock_time, CaptureDate, CaptureTime};
use crate::error::{AppError, Failure};
use crate::matcher::{DATE_FIELD, TIME_FIELD};
use crate::text::{contains, contains_text};

verus! {

/// What `time::Date::parse` reads from `token` under the format description that
/// `format` spells out: year, month number and day of the month, or `None` where
/// `format` is no format description or `token` is no date under it.
pub uninterp spec fn date_reading(format: Seq<char>, token: Seq<char>) -> Option<(i32, u8, u8)>;

/// What `time::Time::parse` reads from `token` under the format description that
/// `format` spells out: hour, minute and second, or `None` where `format` is no format
/// description or `token` is no time of day under it.
pub uninterp spec fn time_reading(format: Seq<char>, token: Seq<char>) -> Option<(u8, u8, u8)>;

/// Turns `format` into a format description with `time::format_description::parse_borrowed`
/// and reads `token` under it with `time::Date::parse`. Nothing is proved of it: the
/// contract names the outcome as the one that the two texts decide.
#[verifier::external_body]
pub(crate) fn read_date(format: &str, token: &str) -> (r: Option<(i32, u8, u8)>)
    ensures
        r == date_reading(format@, token@),
{
    let items = time::format_description::parse_borrowed::<1>(format).ok()?;
    let date = time::Date::parse(token, &items).ok()?;
    Some((date.year(), u8::from(date.month()), date.day()))
}

/// Turns `format` into a format description with `time::format_description::parse_borrowed`
/// and reads `token` under it with `time::Time::parse`. Nothing is proved of it: the
/// contract names the outcome as the one that the two texts decide.
#[verifier::external_body]
pub(crate) fn read_time(format: &str, token: &str) -> (r: Option<(u8, u8, u8)>)
    ensures
        r == time_reading(format@, token@),
{
    let items = time::format_description::parse_borrowed::<1>(format).ok()?;
    let time = time::Time::parse(token, &items).ok()?;
    Some((time.hour(), time.minute(), time.second()))
}

/// The date that a reading stands for: none where nothing was read, and none where
/// the numbers read do not name a day of the calendar.
pub open spec fn date_of(reading: Option<(i32, u8, u8)>) -> Option<CaptureDate> {
    match reading {
        Some((year, month, day)) => if is_calendar_date(year as int, month as int, day as int) {
            Some(CaptureDate { year, month, day })
        } else {
            None
        },
        None => None,
    }
}

/// The word by which a time format names the second.
pub const SECOND_COMPONENT: &'static str = "second";

/// The time format names a second, so that a token laid out by it has one.
pub open spec fn names_second(format: Seq<char>) -> bool {
    contains_text(format, SECOND_COMPONENT@)
}

/// The numbers name a moment of the clock that a token of this format can stand
/// for: each is in range, and the second is 0 where the format names none.
pub open spec fn is_time_of_format(format: Seq<char>, hour: int, minute: int, second: int) -> bool {
    is_clock_time(hour, minute, second) && (names_second(format) || second == 0)
}

/// The time of day that a reading under a format stands for: none where nothing was
/// read, none where the numbers read do not name a moment of the clock, and none
/// where a second other than 0 was read though the format names no second.
pub open spec fn time_of(format: Seq<char>, reading: Option<(u8, u8, u8)>) -> Option<CaptureTime> {
    match reading {
        Some((hour, minute, second)) => if is_time_of_format(
            format,
            hour as int,
            minute as int,
            second as int,
        ) {
            Some(CaptureTime { hour, minute, second })
        } else {
            None
        },
        None => None,
    }
}

/// Validates what was read for a date token.
pub fn date_from_reading(reading: Option<(i32, u8, u8)>) -> (r: Option<CaptureDate>)
    ensures
        r == date_of(reading),
        r matches Some(date) ==> date.is_valid(),
{
    match reading {
        Some((year, month, day)) => CaptureDate::new(year, month, day),
        None => None,
    }
}

/// Validates what was read for a time token under a format.
pub fn time_from_reading(format: &str, reading: Option<(u8, u8, u8)>) -> (r: Option<CaptureTime>)
    ensures
        r == time_of(format@, reading),
        r matches Some(time) ==> time.is_valid() && (names_second(format@) || time.second == 0),
{
    match reading {
        Some((hour, minute, second)) => {
            if second != 0 && !contains(format, SECOND_COMPONENT) {
                None
            } else {
                CaptureTime::new(hour, minute, second)
            }
        },
        None => None,
    }
}

/// Reads a date token laid out as `format` describes.
pub fn parse_date(format: &str, token: &str) -> (r: Option<CaptureDate>)
    ensures
        r == date_of(date_reading(format@, token@)),
        r matches Some(date) ==> date.is_valid(),
{
    date_from_reading(read_date(format, token))
}

/// Reads a time token laid out as `format` describes.
pub fn parse_time(format: &str, token: &str) -> (r: Option<CaptureTime>)
    ensures
        r == time_of(format@, time_reading(format@, token@)),
        r matches Some(time) ==> time.is_valid() && (names_second(format@) || time.second == 0),
{
    time_from_reading(format, read_time(format, token))
}

/// The outcome of reading the two fields of one filename, each in a slot of its own:
/// a failure in one says nothing of the other.
#[derive(Debug, PartialEq, Eq)]
pub struct FieldSlots {
    pub date: Result<CaptureDate, AppError>,
    pub time: Result<CaptureTime, AppError>,
}

/// A slot's value, or what its failure says.
pub open spec fn slot_view<T>(r: Result<T, AppError>) -> Result<T, Failure> {
    match r {
        Ok(value) => Ok(value),
        Err(e) => Err(e@),
    }
}

/// The date slot for a token of a filename: the date read, or a failure that names
/// the field, the token as it stood, and the filename.
pub open spec fn date_slot(name: Seq<char>, token: Seq<char>, date: Option<CaptureDate>) -> Result<
    CaptureDate,
    Failure,
> {
    match date {
        Some(date) => Ok(date),
        None => Err(Failure::FieldParseError(DATE_FIELD@, token, name)),
    }
}

/// The time slot for a token of a filename: the time read, or a failure that names
/// the field, the token as it stood, and the filename.
pub open spec fn time_slot(name: Seq<char>, token: Seq<char>, time: Option<CaptureTime>) -> Result<
    CaptureTime,
    Failure,
> {
    match time {
        Some(time) => Ok(time),
        None => Err(Failure::FieldParseError(TIME_FIELD@, token, name)),
    }
}

/// Numbers that name no day of the calendar are refused as they stand, whatever was
/// read: nothing is clamped or wrapped, and the date slot holds the failure that
/// names the field, the token and the filename.
pub proof fn lemma_date_out_of_range(
    name: Seq<char>,
    token: Seq<char>,
    year: i32,
    month: u8,
    day: u8,
)
    requires
        !is_calendar_date(year as int, month as int, day as int),
    ensures
        date_slot(name, token, date_of(Some((year, month, day)))) == Err::<CaptureDate, Failure>(
            Failure::FieldParseError(DATE_FIELD@, token, name),
        ),
{
}

/// Numbers that name no moment of the clock are refused as they stand, whatever was
/// read and whatever the format: nothing is clamped or wrapped, and the time slot
/// holds the failure that names the field, the token and the filename.
pub proof fn lemma_time_out_of_range(
    name: Seq<char>,
    token: Seq<char>,
    format: Seq<char>,
    hour: u8,
    minute: u8,
    second: u8,
)
    requires
        !is_clock_time(hour as int, minute as int, second as int),
    ensures
        time_slot(name, token, time_of(format, Some((hour, minute, second)))) == Err::<
            CaptureTime,
            Failure,
        >(Failure::FieldParseError(TIME_FIELD@, token, name)),
{
}

/// A slot holds a value exactly when the token was read and the numbers read are in
/// range, with a second of 0 where the time format names none; the value then holds
/// those numbers unchanged.
pub proof fn lemma_slots_hold_what_was_read(
    name: Seq<char>,
    token: Seq<char>,
    date: Option<(i32, u8, u8)>,
    format: Seq<char>,
    time: Option<(u8, u8, u8)>,
)
    ensures
        date_slot(name, token, date_of(date)) is Ok <==> (date matches Some(d) && is_calendar_date(
            d.0 as int,
            d.1 as int,
            d.2 as int,
        )),
        date_slot(name, token, date_of(date)) matches Ok(d) ==> date == Some(
            (d.year, d.month, d.day),
        ) && d.is_valid(),
        time_slot(name, token, time_of(format, time)) is Ok <==> (time matches Some(t)
            && is_time_of_format(format, t.0 as int, t.1 as int, t.2 as int)),
        time_slot(name, token, time_of(format, time)) matches Ok(t) ==> time == Some(
            (t.hour, t.minute, t.second),
        ) && t.is_valid() && (names_second(format) || t.second == 0),
{
}

/// Fills the two slots for a filename from what was read for its date token and for
/// its time token, the latter under the given time format.
pub fn slots_from_readings(
    filename: &str,
    date_token: &str,
    date: Option<(i32, u8, u8)>,
    time_format: &str,
    time_token: &str,
    time: Option<(u8, u8, u8)>,
) -> (r: FieldSlots)
    ensures
        slot_view(r.date) == date_slot(filename@, date_token@, date_of(date)),
        slot_view(r.time) == time_slot(filename@, time_token@, time_of(time_format@, time)),
        r.date matches Ok(d) ==> d.is_valid(),
        r.time matches Ok(t) ==> t.is_valid() && (names_second(time_format@) || t.second == 0),
{
    let date = match date_from_reading(date) {
        Some(date) => Ok(date),
        None => Err(
            AppError::FieldParseError(
                DATE_FIELD.to_owned(),
                date_token.to_owned(),
                filename.to_owned(),
            ),
        ),
    };
    let time = match time_from_reading(time_format, time) {
        Some(time) => Ok(time),
        None => Err(
            AppError::FieldParseError(
                TIME_FIELD.to_owned(),
                time_token.to_owned(),
                filename.to_owned(),
            ),
        ),
    };
    FieldSlots { date, time }
}

} // verus!
