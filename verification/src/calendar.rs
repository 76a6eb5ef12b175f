//! The game's calendar: 28 days to a season, four seasons to a year, dates counted from 1.
//! Before the date 1 the days of the week and the seasons go on backwards, so that every
//! date has its day and its season; only a date from 1 on has a year and is printed.

use vstd::prelude::*;
use vstd::string::StringExecFns;
use crate::text::{append_decimal, spec_decimal};

verus! {

/// The days of a season.
pub const DAYS_PER_SEASON: i32 = 28;

/// The seasons of a year.
pub const SEASONS_PER_YEAR: i32 = 4;

/// The days of a year.
pub const DAYS_PER_YEAR: i32 = 112;

/// The day of the season, counted from 0.
pub open spec fn spec_day_number(date: int) -> int {
    (date - 1) % 28
}

/// The day of the week, counted from 0 for Monday.
pub open spec fn spec_day_of_week(date: int) -> int {
    spec_day_number(date) % 7
}

/// The season of the year, counted from 0 for spring.
pub open spec fn spec_season_number(date: int) -> int {
    ((date - 1) / 28) % 4
}

/// The year, counted from 0.
pub open spec fn spec_year_number(date: int) -> int {
    (date - 1) / 112
}

/// The name of a day of the week.
pub open spec fn spec_weekday_name(day_of_week: int) -> Seq<char> {
    if day_of_week == 0 {
        "Monday"@
    } else if day_of_week == 1 {
        "Tuesday"@
    } else if day_of_week == 2 {
        "Wednesday"@
    } else if day_of_week == 3 {
        "Thursday"@
    } else if day_of_week == 4 {
        "Friday"@
    } else if day_of_week == 5 {
        "Saturday"@
    } else {
        "Sunday"@
    }
}

/// The name of a season as the stock tables print it.
pub open spec fn spec_season_label(season: int) -> Seq<char> {
    if season == 0 {
        "Spring"@
    } else if season == 1 {
        "Summer"@
    } else if season == 2 {
        "Fall"@
    } else {
        "Winder"@
    }
}

/// The day of the season, counted from 0.
pub fn day_number(date: i32) -> (day: u8)
    ensures
        day == spec_day_number(date as int),
        day < 28,
{
    if date >= 1 {
        ((date - 1) % DAYS_PER_SEASON) as u8
    } else {
        let back: i64 = 1 - date as i64;
        let beyond: i64 = back % 28;
        if beyond == 0 {
            0
        } else {
            (28 - beyond) as u8
        }
    }
}

/// The day of the week, counted from 0 for Monday.
pub fn day_of_week(date: i32) -> (day: u8)
    ensures
        day == spec_day_of_week(date as int),
        day == (date - 1) % 7,
        day < 7,
{
    day_number(date) % 7
}

/// The name of the day of the week.
pub fn day_name(date: i32) -> (name: &'static str)
    ensures
        name@ == spec_weekday_name(spec_day_of_week(date as int)),
{
    let day: u8 = day_of_week(date);
    if day == 0 {
        "Monday"
    } else if day == 1 {
        "Tuesday"
    } else if day == 2 {
        "Wednesday"
    } else if day == 3 {
        "Thursday"
    } else if day == 4 {
        "Friday"
    } else if day == 5 {
        "Saturday"
    } else {
        "Sunday"
    }
}

/// The season of the year, counted from 0 for spring.
pub fn season_number(date: i32) -> (season: u8)
    ensures
        season == spec_season_number(date as int),
        season < 4,
{
    if date >= 1 {
        (((date - 1) / DAYS_PER_SEASON) % SEASONS_PER_YEAR) as u8
    } else {
        let back: i64 = 1 - date as i64;
        let seasons_back: i64 = (back + 27) / 28;
        let beyond: i64 = seasons_back % 4;
        if beyond == 0 {
            0
        } else {
            (4 - beyond) as u8
        }
    }
}

/// The name of the season as the stock tables print it.
pub fn season_name(date: i32) -> (name: &'static str)
    ensures
        name@ == spec_season_label(spec_season_number(date as int)),
{
    let season: u8 = season_number(date);
    if season == 0 {
        "Spring"
    } else if season == 1 {
        "Summer"
    } else if season == 2 {
        "Fall"
    } else {
        "Winder"
    }
}

/// The year, counted from 0.
pub fn year_number(date: i32) -> (year: u32)
    requires
        date >= 1,
    ensures
        year == spec_year_number(date as int),
{
    ((date - 1) / DAYS_PER_YEAR) as u32
}

/// A date as the stock tables print it: the day of the week, the season, the day of the
/// season and the year, the last two counted from 1. A date below 1 is no day of the
/// calendar and prints as a fixed word.
pub open spec fn spec_format_date(date: int) -> Seq<char> {
    if date <= 0 {
        "UNEXPECTED"@
    } else {
        spec_weekday_name(spec_day_of_week(date)) + " "@ + spec_season_label(
            spec_season_number(date),
        ) + " "@ + spec_decimal((spec_day_number(date) + 1) as nat) + ", Year "@ + spec_decimal(
            (spec_year_number(date) + 1) as nat,
        )
    }
}

/// A date as the stock tables print it.
pub fn format_date(date: i32) -> (text: String)
    ensures
        text@ == spec_format_date(date as int),
{
    if date <= 0 {
        return String::from_str("UNEXPECTED");
    }
    let mut text: String = String::from_str(day_name(date));
    text.append(" ");
    text.append(season_name(date));
    text.append(" ");
    append_decimal(&mut text, day_number(date) as u32 + 1);
    text.append(", Year ");
    append_decimal(&mut text, year_number(date) + 1);
    text
}

/// The date of a day given by its year, season and day of the season, each counted from 1.
pub open spec fn spec_compose_date(year: int, season: int, day: int) -> int {
    (year - 1) * 112 + (season - 1) * 28 + day
}

/// The date of the day that the player picked, or nothing while one of the three parts is
/// outside the calendar: the year 0, a season that is not one of the four, a day that is not
/// one of the 28.
pub fn compose_date(year: u16, season: u8, day: u8) -> (date: Option<i32>)
    ensures
        year >= 1 && 1 <= season <= 4 && 1 <= day <= 28 ==> date == Some(
            spec_compose_date(year as int, season as int, day as int) as i32,
        ),
        !(year >= 1 && 1 <= season <= 4 && 1 <= day <= 28) ==> date is None,
{
    if year >= 1 && 1 <= season && season <= 4 && 1 <= day && day <= 28 {
        Some((year as i32 - 1) * DAYS_PER_YEAR + (season as i32 - 1) * DAYS_PER_SEASON + day as i32)
    } else {
        None
    }
}

/// Taking a date apart gives back the year, season and day it was composed from.
pub proof fn lemma_compose_date_parts(year: int, season: int, day: int)
    requires
        year >= 1,
        1 <= season <= 4,
        1 <= day <= 28,
    ensures
        spec_compose_date(year, season, day) >= 1,
        spec_year_number(spec_compose_date(year, season, day)) == year - 1,
        spec_season_number(spec_compose_date(year, season, day)) == season - 1,
        spec_day_number(spec_compose_date(year, season, day)) == day - 1,
{
}

/// The calendar repeats: a season later the day of the season and the day of the week are
/// the same, and the season is the next of the four.
pub proof fn lemma_next_season(date: int)
    ensures
        spec_day_number(date + 28) == spec_day_number(date),
        spec_day_of_week(date + 28) == spec_day_of_week(date),
        spec_season_number(date + 28) == (spec_season_number(date) + 1) % 4,
        spec_day_of_week(date) == (date - 1) % 7,
        spec_year_number(date + 112) == spec_year_number(date) + 1,
{
}

} // verus!
