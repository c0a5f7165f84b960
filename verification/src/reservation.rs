//! Court reservations: the calendar date model, the stored records, and the
//! decisions of the reservation endpoints.

use vstd::prelude::*;
use crate::error::ApiError;
use crate::utils::gen_id;

verus! {

/// A calendar date, held as plain year, month and day.
#[derive(Clone, Copy, Debug, PartialEq, Eq, Structural)]
pub struct Date {
    pub year: i32,
    pub month: u8,
    pub day: u8,
}

/// A leap year: every fourth year, except every hundredth, except every four
/// hundredth.
pub open spec fn spec_is_leap_year(y: int) -> bool {
    (y % 4 == 0 && y % 100 != 0) || y % 400 == 0
}

/// How many days the month has in the given year.
pub open spec fn spec_days_in_month(y: int, m: int) -> int {
    if m == 2 {
        if spec_is_leap_year(y) {
            29
        } else {
            28
        }
    } else if m == 4 || m == 6 || m == 9 || m == 11 {
        30
    } else {
        31
    }
}

/// A date names a real day: the month exists and the day fits the month.
pub open spec fn spec_valid_date(d: Date) -> bool {
    &&& 1 <= d.month <= 12
    &&& 1 <= d.day <= spec_days_in_month(d.year as int, d.month as int)
}

impl Date {
    /// Whether the year is a leap year.
    pub fn is_leap_year(year: i32) -> (r: bool)
        ensures
            r == spec_is_leap_year(year as int),
    {
        (year % 4 == 0 && year % 100 != 0) || year % 400 == 0
    }

    /// How many days the month has in the given year.
    pub fn days_in_month(year: i32, month: u8) -> (r: u8)
        requires
            1 <= month <= 12,
        ensures
            r == spec_days_in_month(year as int, month as int),
    {
        if month == 2 {
            if Date::is_leap_year(year) {
                29
            } else {
                28
            }
        } else if month == 4 || month == 6 || month == 9 || month == 11 {
            30
        } else {
            31
        }
    }

    /// The date with these parts, exactly when they name a real day.
    pub fn from_ymd(year: i32, month: u8, day: u8) -> (r: Option<Date>)
        ensures
            spec_valid_date(Date { year, month, day }) ==> r == Some(Date { year, month, day }),
            !spec_valid_date(Date { year, month, day }) ==> r is None,
{
        if 1 <= month && month <= 12 && 1 <= day && day <= Date::days_in_month(year, month) {
            Some(Date { year, month, day })
        } else {
            None
        }
    }
}

/// A stored reservation: a court, a date and an hour slot, held by a member.
#[derive(Debug)]
pub struct Reservation {
    pub id: String,
    pub member_id: String,
    pub court_number: i16,
    pub reservation_date: Date,
    pub reservation_time: i16,
}

/// A reservation joined with the holding member's names, as the per-day
/// listing answers it.
#[derive(Debug)]
pub struct ReservationWithNames {
    pub id: String,
    pub member_id: String,
    pub court_number: i16,
    pub reservation_date: Date,
    pub reservation_time: i16,
    pub member_first_name: String,
    pub member_last_name: String,
}

/// The payload for creating or updating a reservation.
pub struct ReservationPayload {
    pub id: String,
    pub member_id: String,
    pub court_number: i16,
    pub reservation_date: Date,
    pub reservation_time: i16,
}

/// The record to insert for a reservation: the payload's fields, with an
/// empty id replaced by a fresh 6-character one.
pub fn prepare_reservation(payload: ReservationPayload) -> (r: Reservation)
    ensures
        payload.id@.len() > 0 ==> r.id@ == payload.id@,
        payload.id@.len() == 0 ==> r.id@.len() == 6,
        r.member_id@ == payload.member_id@,
        r.court_number == payload.court_number,
        r.reservation_date == payload.reservation_date,
        r.reservation_time == payload.reservation_time,
{
    let id: String = if payload.id.as_str().is_empty() {
        gen_id()
    } else {
        payload.id
    };
    Reservation {
        id,
        member_id: payload.member_id,
        court_number: payload.court_number,
        reservation_date: payload.reservation_date,
        reservation_time: payload.reservation_time,
    }
}

/// How a reservation lookup answers: a record that the store could not hand
/// back, whatever the reason, is a missing resource.
pub fn reservation_found(lookup: Option<Reservation>) -> (r: Result<Reservation, ApiError>)
    ensures
        lookup is None ==> r == Err::<Reservation, ApiError>(ApiError::NotFound),
        lookup matches Some(v) ==> r == Ok::<Reservation, ApiError>(v),
{
    match lookup {
        Some(v) => Ok(v),
        None => Err(ApiError::NotFound),
    }
}

/// A junction row tying a reservation to a member.
pub struct ReservationToMember {
    pub reservation_id: String,
    pub member_id: String,
}

/// How a listing of related ids answers: an empty list is a missing
/// resource, anything else is handed back as it came.
pub fn nonempty_ids(ids: Vec<u128>) -> (r: Result<Vec<u128>, ApiError>)
    ensures
        ids@.len() == 0 ==> r == Err::<Vec<u128>, ApiError>(ApiError::NotFound),
        ids@.len() > 0 ==> (r matches Ok(v) && v == ids),
{
    if ids.len() == 0 {
        Err(ApiError::NotFound)
    } else {
        Ok(ids)
    }
}

} // verus!
