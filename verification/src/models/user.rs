//! Users of the ledger.

use crate::models::date::{is_calendar_date, spec_parse_date, Date};
use vstd::prelude::*;

verus! {

/// A user: the id the store assigned, the number by which the outside world
/// knows them, a display name and the day they were created.
#[derive(Clone, Debug)]
pub struct User {
    pub id: i32,
    pub name: String,
    pub number: String,
    pub creation_date: Date,
}

/// The creation date a user gets from the date that was read, if one was:
/// where none was read, the day of creation is taken to be `fallback`.
pub open spec fn creation_date_of(parsed: Option<Date>, fallback: Date) -> Date {
    match parsed {
        Some(date) => date,
        None => fallback,
    }
}

impl User {
    /// A user without an external number yet. `create_date` is read as a
    /// date; where it does not hold one, the user is dated today, which is
    /// a day of the calendar and none before 1970.
    pub fn new(id: i32, name: String, create_date: String) -> (user: Self)
        ensures
            user.id == id,
            user.name@ == name@,
            user.number@ == Seq::<char>::empty(),
            match spec_parse_date(create_date@) {
                Some(parts) => user.creation_date@ == parts,
                None => user.creation_date@.0 >= 1970,
            },
            is_calendar_date(
                user.creation_date@.0,
                user.creation_date@.1,
                user.creation_date@.2,
            ),
    {
        Self::from_exist(id, name, String::new(), create_date)
    }

    /// A user as the store holds it. `create_date` is read as a date; where
    /// it does not hold one, the user is dated today, which is a day of the
    /// calendar and none before 1970.
    pub fn from_exist(id: i32, name: String, number: String, create_date: String) -> (user: Self)
        ensures
            user.id == id,
            user.name@ == name@,
            user.number@ == number@,
            match spec_parse_date(create_date@) {
                Some(parts) => user.creation_date@ == parts,
                None => user.creation_date@.0 >= 1970,
            },
            is_calendar_date(
                user.creation_date@.0,
                user.creation_date@.1,
                user.creation_date@.2,
            ),
    {
        let parsed = Date::parse(create_date.as_str());
        match parsed {
            Some(date) => Self::dated(id, name, number, Some(date), date),
            None => Self::dated(id, name, number, None, Date::today()),
        }
    }

    /// A user dated by what was read of its creation date, or by `fallback`
    /// where nothing was read.
    pub fn dated(id: i32, name: String, number: String, parsed: Option<Date>, fallback: Date) -> (user:
        Self)
        ensures
            user.id == id,
            user.name@ == name@,
            user.number@ == number@,
            user.creation_date == creation_date_of(parsed, fallback),
    {
        let creation_date = match parsed {
            Some(date) => date,
            None => fallback,
        };
        Self { id, name, number, creation_date }
    }
}

} // verus!
