//! Accounts: a user's named pools of money.

use crate::models::date::{is_calendar_date, Date};
use vstd::prelude::*;

verus! {

/// An account: the id the store assigned, the id of the user it belongs to,
/// its name, its balance in whole minor units, and the day it was created.
#[derive(Clone, Debug)]
pub struct Account {
    pub id: i32,
    pub user_id: i32,
    pub name: String,
    pub money: i64,
    pub creation_date: Date,
}

impl Account {
    /// An account that the store has not seen yet: its id is 0 and it is
    /// dated today, which is a day of the calendar and none before 1970.
    pub fn new(user_id: i32, name: String, money: i64) -> (account: Self)
        ensures
            account.id == 0,
            account.user_id == user_id,
            account.name@ == name@,
            account.money == money,
            is_calendar_date(
                account.creation_date@.0,
                account.creation_date@.1,
                account.creation_date@.2,
            ),
            account.creation_date@.0 >= 1970,
    {
        Self::from_exist(0, user_id, name, money, Date::today())
    }

    /// An account as the store holds it.
    pub fn from_exist(id: i32, user_id: i32, name: String, money: i64, creation_date: Date) -> (account:
        Self)
        ensures
            account.id == id,
            account.user_id == user_id,
            account.name@ == name@,
            account.money == money,
            account.creation_date == creation_date,
    {
        Self { id, user_id, name, money, creation_date }
    }
}

} // verus!
