//! What a caller hands over to have something created.

use vstd::prelude::*;

verus! {

/// The request to add a user: a display name and the number by which the
/// outside world knows the user.
#[derive(Clone, Debug)]
pub struct AddUserCommand {
    pub user_name: String,
    pub user_number: String,
}

impl AddUserCommand {
    /// The request to add a user with the given name and number.
    pub fn new(name: &str, number: &str) -> (command: Self)
        ensures
            command.user_name@ == name@,
            command.user_number@ == number@,
    {
        Self { user_name: name.to_string(), user_number: number.to_string() }
    }
}

/// The request to add an account: the user it belongs to, its name, and the
/// balance it starts with, in whole minor units.
#[derive(Clone, Debug)]
pub struct AddAccountCommand {
    pub user_id: i32,
    pub account_name: String,
    pub initial_balance: i64,
}

} // verus!
