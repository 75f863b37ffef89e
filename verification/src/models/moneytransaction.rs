//! Money movements as a caller asks for them.

use crate::models::account::Account;
use crate::models::date::Timestamp;
use crate::models::user::User;
use vstd::prelude::*;

verus! {

/// The direction of a money movement. `Unknown` is the absence of a
/// direction and is never booked.
#[derive(Clone, Copy, Debug, PartialEq, Eq, Structural)]
pub enum PaymentType {
    Unknown,
    Income,
    Outcome,
}

impl PaymentType {
    /// The number under which the store records a payment type.
    pub open spec fn spec_code(self) -> int {
        match self {
            PaymentType::Unknown => 0,
            PaymentType::Income => 1,
            PaymentType::Outcome => 2,
        }
    }

    /// The number under which the store records this payment type: 1 for
    /// income, 2 for outcome, 0 for unknown.
    pub fn code(&self) -> (code: i64)
        ensures
            code == self.spec_code(),
    {
        match self {
            PaymentType::Unknown => 0,
            PaymentType::Income => 1,
            PaymentType::Outcome => 2,
        }
    }
}

/// The request to move money on an account: a magnitude in whole minor units,
/// a direction, what it was for and to whom it went. The account is the
/// snapshot the caller holds; its balance is the balance the movement starts
/// from.
#[derive(Clone, Debug)]
pub struct MoneyTransaction {
    pub id: String,
    pub amount: u64,
    pub description: String,
    pub user: User,
    pub account: Account,
    pub payment_type: PaymentType,
    pub payment_target: String,
    pub create_date: Timestamp,
}

} // verus!
