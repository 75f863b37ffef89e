//! Money movements as the ledger holds them.

use crate::models::date::Timestamp;
use vstd::prelude::*;

verus! {

/// The direction of a booked money movement.
#[derive(Clone, Copy, Debug, PartialEq, Eq, Structural)]
pub enum PaymentType {
    Income,
    Outcome,
}

impl PaymentType {
    /// The number under which the store records a payment type.
    pub open spec fn spec_code(self) -> int {
        match self {
            PaymentType::Income => 1,
            PaymentType::Outcome => 2,
        }
    }

    /// The payment type recorded under a number, if there is one.
    pub open spec fn spec_from_code(code: int) -> Option<PaymentType> {
        if code == 1 {
            Some(PaymentType::Income)
        } else if code == 2 {
            Some(PaymentType::Outcome)
        } else {
            None
        }
    }

    /// The payment type recorded under `code`: income under 1, outcome under
    /// 2, none under any other number.
    pub fn from_code(code: i64) -> (payment_type: Option<PaymentType>)
        ensures
            payment_type == Self::spec_from_code(code as int),
    {
        if code == 1 {
            Some(PaymentType::Income)
        } else if code == 2 {
            Some(PaymentType::Outcome)
        } else {
            None
        }
    }
}

/// One entry of the ledger: its identifier, the magnitude of the movement in
/// whole minor units, what it was for, its direction, and when it was asked
/// for. An entry is written once and never changed.
#[derive(Clone, Debug)]
pub struct Record {
    pub id: String,
    pub amount: u64,
    pub description: String,
    pub payment_type: PaymentType,
    pub create_date: Timestamp,
}

} // verus!
