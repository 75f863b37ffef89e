//! The failures a store reports to its callers.

use vstd::prelude::*;

verus! {

/// Why an operation of the store did not succeed. None of these is retried
/// inside the library.
#[derive(Clone, Copy, Debug, PartialEq, Eq, Structural)]
pub enum StoreError {
    /// The physical store could not be opened or created.
    StoreUnavailable,
    /// The migration steps are inconsistent, or applying them failed.
    MigrationFailed,
    /// The external number is already taken by another user.
    UniqueViolation,
    /// A lookup for exactly one row matched none, or more than one.
    NotFound,
    /// A statement was refused, or its result could not be read.
    QueryFailed,
    /// Exclusive access to the connection could not be obtained.
    LockUnavailable,
    /// A money movement carries no meaningful payment type.
    InvalidPaymentType,
    /// A money movement would leave the range in which balances are kept.
    BalanceOutOfRange,
}

impl StoreError {
    /// A sentence that says what went wrong.
    pub fn message(&self) -> (text: &'static str)
        ensures
            text@ == self.spec_message(),
    {
        match self {
            StoreError::StoreUnavailable => "the store cannot be opened",
            StoreError::MigrationFailed => "the schema cannot be brought up to date",
            StoreError::UniqueViolation => "the number is already in use",
            StoreError::NotFound => "no single row matches",
            StoreError::QueryFailed => "the statement failed",
            StoreError::LockUnavailable => "the connection cannot be locked",
            StoreError::InvalidPaymentType => "the payment type is unknown",
            StoreError::BalanceOutOfRange => "the amount is out of range",
        }
    }

    /// The sentence for each failure.
    pub open spec fn spec_message(&self) -> Seq<char> {
        match self {
            StoreError::StoreUnavailable => "the store cannot be opened"@,
            StoreError::MigrationFailed => "the schema cannot be brought up to date"@,
            StoreError::UniqueViolation => "the number is already in use"@,
            StoreError::NotFound => "no single row matches"@,
            StoreError::QueryFailed => "the statement failed"@,
            StoreError::LockUnavailable => "the connection cannot be locked"@,
            StoreError::InvalidPaymentType => "the payment type is unknown"@,
            StoreError::BalanceOutOfRange => "the amount is out of range"@,
        }
    }

    /// The sentence as an owned string.
    pub fn to_string(&self) -> (text: String)
        ensures
            text@ == self.spec_message(),
    {
        self.message().to_string()
    }
}

} // verus!
