//! The capabilities of a store: users, accounts, and money movements.
//!
//! Each capability is a trait of its own, so that a store may offer one
//! without the others, and so that a caller can be handed any store that
//! offers what it needs. A store answers every call with a typed result and
//! retries nothing.

use crate::commands::{AddAccountCommand, AddUserCommand};
use crate::error::StoreError;
use crate::models::account::Account;
use crate::models::moneytransaction::MoneyTransaction;
use crate::models::user::User;
use crate::providers::bases::movement::movement_in_range;
use vstd::prelude::*;

pub mod bases;

verus! {

/// A store that offers all three capabilities.
pub trait DataProvider: UserProvider + AccountProvider + TransactionWorker {

}

/// Adding, listing, finding and deleting users.
pub trait UserProvider: Send + Sync {
    /// Adds a user. The store assigns the id and the day of creation. A
    /// number that another user has already is a `UniqueViolation`.
    fn add_user(&self, add_user_command: &AddUserCommand) -> (added: Result<(), StoreError>)
        ensures
            added matches Err(error) ==> error is UniqueViolation || error is QueryFailed
                || error is LockUnavailable,
    ;

    /// All users, in the order in which the store returns them.
    fn get_users(&self) -> (users: Result<Vec<User>, StoreError>)
        ensures
            users matches Err(error) ==> error is QueryFailed || error is LockUnavailable,
    ;

    /// The one user with the given external number. No such user, or more
    /// than one, is `NotFound`.
    fn get_user_by_number(&self, number: &str) -> (user: Result<User, StoreError>)
        ensures
            user matches Ok(found) ==> found.number@ == number@,
            user matches Err(error) ==> error is NotFound || error is QueryFailed
                || error is LockUnavailable,
    ;

    /// Deletes the user with the given id. Deleting a user that is not there
    /// is no error.
    fn delete_user_by_id(&self, id: i32) -> (deleted: Result<(), StoreError>)
        ensures
            deleted matches Err(error) ==> error is QueryFailed || error is LockUnavailable,
    ;
}

/// Adding, listing, finding and deleting accounts, and setting a balance.
pub trait AccountProvider: Send + Sync {
    /// The one account of the given user. No such account, or more than one,
    /// is `NotFound`.
    fn search_account_by_user(&self, user: &User) -> (account: Result<Account, StoreError>)
        ensures
            account matches Ok(found) ==> found.user_id == user.id,
            account matches Err(error) ==> error is NotFound || error is QueryFailed
                || error is LockUnavailable,
    ;

    /// Adds an account. The store assigns the id and the day of creation.
    fn add_account(&self, add_account_command: &AddAccountCommand) -> (added: Result<
        (),
        StoreError,
    >)
        ensures
            added matches Err(error) ==> error is QueryFailed || error is LockUnavailable,
    ;

    /// Deletes the account with the id of the given one. Deleting an account
    /// that is not there is no error.
    fn delete_account(&self, account: &Account) -> (deleted: Result<(), StoreError>)
        ensures
            deleted matches Err(error) ==> error is QueryFailed || error is LockUnavailable,
    ;

    /// Sets the balance of the account with the given id to `new_balance`,
    /// whatever the store held before. It is the raw write behind a money
    /// movement and leaves nothing in the ledger: money is moved with
    /// [`TransactionWorker::execute_transaction`].
    fn set_balance(&self, account_id: i32, new_balance: i64) -> (set: Result<(), StoreError>)
        ensures
            set matches Err(error) ==> error is QueryFailed || error is LockUnavailable,
    ;

    /// Sets the balance of the account to the balance that the caller holds
    /// plus `payment_count`, whatever the store held before. A balance
    /// outside the range in which balances are kept is refused.
    fn change_money(&self, account: &Account, payment_count: i64) -> (changed: Result<
        (),
        StoreError,
    >)
        ensures
            !(i64::MIN <= account.money + payment_count <= i64::MAX) <==> changed == Err::<
                (),
                StoreError,
            >(StoreError::BalanceOutOfRange),
            changed matches Err(error) ==> error is BalanceOutOfRange || error is QueryFailed
                || error is LockUnavailable,
    ;

    /// All accounts, in the order in which the store returns them.
    fn get_accounts(&self) -> (accounts: Result<Vec<Account>, StoreError>)
        ensures
            accounts matches Err(error) ==> error is QueryFailed || error is LockUnavailable,
    ;
}

/// Booking money movements.
pub trait TransactionWorker: Send + Sync {
    /// Books a movement on the account that the transaction carries: the
    /// balance becomes the carried balance plus the magnitude for income,
    /// minus the magnitude for outcome, and an entry with a fresh identifier
    /// goes to the ledger. Both are written or neither is. A movement
    /// without a direction is rejected, and so is one that leaves the range
    /// in which money is kept.
    fn execute_transaction(&self, transaction: &MoneyTransaction) -> (booked: Result<
        (),
        StoreError,
    >)
        ensures
            transaction.payment_type is Unknown <==> booked == Err::<(), StoreError>(
                StoreError::InvalidPaymentType,
            ),
            !(transaction.payment_type is Unknown) && !movement_in_range(
                transaction.account.money as int,
                transaction.payment_type,
                transaction.amount as int,
            ) <==> booked == Err::<(), StoreError>(StoreError::BalanceOutOfRange),
            booked matches Err(error) ==> error is InvalidPaymentType || error is BalanceOutOfRange
                || error is QueryFailed || error is LockUnavailable,
    ;
}

} // verus!
