//! The main storage of money data, put together from the three capabilities.

use crate::commands::AddUserCommand;
use crate::error::StoreError;
use crate::models::user::User;
use crate::providers::{AccountProvider, TransactionWorker, UserProvider};
use vstd::prelude::*;

verus! {

/// A storage that takes its users, its accounts and its money movements from
/// three providers, which may be one store or three.
pub struct MoneyStorage<TU, TA, TW> where TU: UserProvider, TA: AccountProvider, TW: TransactionWorker {
    user_provider: TU,
    account_provider: TA,
    transaction_worker: TW,
}

impl<TU: UserProvider, TA: AccountProvider, TW: TransactionWorker> MoneyStorage<TU, TA, TW> {
    /// The provider of users.
    pub closed spec fn user_provider(&self) -> TU {
        self.user_provider
    }

    /// The provider of accounts.
    pub closed spec fn account_provider(&self) -> TA {
        self.account_provider
    }

    /// The worker that books money movements.
    pub closed spec fn transaction_worker(&self) -> TW {
        self.transaction_worker
    }

    /// The storage on the given providers.
    pub fn new(user_provider: TU, account_provider: TA, transaction_worker: TW) -> (storage: Self)
        ensures
            storage.user_provider() == user_provider,
            storage.account_provider() == account_provider,
            storage.transaction_worker() == transaction_worker,
    {
        Self { user_provider, account_provider, transaction_worker }
    }

    /// Adds a user with the given external number and name, and gives the
    /// user back as the provider then holds it, with the id it assigned.
    pub fn create_user(&self, number: &str, name: &str) -> (created: Result<User, StoreError>)
        ensures
            created matches Ok(user) ==> user.number@ == number@,
            created matches Err(error) ==> error is UniqueViolation || error is NotFound
                || error is QueryFailed || error is LockUnavailable,
    {
        let command = AddUserCommand::new(name, number);
        match self.user_provider.add_user(&command) {
            Ok(()) => self.user_provider.get_user_by_number(number),
            Err(error) => Err(error),
        }
    }
}

} // verus!
