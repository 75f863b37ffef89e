//! The store on SQLite.
//!
//! One connection serves every caller. It sits behind a lock, and every
//! operation takes the lock for as long as it talks to the database, reads
//! included: at most one caller touches the connection at a time.

use crate::commands::{AddAccountCommand, AddUserCommand};
use crate::config::SqliteConfiguration;
use crate::error::StoreError;
use crate::models::account::Account;
use crate::models::date::Date;
use crate::models::moneytransaction::{MoneyTransaction, PaymentType};
use crate::models::record::Record;
use crate::models::user::User;
use crate::providers::bases::engine::{
    bind, connection_of, execute, guard_connection, lock, open_file, open_memory, query_one,
    query_rows, SqlValue,
};
use crate::providers::bases::migrations::sqlitemigrations::migrations;
use crate::providers::bases::movement::{
    new_entry_id, plan_movement, shifted_balance, write_movement,
};
use crate::providers::bases::outcomes::{
    account_found, accounts_found, records_found, row_told, rows_changed, rows_told, told_apart,
    user_added, user_found, users_found,
};
use crate::providers::bases::statements::{
    id_param, insert_account_params, insert_user_params, text_param, update_balance_params,
    DELETE_ACCOUNT, DELETE_USER, INSERT_ACCOUNT, INSERT_USER, SELECT_ACCOUNTS,
    SELECT_ACCOUNT_BY_USER, SELECT_RECORDS_BY_ACCOUNT, SELECT_USERS, SELECT_USER_BY_NUMBER,
    UPDATE_BALANCE,
};
use crate::providers::{AccountProvider, DataProvider, TransactionWorker, UserProvider};
use rusqlite::Connection;
use std::sync::{Arc, Mutex};
use vstd::prelude::*;

verus! {

/// The store on SQLite: the connection behind its lock, and the
/// configuration it was opened with.
#[derive(Debug)]
pub struct SqliteProvider {
    connection: Arc<Mutex<Connection>>,
    config: SqliteConfiguration,
}

/// Opens a connection to where the configuration points.
fn open(config: &SqliteConfiguration) -> (opened: Result<Connection, StoreError>)
    ensures
        opened matches Err(error) ==> error == StoreError::StoreUnavailable,
{
    let opened = if config.memory_base {
        open_memory()
    } else {
        open_file(config.connection_string.as_str())
    };
    match opened {
        Ok(conn) => Ok(conn),
        Err(_) => Err(StoreError::StoreUnavailable),
    }
}

impl SqliteProvider {
    /// The configuration the store was opened with.
    pub closed spec fn config(&self) -> SqliteConfiguration {
        self.config
    }

    /// Opens the store: the database file at the configured path, which is
    /// created where there is none, or a new in-memory database. With
    /// `apply_migrations` the steps of the schema are validated and the
    /// database is brought up to date before the store is handed out. A
    /// store that cannot be opened is `StoreUnavailable`; steps that are not
    /// valid or cannot be applied are `MigrationFailed`.
    pub fn new(config: &SqliteConfiguration, apply_migrations: bool) -> (opened: Result<
        Self,
        StoreError,
    >)
        ensures
            opened matches Ok(store) ==> store.config().connection_string@
                == config.connection_string@ && store.config().memory_base == config.memory_base,
            opened matches Err(error) ==> error is StoreUnavailable || (apply_migrations
                && error is MigrationFailed),
    {
        let mut conn = match open(config) {
            Ok(conn) => conn,
            Err(error) => {
                return Err(error);
            },
        };
        if apply_migrations {
            let steps = migrations();
            match steps.validate() {
                Ok(()) => {},
                Err(error) => {
                    return Err(error);
                },
            }
            match steps.to_latest(&mut conn) {
                Ok(()) => {},
                Err(error) => {
                    return Err(error);
                },
            }
        }
        Ok(
            Self {
                connection: Arc::new(guard_connection(conn)),
                config: SqliteConfiguration {
                    connection_string: config.connection_string.clone(),
                    memory_base: config.memory_base,
                },
            },
        )
    }

    /// A second store on the same configuration, with a connection of its
    /// own. On a file it sees the same database; on an in-memory
    /// configuration it starts with a new, empty database. No migrations are
    /// applied.
    pub fn try_clone(&self) -> (cloned: Result<Self, StoreError>)
        ensures
            cloned matches Ok(store) ==> store.config().connection_string@
                == self.config().connection_string@ && store.config().memory_base
                == self.config().memory_base,
            cloned matches Err(error) ==> error is StoreUnavailable,
    {
        Self::new(&self.config, false)
    }

    /// Runs `query` with exclusive access to the connection: waits until no
    /// other caller holds it, hands it to `query`, and gives it up when
    /// `query` has returned, whatever it returned. The answer is what
    /// `query` answered. A lock that a panic has poisoned is
    /// `LockUnavailable`, and `query` is not run. `query` must not ask this
    /// store for the connection again: it would wait for itself.
    pub fn execute_query<F, T>(&self, query: F) -> (answer: Result<T, StoreError>) where
        F: FnOnce(&Connection) -> Result<T, StoreError>,

        requires
            forall|conn: &Connection| call_requires(query, (conn,)),
        ensures
            answer matches Err(StoreError::LockUnavailable) || exists|conn: &Connection|
                call_ensures(query, (conn,), answer),
    {
        match lock(&self.connection) {
            Some(held) => query(connection_of(&held)),
            None => Err(StoreError::LockUnavailable),
        }
    }

    /// The ledger entries of the account with the id of the given one, in
    /// the order in which the store returns them.
    pub fn get_records(&self, account: &Account) -> (records: Result<Vec<Record>, StoreError>)
        ensures
            records matches Err(error) ==> error is QueryFailed || error is LockUnavailable,
    {
        let params = bind(&id_param(account.id));
        let query = |connection: &Connection| -> (records: Result<Vec<Record>, StoreError>)
            ensures
                records matches Err(error) ==> error is QueryFailed,
            {
                records_found(rows_told(query_rows(connection, SELECT_RECORDS_BY_ACCOUNT, &params)))
            };
        self.execute_query(query)
    }
}

impl UserProvider for SqliteProvider {
    fn add_user(&self, add_user_command: &AddUserCommand) -> (added: Result<(), StoreError>) {
        let today = Date::today();
        let params = bind(&insert_user_params(add_user_command, &today));
        let query = |connection: &Connection| -> (added: Result<(), StoreError>)
            ensures
                added matches Err(error) ==> error is UniqueViolation || error is QueryFailed,
            {
                user_added(told_apart(execute(connection, INSERT_USER, &params)))
            };
        self.execute_query(query)
    }

    fn get_users(&self) -> (users: Result<Vec<User>, StoreError>) {
        let none: Vec<SqlValue> = Vec::new();
        let params = bind(&none);
        let query = |connection: &Connection| -> (users: Result<Vec<User>, StoreError>)
            ensures
                users matches Err(error) ==> error is QueryFailed,
            {
                users_found(rows_told(query_rows(connection, SELECT_USERS, &params)))
            };
        self.execute_query(query)
    }

    fn get_user_by_number(&self, number: &str) -> (user: Result<User, StoreError>) {
        let params = bind(&text_param(number));
        let query = |connection: &Connection| -> (user: Result<User, StoreError>)
            ensures
                user matches Ok(found) ==> found.number@ == number@,
                user matches Err(error) ==> error is NotFound || error is QueryFailed,
            {
                user_found(row_told(query_one(connection, SELECT_USER_BY_NUMBER, &params)), number)
            };
        self.execute_query(query)
    }

    fn delete_user_by_id(&self, id: i32) -> (deleted: Result<(), StoreError>) {
        let params = bind(&id_param(id));
        let query = |connection: &Connection| -> (deleted: Result<(), StoreError>)
            ensures
                deleted matches Err(error) ==> error is QueryFailed,
            {
                rows_changed(told_apart(execute(connection, DELETE_USER, &params)))
            };
        self.execute_query(query)
    }
}

impl AccountProvider for SqliteProvider {
    fn search_account_by_user(&self, user: &User) -> (account: Result<Account, StoreError>) {
        let params = bind(&id_param(user.id));
        let query = |connection: &Connection| -> (account: Result<Account, StoreError>)
            ensures
                account matches Ok(found) ==> found.user_id == user.id,
                account matches Err(error) ==> error is NotFound || error is QueryFailed,
            {
                account_found(
                    row_told(query_one(connection, SELECT_ACCOUNT_BY_USER, &params)),
                    user.id,
                )
            };
        self.execute_query(query)
    }

    fn add_account(&self, add_account_command: &AddAccountCommand) -> (added: Result<
        (),
        StoreError,
    >) {
        let today = Date::today();
        let params = bind(&insert_account_params(add_account_command, &today));
        let query = |connection: &Connection| -> (added: Result<(), StoreError>)
            ensures
                added matches Err(error) ==> error is QueryFailed,
            {
                rows_changed(told_apart(execute(connection, INSERT_ACCOUNT, &params)))
            };
        self.execute_query(query)
    }

    fn delete_account(&self, account: &Account) -> (deleted: Result<(), StoreError>) {
        let params = bind(&id_param(account.id));
        let query = |connection: &Connection| -> (deleted: Result<(), StoreError>)
            ensures
                deleted matches Err(error) ==> error is QueryFailed,
            {
                rows_changed(told_apart(execute(connection, DELETE_ACCOUNT, &params)))
            };
        self.execute_query(query)
    }

    fn set_balance(&self, account_id: i32, new_balance: i64) -> (set: Result<(), StoreError>) {
        let params = bind(&update_balance_params(account_id, new_balance));
        let query = |connection: &Connection| -> (set: Result<(), StoreError>)
            ensures
                set matches Err(error) ==> error is QueryFailed,
            {
                rows_changed(told_apart(execute(connection, UPDATE_BALANCE, &params)))
            };
        self.execute_query(query)
    }

    fn change_money(&self, account: &Account, payment_count: i64) -> (changed: Result<
        (),
        StoreError,
    >) {
        match shifted_balance(account.money, payment_count) {
            Ok(balance) => self.set_balance(account.id, balance),
            Err(error) => Err(error),
        }
    }

    fn get_accounts(&self) -> (accounts: Result<Vec<Account>, StoreError>) {
        let none: Vec<SqlValue> = Vec::new();
        let params = bind(&none);
        let query = |connection: &Connection| -> (accounts: Result<Vec<Account>, StoreError>)
            ensures
                accounts matches Err(error) ==> error is QueryFailed,
            {
                accounts_found(rows_told(query_rows(connection, SELECT_ACCOUNTS, &params)))
            };
        self.execute_query(query)
    }
}

impl TransactionWorker for SqliteProvider {
    fn execute_transaction(&self, transaction: &MoneyTransaction) -> (booked: Result<
        (),
        StoreError,
    >) {
        match transaction.payment_type {
            PaymentType::Unknown => {
                return Err(StoreError::InvalidPaymentType);
            },
            _ => {},
        }
        let plan = match plan_movement(transaction, new_entry_id()) {
            Ok(plan) => plan,
            Err(error) => {
                return Err(error);
            },
        };
        let query = |connection: &Connection| -> (booked: Result<(), StoreError>)
            ensures
                booked matches Err(error) ==> error is QueryFailed,
            {
                write_movement(connection, &plan)
            };
        self.execute_query(query)
    }
}

impl DataProvider for SqliteProvider {

}

} // verus!
