//! From what the engine answers to what the store reports.
//!
//! What the engine answers to a statement depends on the database it holds.
//! Each function here takes such an answer and says, for every answer there
//! can be, what the store makes of it.

use crate::error::StoreError;
use crate::models::account::Account;
use crate::models::record::Record;
use crate::models::user::User;
use crate::providers::bases::engine::{
    cells_of, describe, engine_cells, read_row, read_rows, spec_failure_kind, DbFailure, SqlCell,
    SqlValue,
};
use crate::providers::bases::rows::{
    account_of_row, account_row_shape, decode_account, decode_accounts, decode_records,
    decode_user, decode_users, record_of_row, record_row_shape, user_of_row, user_row_shape,
};
use vstd::prelude::*;

verus! {

/// SQLite's extended result code for a violated `UNIQUE` constraint.
pub const SQLITE_CONSTRAINT_UNIQUE: i32 = 2067;

/// What a failed insert of a user is reported as: a `UniqueViolation` where
/// the engine names a violated `UNIQUE` constraint (the external number is
/// the one unique column), a `QueryFailed` in every other case.
pub open spec fn spec_user_insert_error(failure: DbFailure) -> StoreError {
    match failure {
        DbFailure::Engine { extended_code } => if extended_code == SQLITE_CONSTRAINT_UNIQUE {
            StoreError::UniqueViolation
        } else {
            StoreError::QueryFailed
        },
        _ => StoreError::QueryFailed,
    }
}

/// What a failed lookup of exactly one row is reported as: `NotFound` where
/// the query found no row or more than one, which are not told apart, and
/// `QueryFailed` in every other case.
pub open spec fn spec_lookup_error(failure: DbFailure) -> StoreError {
    match failure {
        DbFailure::NoRows => StoreError::NotFound,
        DbFailure::TooManyRows => StoreError::NotFound,
        _ => StoreError::QueryFailed,
    }
}

/// What the engine answered, with its failure told apart: the answer itself
/// where there is one, and the kind of the failure where there is none.
pub(crate) fn told_apart<T>(answer: Result<T, rusqlite::Error>) -> (told: Result<T, DbFailure>)
    ensures
        match answer {
            Ok(value) => told == Ok::<T, DbFailure>(value),
            Err(failure) => told == Err::<T, DbFailure>(spec_failure_kind(failure)),
        },
{
    match answer {
        Ok(value) => Ok(value),
        Err(failure) => Err(describe(&failure)),
    }
}

/// The row that the engine answered, as the store reads it: cell by cell
/// what the engine's values hold, or the kind of the failure.
pub(crate) fn row_told(answer: Result<Vec<rusqlite::types::Value>, rusqlite::Error>) -> (told:
    Result<Vec<SqlValue>, DbFailure>)
    ensures
        match answer {
            Ok(row) => told matches Ok(cells) && cells_of(cells@) == engine_cells(row@),
            Err(failure) => told == Err::<Vec<SqlValue>, DbFailure>(spec_failure_kind(failure)),
        },
{
    match answer {
        Ok(row) => Ok(read_row(&row)),
        Err(failure) => Err(describe(&failure)),
    }
}

/// The rows that the engine answered, as the store reads them: row by row
/// and cell by cell what the engine's values hold, or the kind of the
/// failure.
pub(crate) fn rows_told(
    answer: Result<Vec<Vec<rusqlite::types::Value>>, rusqlite::Error>,
) -> (told: Result<Vec<Vec<SqlValue>>, DbFailure>)
    ensures
        match answer {
            Ok(rows) => told matches Ok(read) && read.len() == rows.len() && forall|i: int|
                0 <= i < rows.len() ==> cells_of(#[trigger] read[i]@) == engine_cells(rows[i]@),
            Err(failure) => told == Err::<Vec<Vec<SqlValue>>, DbFailure>(
                spec_failure_kind(failure),
            ),
        },
{
    match answer {
        Ok(rows) => Ok(read_rows(&rows)),
        Err(failure) => Err(describe(&failure)),
    }
}

/// What a failed insert of a user is reported as.
pub fn user_insert_error(failure: DbFailure) -> (error: StoreError)
    ensures
        error == spec_user_insert_error(failure),
{
    match failure {
        DbFailure::Engine { extended_code } => {
            if extended_code == SQLITE_CONSTRAINT_UNIQUE {
                StoreError::UniqueViolation
            } else {
                StoreError::QueryFailed
            }
        },
        _ => StoreError::QueryFailed,
    }
}

/// What a failed lookup of exactly one row is reported as.
pub fn lookup_error(failure: DbFailure) -> (error: StoreError)
    ensures
        error == spec_lookup_error(failure),
{
    match failure {
        DbFailure::NoRows => StoreError::NotFound,
        DbFailure::TooManyRows => StoreError::NotFound,
        _ => StoreError::QueryFailed,
    }
}

/// The report for an insert of a user: done where the statement ran, and the
/// failure as [`spec_user_insert_error`] reads it where it did not.
pub fn user_added(changed: Result<usize, DbFailure>) -> (report: Result<(), StoreError>)
    ensures
        match changed {
            Ok(_) => report is Ok,
            Err(failure) => report == Err::<(), StoreError>(spec_user_insert_error(failure)),
        },
{
    match changed {
        Ok(_) => Ok(()),
        Err(failure) => Err(user_insert_error(failure)),
    }
}

/// The report for any other statement that changes rows: done where the
/// statement ran, whatever the number of rows it changed, none included
/// (deleting what is not there is no error), and `QueryFailed` where it did
/// not run.
pub fn rows_changed(changed: Result<usize, DbFailure>) -> (report: Result<(), StoreError>)
    ensures
        match changed {
            Ok(_) => report is Ok,
            Err(_) => report == Err::<(), StoreError>(StoreError::QueryFailed),
        },
{
    match changed {
        Ok(_) => Ok(()),
        Err(_) => Err(StoreError::QueryFailed),
    }
}

/// The users that a listing found: every row read as a user, in order. A
/// failed query and a row that is no user are `QueryFailed`.
pub fn users_found(answer: Result<Vec<Vec<SqlValue>>, DbFailure>) -> (users: Result<
    Vec<User>,
    StoreError,
>)
    ensures
        match answer {
            Ok(rows) => {
                &&& users is Ok <==> forall|i: int|
                    0 <= i < rows.len() ==> user_row_shape(#[trigger] cells_of(rows[i]@))
                &&& users matches Ok(found) ==> found.len() == rows.len() && forall|i: int|
                    0 <= i < rows.len() ==> user_of_row(found[i], #[trigger] cells_of(rows[i]@))
                &&& users matches Err(error) ==> error == StoreError::QueryFailed
            },
            Err(_) => users == Err::<Vec<User>, StoreError>(StoreError::QueryFailed),
        },
{
    match answer {
        Ok(rows) => decode_users(&rows),
        Err(_) => Err(StoreError::QueryFailed),
    }
}

/// The user that a lookup by external number found. No row and more than one
/// row are `NotFound`; a failed query, a row that is no user, and a user with
/// another number than the one asked for are `QueryFailed`.
pub fn user_found(answer: Result<Vec<SqlValue>, DbFailure>, number: &str) -> (user: Result<
    User,
    StoreError,
>)
    ensures
        match answer {
            Ok(row) => if user_row_shape(cells_of(row@)) && cells_of(row@)[2] == SqlCell::Text(
                number@,
            ) {
                user matches Ok(found) && user_of_row(found, cells_of(row@))
            } else {
                user == Err::<User, StoreError>(StoreError::QueryFailed)
            },
            Err(failure) => user == Err::<User, StoreError>(spec_lookup_error(failure)),
        },
{
    match answer {
        Ok(row) => match decode_user(&row) {
            Ok(found) => {
                if found.number == number.to_string() {
                    Ok(found)
                } else {
                    Err(StoreError::QueryFailed)
                }
            },
            Err(error) => Err(error),
        },
        Err(failure) => Err(lookup_error(failure)),
    }
}

/// The accounts that a listing found: every row read as an account, in
/// order. A failed query and a row that is no account are `QueryFailed`.
pub fn accounts_found(answer: Result<Vec<Vec<SqlValue>>, DbFailure>) -> (accounts: Result<
    Vec<Account>,
    StoreError,
>)
    ensures
        match answer {
            Ok(rows) => {
                &&& accounts is Ok <==> forall|i: int|
                    0 <= i < rows.len() ==> account_row_shape(#[trigger] cells_of(rows[i]@))
                &&& accounts matches Ok(found) ==> found.len() == rows.len() && forall|i: int|
                    0 <= i < rows.len() ==> account_of_row(found[i], #[trigger] cells_of(rows[i]@))
                &&& accounts matches Err(error) ==> error == StoreError::QueryFailed
            },
            Err(_) => accounts == Err::<Vec<Account>, StoreError>(StoreError::QueryFailed),
        },
{
    match answer {
        Ok(rows) => decode_accounts(&rows),
        Err(_) => Err(StoreError::QueryFailed),
    }
}

/// The account that a lookup by user found. No row and more than one row are
/// `NotFound`; a failed query, a row that is no account, and an account of
/// another user than the one asked for are `QueryFailed`.
pub fn account_found(answer: Result<Vec<SqlValue>, DbFailure>, user_id: i32) -> (account: Result<
    Account,
    StoreError,
>)
    ensures
        match answer {
            Ok(row) => if account_row_shape(cells_of(row@)) && cells_of(row@)[2]
                == SqlCell::Integer(user_id as int) {
                account matches Ok(found) && account_of_row(found, cells_of(row@))
            } else {
                account == Err::<Account, StoreError>(StoreError::QueryFailed)
            },
            Err(failure) => account == Err::<Account, StoreError>(spec_lookup_error(failure)),
        },
{
    match answer {
        Ok(row) => match decode_account(&row) {
            Ok(found) => {
                if found.user_id == user_id {
                    Ok(found)
                } else {
                    Err(StoreError::QueryFailed)
                }
            },
            Err(error) => Err(error),
        },
        Err(failure) => Err(lookup_error(failure)),
    }
}

/// The ledger entries that a listing found: every row read as an entry, in
/// order. A failed query and a row that is no entry are `QueryFailed`.
pub fn records_found(answer: Result<Vec<Vec<SqlValue>>, DbFailure>) -> (records: Result<
    Vec<Record>,
    StoreError,
>)
    ensures
        match answer {
            Ok(rows) => {
                &&& records is Ok <==> forall|i: int|
                    0 <= i < rows.len() ==> record_row_shape(#[trigger] cells_of(rows[i]@))
                &&& records matches Ok(found) ==> found.len() == rows.len() && forall|i: int|
                    0 <= i < rows.len() ==> record_of_row(found[i], #[trigger] cells_of(rows[i]@))
                &&& records matches Err(error) ==> error == StoreError::QueryFailed
            },
            Err(_) => records == Err::<Vec<Record>, StoreError>(StoreError::QueryFailed),
        },
{
    match answer {
        Ok(rows) => decode_records(&rows),
        Err(_) => Err(StoreError::QueryFailed),
    }
}

} // verus!
