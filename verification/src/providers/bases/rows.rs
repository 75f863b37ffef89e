//! From the rows the engine returns to the values of the model.
//!
//! A row that does not have the shape of what it is read as is a mapping
//! failure: it is reported as `QueryFailed`, never skipped.

use crate::commands::{AddAccountCommand, AddUserCommand};
use crate::error::StoreError;
use crate::models::account::Account;
use crate::models::date::{spec_parse_date, spec_parse_timestamp, Date, Timestamp};
use crate::models::moneytransaction::MoneyTransaction;
use crate::models::record::{PaymentType, Record};
use crate::models::user::User;
use crate::providers::bases::engine::{cells_of, SqlCell, SqlValue};
use crate::providers::bases::movement::ledger_entry;
use crate::providers::bases::statements::{new_account_cells, new_user_cells};
use vstd::prelude::*;

verus! {

/// A cell that holds an id: an integer in the range of ids.
pub open spec fn is_id(cell: SqlCell) -> bool {
    cell matches SqlCell::Integer(i) && i32::MIN <= i <= i32::MAX
}

/// The shape of a row of the users table: id, name, external number and the
/// day of creation as text.
pub open spec fn user_row_shape(cells: Seq<SqlCell>) -> bool {
    &&& cells.len() == 4
    &&& is_id(cells[0])
    &&& cells[1] is Text
    &&& cells[2] is Text
    &&& cells[3] is Text
}

/// Whether `user` is what a row of the users table holds. Where the day of
/// creation cannot be read from the row, the user may carry any day.
pub open spec fn user_of_row(user: User, cells: Seq<SqlCell>) -> bool {
    &&& cells[0] == SqlCell::Integer(user.id as int)
    &&& cells[1] == SqlCell::Text(user.name@)
    &&& cells[2] == SqlCell::Text(user.number@)
    &&& cells[3] matches SqlCell::Text(created) && (spec_parse_date(created) matches Some(parts)
        ==> user.creation_date@ == parts)
}

/// The shape of a row of the accounts table: id, name, the owning user's id,
/// the balance, and the day of creation as a text that holds a date.
pub open spec fn account_row_shape(cells: Seq<SqlCell>) -> bool {
    &&& cells.len() == 5
    &&& is_id(cells[0])
    &&& cells[1] is Text
    &&& is_id(cells[2])
    &&& cells[3] matches SqlCell::Integer(balance) && i64::MIN <= balance <= i64::MAX
    &&& cells[4] matches SqlCell::Text(created) && spec_parse_date(created) is Some
}

/// Whether `account` is what a row of the accounts table holds.
pub open spec fn account_of_row(account: Account, cells: Seq<SqlCell>) -> bool {
    &&& cells[0] == SqlCell::Integer(account.id as int)
    &&& cells[1] == SqlCell::Text(account.name@)
    &&& cells[2] == SqlCell::Integer(account.user_id as int)
    &&& cells[3] == SqlCell::Integer(account.money as int)
    &&& cells[4] matches SqlCell::Text(created) && spec_parse_date(created) == Some(
        account.creation_date@,
    )
}

/// The shape of a ledger entry as it is read back: identifier, magnitude,
/// description, the number of a payment type, and the time of creation as a
/// text that holds a timestamp.
pub open spec fn record_row_shape(cells: Seq<SqlCell>) -> bool {
    &&& cells.len() == 5
    &&& cells[0] is Text
    &&& cells[1] matches SqlCell::Integer(amount) && 0 <= amount <= i64::MAX
    &&& cells[2] is Text
    &&& cells[3] matches SqlCell::Integer(code) && PaymentType::spec_from_code(code) is Some
    &&& cells[4] matches SqlCell::Text(created) && spec_parse_timestamp(created) is Some
}

/// Whether `record` is what a row of the ledger holds.
pub open spec fn record_of_row(record: Record, cells: Seq<SqlCell>) -> bool {
    &&& cells[0] == SqlCell::Text(record.id@)
    &&& cells[1] == SqlCell::Integer(record.amount as int)
    &&& cells[2] == SqlCell::Text(record.description@)
    &&& cells[3] == SqlCell::Integer(record.payment_type.spec_code())
    &&& cells[4] matches SqlCell::Text(created) && spec_parse_timestamp(created) == Some(
        record.create_date@,
    )
}

/// The text in cell `at` of a row, if there is such a cell and it holds text.
pub fn text_at(row: &Vec<SqlValue>, at: usize) -> (text: Option<String>)
    ensures
        match text {
            Some(t) => at < row.len() && row[at as int]@ == SqlCell::Text(t@),
            None => !(at < row.len() && row[at as int]@ is Text),
        },
{
    if at >= row.len() {
        return None;
    }
    match &row[at] {
        SqlValue::Text(t) => Some(t.clone()),
        _ => None,
    }
}

/// The integer in cell `at` of a row, if there is such a cell and it holds
/// an integer.
pub fn integer_at(row: &Vec<SqlValue>, at: usize) -> (number: Option<i64>)
    ensures
        match number {
            Some(i) => at < row.len() && row[at as int]@ == SqlCell::Integer(i as int),
            None => !(at < row.len() && row[at as int]@ is Integer),
        },
{
    if at >= row.len() {
        return None;
    }
    match &row[at] {
        SqlValue::Integer(i) => Some(*i),
        _ => None,
    }
}

/// The id in cell `at` of a row, if there is such a cell and it holds an
/// integer in the range of ids.
pub fn id_at(row: &Vec<SqlValue>, at: usize) -> (id: Option<i32>)
    ensures
        match id {
            Some(i) => at < row.len() && row[at as int]@ == SqlCell::Integer(i as int),
            None => !(at < row.len() && is_id(row[at as int]@)),
        },
{
    match integer_at(row, at) {
        Some(i) => {
            if i < i32::MIN as i64 || i > i32::MAX as i64 {
                None
            } else {
                Some(i as i32)
            }
        },
        None => None,
    }
}

/// Reads a row of the users table. A day of creation that cannot be read as
/// a date is replaced by today.
pub fn decode_user(row: &Vec<SqlValue>) -> (decoded: Result<User, StoreError>)
    ensures
        decoded is Ok <==> user_row_shape(cells_of(row@)),
        decoded matches Ok(user) ==> user_of_row(user, cells_of(row@)),
        decoded matches Err(error) ==> error == StoreError::QueryFailed,
{
    if row.len() != 4 {
        return Err(StoreError::QueryFailed);
    }
    let id = id_at(row, 0);
    let name = text_at(row, 1);
    let number = text_at(row, 2);
    let created = text_at(row, 3);
    match (id, name, number, created) {
        (Some(id), Some(name), Some(number), Some(created)) => Ok(
            User::from_exist(id, name, number, created),
        ),
        _ => Err(StoreError::QueryFailed),
    }
}

/// Reads a row of the accounts table.
pub fn decode_account(row: &Vec<SqlValue>) -> (decoded: Result<Account, StoreError>)
    ensures
        decoded is Ok <==> account_row_shape(cells_of(row@)),
        decoded matches Ok(account) ==> account_of_row(account, cells_of(row@)),
        decoded matches Err(error) ==> error == StoreError::QueryFailed,
{
    if row.len() != 5 {
        return Err(StoreError::QueryFailed);
    }
    let id = id_at(row, 0);
    let name = text_at(row, 1);
    let user_id = id_at(row, 2);
    let money = integer_at(row, 3);
    let created = text_at(row, 4);
    match (id, name, user_id, money, created) {
        (Some(id), Some(name), Some(user_id), Some(money), Some(created)) => {
            match Date::parse(created.as_str()) {
                Some(date) => Ok(Account::from_exist(id, user_id, name, money, date)),
                None => Err(StoreError::QueryFailed),
            }
        },
        _ => Err(StoreError::QueryFailed),
    }
}

/// Reads a ledger entry.
pub fn decode_record(row: &Vec<SqlValue>) -> (decoded: Result<Record, StoreError>)
    ensures
        decoded is Ok <==> record_row_shape(cells_of(row@)),
        decoded matches Ok(record) ==> record_of_row(record, cells_of(row@)),
        decoded matches Err(error) ==> error == StoreError::QueryFailed,
{
    if row.len() != 5 {
        return Err(StoreError::QueryFailed);
    }
    let id = text_at(row, 0);
    let amount = integer_at(row, 1);
    let description = text_at(row, 2);
    let code = integer_at(row, 3);
    let created = text_at(row, 4);
    match (id, amount, description, code, created) {
        (Some(id), Some(amount), Some(description), Some(code), Some(created)) => {
            if amount < 0 {
                return Err(StoreError::QueryFailed);
            }
            match (PaymentType::from_code(code), Timestamp::parse(created.as_str())) {
                (Some(payment_type), Some(create_date)) => Ok(
                    Record { id, amount: amount as u64, description, payment_type, create_date },
                ),
                _ => Err(StoreError::QueryFailed),
            }
        },
        _ => Err(StoreError::QueryFailed),
    }
}

/// Reads every row of a query on the users table, in order. One row that is
/// not a user fails the whole reading.
pub fn decode_users(rows: &Vec<Vec<SqlValue>>) -> (decoded: Result<Vec<User>, StoreError>)
    ensures
        decoded is Ok <==> forall|i: int|
            0 <= i < rows.len() ==> user_row_shape(#[trigger] cells_of(rows[i]@)),
        decoded matches Ok(users) ==> users.len() == rows.len() && forall|i: int|
            0 <= i < rows.len() ==> user_of_row(users[i], #[trigger] cells_of(rows[i]@)),
        decoded matches Err(error) ==> error == StoreError::QueryFailed,
{
    let mut users: Vec<User> = Vec::new();
    let mut at: usize = 0;
    while at < rows.len()
        invariant
            at <= rows.len(),
            users.len() == at,
            forall|i: int| 0 <= i < at ==> user_row_shape(#[trigger] cells_of(rows[i]@)),
            forall|i: int| 0 <= i < at ==> user_of_row(users[i], #[trigger] cells_of(rows[i]@)),
        decreases rows.len() - at,
    {
        match decode_user(&rows[at]) {
            Ok(user) => users.push(user),
            Err(error) => {
                return Err(error);
            },
        }
        at += 1;
    }
    Ok(users)
}

/// Reads every row of a query on the accounts table, in order. One row that
/// is not an account fails the whole reading.
pub fn decode_accounts(rows: &Vec<Vec<SqlValue>>) -> (decoded: Result<Vec<Account>, StoreError>)
    ensures
        decoded is Ok <==> forall|i: int|
            0 <= i < rows.len() ==> account_row_shape(#[trigger] cells_of(rows[i]@)),
        decoded matches Ok(accounts) ==> accounts.len() == rows.len() && forall|i: int|
            0 <= i < rows.len() ==> account_of_row(accounts[i], #[trigger] cells_of(rows[i]@)),
        decoded matches Err(error) ==> error == StoreError::QueryFailed,
{
    let mut accounts: Vec<Account> = Vec::new();
    let mut at: usize = 0;
    while at < rows.len()
        invariant
            at <= rows.len(),
            accounts.len() == at,
            forall|i: int| 0 <= i < at ==> account_row_shape(#[trigger] cells_of(rows[i]@)),
            forall|i: int|
                0 <= i < at ==> account_of_row(accounts[i], #[trigger] cells_of(rows[i]@)),
        decreases rows.len() - at,
    {
        match decode_account(&rows[at]) {
            Ok(account) => accounts.push(account),
            Err(error) => {
                return Err(error);
            },
        }
        at += 1;
    }
    Ok(accounts)
}

/// Reads every entry of a query on the ledger, in order. One row that is not
/// an entry fails the whole reading.
pub fn decode_records(rows: &Vec<Vec<SqlValue>>) -> (decoded: Result<Vec<Record>, StoreError>)
    ensures
        decoded is Ok <==> forall|i: int|
            0 <= i < rows.len() ==> record_row_shape(#[trigger] cells_of(rows[i]@)),
        decoded matches Ok(records) ==> records.len() == rows.len() && forall|i: int|
            0 <= i < rows.len() ==> record_of_row(records[i], #[trigger] cells_of(rows[i]@)),
        decoded matches Err(error) ==> error == StoreError::QueryFailed,
{
    let mut records: Vec<Record> = Vec::new();
    let mut at: usize = 0;
    while at < rows.len()
        invariant
            at <= rows.len(),
            records.len() == at,
            forall|i: int| 0 <= i < at ==> record_row_shape(#[trigger] cells_of(rows[i]@)),
            forall|i: int|
                0 <= i < at ==> record_of_row(records[i], #[trigger] cells_of(rows[i]@)),
        decreases rows.len() - at,
    {
        match decode_record(&rows[at]) {
            Ok(record) => records.push(record),
            Err(error) => {
                return Err(error);
            },
        }
        at += 1;
    }
    Ok(records)
}

/// The row of a table whose first column is the id that the store assigned
/// and whose other columns hold what was written, in the order in which it
/// was written.
pub open spec fn stored_row(id: int, written: Seq<SqlCell>) -> Seq<SqlCell> {
    seq![SqlCell::Integer(id)] + written
}

/// The row of the ledger as it is read back, out of what was written for an
/// entry: identifier, magnitude, description, payment type and time of
/// creation.
pub open spec fn stored_entry(written: Seq<SqlCell>) -> Seq<SqlCell> {
    seq![written[0], written[1], written[2], written[5], written[6]]
}

/// What is written for a new user reads back as that user: a row that holds
/// an id and what was written has the shape of a user, and the user read
/// from it has that id and the name and number of the command.
pub proof fn lemma_added_user_reads_back(
    id: int,
    command: AddUserCommand,
    created: Date,
    user: User,
)
    requires
        i32::MIN <= id <= i32::MAX,
        user_of_row(user, stored_row(id, new_user_cells(command, created))),
    ensures
        user_row_shape(stored_row(id, new_user_cells(command, created))),
        user.id == id,
        user.name@ == command.user_name@,
        user.number@ == command.user_number@,
        spec_parse_date(created.spec_text()) == Some(created@) ==> user.creation_date@
            == created@,
{
}

/// What is written for a new account reads back as that account, where the
/// day of creation reads back from its text: the row that holds an id and
/// what was written has the shape of an account, and the account read from
/// it has that id and the name, owner and balance of the command.
pub proof fn lemma_added_account_reads_back(
    id: int,
    command: AddAccountCommand,
    created: Date,
    account: Account,
)
    requires
        i32::MIN <= id <= i32::MAX,
        spec_parse_date(created.spec_text()) == Some(created@),
        account_of_row(account, stored_row(id, new_account_cells(command, created))),
    ensures
        account_row_shape(stored_row(id, new_account_cells(command, created))),
        account.id == id,
        account.name@ == command.account_name@,
        account.user_id == command.user_id,
        account.money == command.initial_balance,
        account.creation_date@ == created@,
{
}

/// What is written for a money movement reads back as its ledger entry,
/// where the movement has a direction, its magnitude is in range and its
/// time of creation reads back from its text: the entry has the identifier
/// it was given, the magnitude and description of the movement, and its
/// direction.
pub proof fn lemma_booked_entry_reads_back(
    transaction: MoneyTransaction,
    entry_id: Seq<char>,
    record: Record,
)
    requires
        !(transaction.payment_type is Unknown),
        transaction.amount <= i64::MAX,
        spec_parse_timestamp(transaction.create_date.spec_text()) == Some(
            transaction.create_date@,
        ),
        record_of_row(record, stored_entry(ledger_entry(transaction, entry_id))),
    ensures
        record_row_shape(stored_entry(ledger_entry(transaction, entry_id))),
        record.id@ == entry_id,
        record.amount == transaction.amount,
        record.description@ == transaction.description@,
        record.payment_type.spec_code() == transaction.payment_type.spec_code(),
        record.create_date@ == transaction.create_date@,
{
}

} // verus!
