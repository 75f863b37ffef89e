//! The statements the store sends to the engine, and their parameters.

use crate::commands::{AddAccountCommand, AddUserCommand};
use crate::models::date::Date;
use crate::providers::bases::engine::{bindable, cells_of, SqlCell, SqlValue};
use vstd::prelude::*;

verus! {

pub const INSERT_USER: &'static str =
    "insert into Users(Name, Number, CreationDate) values (?1, ?2, ?3);";

pub const SELECT_USERS: &'static str = "select Id, Name, Number, CreationDate from Users;";

pub const SELECT_USER_BY_NUMBER: &'static str =
    "select Id, Name, Number, CreationDate from Users where Number = ?1";

pub const DELETE_USER: &'static str = "delete from Users where Id = ?1";

pub const INSERT_ACCOUNT: &'static str =
    "insert into Accounts(Name, UserId, MoneyCount, CreationDate) values (?1, ?2, ?3, ?4);";

pub const DELETE_ACCOUNT: &'static str = "delete from Accounts where Id = ?1";

pub const UPDATE_BALANCE: &'static str = "update Accounts set MoneyCount = ?2 where Id = ?1";

pub const SELECT_ACCOUNTS: &'static str =
    "select Id, Name, UserId, MoneyCount, CreationDate from Accounts;";

pub const SELECT_ACCOUNT_BY_USER: &'static str =
    "select Id, Name, UserId, MoneyCount, CreationDate from Accounts where UserId = ?1";

pub const INSERT_RECORD: &'static str =
    "insert into Transactions(Id, Amount, Description, UserId, AccountId, PaymentType, CreationDate, PaymentTarget) values (?1, ?2, ?3, ?4, ?5, ?6, ?7, ?8)";

pub const SELECT_RECORDS_BY_ACCOUNT: &'static str =
    "select Id, Amount, Description, PaymentType, CreationDate from Transactions where AccountId = ?1";

pub const BEGIN: &'static str = "BEGIN IMMEDIATE";

pub const COMMIT: &'static str = "COMMIT";

pub const ROLLBACK: &'static str = "ROLLBACK";

/// What is written for a new user: the name, the external number and the
/// day of creation as text.
pub open spec fn new_user_cells(command: AddUserCommand, created: Date) -> Seq<SqlCell> {
    seq![
        SqlCell::Text(command.user_name@),
        SqlCell::Text(command.user_number@),
        SqlCell::Text(created.spec_text()),
    ]
}

/// What is written for a new account: the name, the owning user's id, the
/// opening balance and the day of creation as text.
pub open spec fn new_account_cells(command: AddAccountCommand, created: Date) -> Seq<SqlCell> {
    seq![
        SqlCell::Text(command.account_name@),
        SqlCell::Integer(command.user_id as int),
        SqlCell::Integer(command.initial_balance as int),
        SqlCell::Text(created.spec_text()),
    ]
}

/// The parameters of [`INSERT_USER`].
pub fn insert_user_params(command: &AddUserCommand, created: &Date) -> (params: Vec<SqlValue>)
    ensures
        bindable(params@),
        cells_of(params@) == new_user_cells(*command, *created),
{
    let mut params: Vec<SqlValue> = Vec::new();
    params.push(SqlValue::Text(command.user_name.clone()));
    params.push(SqlValue::Text(command.user_number.clone()));
    params.push(SqlValue::Text(created.to_string()));
    params
}

/// The one parameter of a statement that is about a single text, such as
/// [`SELECT_USER_BY_NUMBER`].
pub fn text_param(text: &str) -> (params: Vec<SqlValue>)
    ensures
        bindable(params@),
        cells_of(params@) == seq![SqlCell::Text(text@)],
{
    let mut params: Vec<SqlValue> = Vec::new();
    params.push(SqlValue::Text(text.to_string()));
    params
}

/// The one parameter of a statement that is about a single id, such as
/// [`DELETE_USER`].
pub fn id_param(id: i32) -> (params: Vec<SqlValue>)
    ensures
        bindable(params@),
        cells_of(params@) == seq![SqlCell::Integer(id as int)],
{
    let mut params: Vec<SqlValue> = Vec::new();
    params.push(SqlValue::Integer(id as i64));
    params
}

/// The parameters of [`INSERT_ACCOUNT`].
pub fn insert_account_params(command: &AddAccountCommand, created: &Date) -> (params: Vec<
    SqlValue,
>)
    ensures
        bindable(params@),
        cells_of(params@) == new_account_cells(*command, *created),
{
    let mut params: Vec<SqlValue> = Vec::new();
    params.push(SqlValue::Text(command.account_name.clone()));
    params.push(SqlValue::Integer(command.user_id as i64));
    params.push(SqlValue::Integer(command.initial_balance));
    params.push(SqlValue::Text(created.to_string()));
    params
}

/// The parameters of [`UPDATE_BALANCE`]: the account's id and its new
/// balance.
pub fn update_balance_params(account_id: i32, balance: i64) -> (params: Vec<SqlValue>)
    ensures
        bindable(params@),
        cells_of(params@) == seq![
            SqlCell::Integer(account_id as int),
            SqlCell::Integer(balance as int),
        ],
{
    let mut params: Vec<SqlValue> = Vec::new();
    params.push(SqlValue::Integer(account_id as i64));
    params.push(SqlValue::Integer(balance));
    params
}

} // verus!
