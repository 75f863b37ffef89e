use money_ledger::commands::{AddAccountCommand, AddUserCommand};
use money_ledger::config::SqliteConfiguration;
use money_ledger::error::StoreError;
use money_ledger::models::account::Account;
use money_ledger::models::date::Timestamp;
use money_ledger::models::moneytransaction::{MoneyTransaction, PaymentType};
use money_ledger::models::record;
use money_ledger::models::user::User;
use money_ledger::providers::bases::sqlite::SqliteProvider;
use money_ledger::providers::{AccountProvider, TransactionWorker, UserProvider};
use std::str::FromStr;

fn memory_store() -> SqliteProvider {
    SqliteProvider::new(&SqliteConfiguration::memory_base(), true).unwrap()
}

fn add_user_command(name: &str, number: &str) -> AddUserCommand {
    AddUserCommand { user_name: name.to_string(), user_number: number.to_string() }
}

fn configure_sql_with_user(add_user_command: &AddUserCommand) -> SqliteProvider {
    let config = SqliteConfiguration::memory_base();
    let sqlite_provider = SqliteProvider::new(&config, true).unwrap();
    sqlite_provider.add_user(add_user_command).unwrap();

    sqlite_provider
}

fn create_add_account_command(user_id: i32, initial_balance: i64) -> AddAccountCommand {
    AddAccountCommand {
        user_id,
        account_name: String::from_str("TEST ACCOUNT").unwrap(),
        initial_balance,
    }
}

fn movement(
    user: &User,
    account: &Account,
    payment_type: PaymentType,
    amount: u64,
) -> MoneyTransaction {
    MoneyTransaction {
        description: "Test transcation".to_string(),
        amount,
        user: user.clone(),
        account: account.clone(),
        payment_type,
        payment_target: "Test".to_string(),
        id: "".to_string(),
        create_date: Timestamp::now(),
    }
}

fn store_with_account(balance: i64) -> (SqliteProvider, User, Account) {
    let store = configure_sql_with_user(&add_user_command("scam", "88005553535"));
    let user = store.get_user_by_number("88005553535").unwrap();
    store.add_account(&create_add_account_command(user.id, balance)).unwrap();
    let account = store.search_account_by_user(&user).unwrap();
    (store, user, account)
}

fn check_exist(path: &str) -> bool {
    rusqlite::Connection::open_with_flags(path, rusqlite::OpenFlags::SQLITE_OPEN_READ_ONLY).is_ok()
}

#[test]
fn create_test_file_base() {
    let config = SqliteConfiguration::new("/tmp/money_ledger_testbase.db3");
    let _ = SqliteProvider::new(&config, false);
    assert!(check_exist(config.connection_string.as_str()));
}

#[test]
fn add_migration_test() {
    let config = SqliteConfiguration::new("/tmp/money_ledger_testbase_mig.db3");
    let _ = SqliteProvider::new(&config, true);
    assert!(check_exist(config.connection_string.as_str()));
}

#[test]
fn store_on_a_file_is_brought_up_to_date_once() {
    let config = SqliteConfiguration::new("/tmp/money_ledger_testbase_twice.db3");
    let store = SqliteProvider::new(&config, true).unwrap();
    let before = store.get_users().unwrap().len();
    store.add_user(&add_user_command("kept", &uuid::Uuid::new_v4().to_string())).unwrap();
    let again = SqliteProvider::new(&config, true).unwrap();
    assert_eq!(again.get_users().unwrap().len(), before + 1);
    assert!(!check_exist("/tmp/money_ledger_no_such_base.db3"));
}

#[test]
fn add_user_test() {
    let config = SqliteConfiguration::memory_base();
    let sqlite_provider = SqliteProvider::new(&config, true).unwrap();
    let add_user_command = AddUserCommand {
        user_name: String::from_str("scam").unwrap(),
        user_number: uuid::Uuid::new_v4().to_string(),
    };
    sqlite_provider.add_user(&add_user_command).unwrap();
    let user = sqlite_provider
        .get_user_by_number(add_user_command.user_number.as_str())
        .unwrap();

    sqlite_provider.delete_user_by_id(user.id).unwrap();
}

#[test]
fn add_user_notunique_test() {
    let config = SqliteConfiguration::memory_base();
    let sqlite_provider = SqliteProvider::new(&config, true).unwrap();
    let add_user_command = AddUserCommand {
        user_name: String::from_str("scam").unwrap(),
        user_number: String::from_str("88005553535").unwrap(),
    };
    sqlite_provider.add_user(&add_user_command).unwrap();

    assert!(sqlite_provider.add_user(&add_user_command).is_err());
}

#[test]
fn duplicate_number_is_a_unique_violation_and_changes_nothing() {
    let store = memory_store();
    store.add_user(&add_user_command("scam", "88005553535")).unwrap();
    store.add_user(&add_user_command("other", "100")).unwrap();
    let before = store.get_users().unwrap();

    let again = store.add_user(&add_user_command("scamjr", "88005553535"));
    assert_eq!(again, Err(StoreError::UniqueViolation));

    let after = store.get_users().unwrap();
    assert_eq!(before.len(), after.len());
    assert_eq!(after.len(), 2);
    assert_eq!(store.get_user_by_number("88005553535").unwrap().name, "scam");
}

#[test]
fn get_users_test() {
    let config = SqliteConfiguration::memory_base();
    let sqlite_provider = SqliteProvider::new(&config, true).unwrap();
    let add_user_command = AddUserCommand {
        user_name: String::from_str("scam").unwrap(),
        user_number: uuid::Uuid::new_v4().to_string(),
    };
    sqlite_provider.add_user(&add_user_command).unwrap();
    let add_user_command = AddUserCommand {
        user_name: String::from_str("scamjr").unwrap(),
        user_number: uuid::Uuid::new_v4().to_string(),
    };
    sqlite_provider.add_user(&add_user_command).unwrap();

    let users = sqlite_provider.get_users().unwrap();
    assert!(users.len() > 0);
    assert_eq!(users.len(), 2);
}

#[test]
fn listing_holds_exactly_the_users_that_were_added() {
    let store = memory_store();
    let added = [("ann", "n-1"), ("bob", "n-2"), ("cid", "n-3"), ("ann", "n-4")];
    for (name, number) in added {
        store.add_user(&add_user_command(name, number)).unwrap();
    }
    let users = store.get_users().unwrap();
    assert_eq!(users.len(), added.len());
    for (name, number) in added {
        let matching: Vec<&User> = users.iter().filter(|user| user.number == number).collect();
        assert_eq!(matching.len(), 1);
        assert_eq!(matching[0].name, name);
        assert!(matching[0].id > 0);
        assert_eq!(
            matching[0].creation_date.to_string(),
            chrono::Utc::now().date_naive().to_string()
        );
    }
    let mut ids: Vec<i32> = users.iter().map(|user| user.id).collect();
    ids.sort();
    ids.dedup();
    assert_eq!(ids.len(), added.len());
}

#[test]
fn get_user_by_number_test() {
    let sqlite_provider = configure_sql_with_user(&add_user_command("scam", "88005553535"));
    let user_res = sqlite_provider.get_user_by_number("88005553535");
    match user_res {
        Ok(user) => {
            assert!(user.name.eq("scam"));
        }
        Err(err) => {
            panic!("{}", err.to_string())
        }
    }
}

#[test]
fn number_that_is_not_there_is_not_found() {
    let store = configure_sql_with_user(&add_user_command("scam", "88005553535"));
    assert_eq!(store.get_user_by_number("123").unwrap_err(), StoreError::NotFound);
    assert_eq!(store.get_user_by_number("").unwrap_err(), StoreError::NotFound);
    assert_eq!(memory_store().get_user_by_number("88005553535").unwrap_err(), StoreError::NotFound);
}

#[test]
fn add_account_to_db() {
    let add_user_command = AddUserCommand {
        user_name: String::from_str("scam").unwrap(),
        user_number: uuid::Uuid::new_v4().to_string(),
    };
    let sqlite_provider = configure_sql_with_user(&add_user_command);
    let add_account_command = create_add_account_command(1, 50000);
    sqlite_provider.add_account(&add_account_command).unwrap();
    let accounts = sqlite_provider.get_accounts().unwrap();
    assert_eq!(accounts.len(), 1);
    assert_eq!(accounts[0].user_id, 1);
    assert_eq!(accounts[0].name, "TEST ACCOUNT");
    assert_eq!(accounts[0].money, 50000);
    assert!(accounts[0].id > 0);
}

#[test]
fn delete_users_test() {
    let add_user_command = AddUserCommand {
        user_name: String::from_str("scam").unwrap(),
        user_number: uuid::Uuid::new_v4().to_string(),
    };
    let sqlite_provider = memory_store();

    sqlite_provider.add_user(&add_user_command).unwrap();
    let _user = sqlite_provider
        .get_user_by_number(add_user_command.user_number.as_str())
        .unwrap();

    let add_user_command = AddUserCommand {
        user_name: String::from_str("scamer").unwrap(),
        user_number: uuid::Uuid::new_v4().to_string(),
    };
    sqlite_provider.add_user(&add_user_command).unwrap();

    let users = sqlite_provider.get_users().unwrap();
    assert!(users.len() > 0);

    for user in users {
        sqlite_provider.delete_user_by_id(user.id).unwrap();
    }
    let users = sqlite_provider.get_users().unwrap();

    assert!(users.len() == 0);
}

#[test]
fn deleting_what_is_not_there_is_no_error() {
    let (store, user, account) = store_with_account(10);
    assert_eq!(store.delete_user_by_id(user.id + 1000), Ok(()));
    assert_eq!(store.delete_user_by_id(-1), Ok(()));
    let absent = Account::new(user.id, "gone".to_string(), 0);
    assert_eq!(store.delete_account(&absent), Ok(()));
    assert_eq!(store.get_users().unwrap().len(), 1);
    assert_eq!(store.get_accounts().unwrap().len(), 1);

    assert_eq!(store.delete_account(&account), Ok(()));
    assert_eq!(store.delete_account(&account), Ok(()));
    assert_eq!(store.delete_user_by_id(user.id), Ok(()));
    assert_eq!(store.delete_user_by_id(user.id), Ok(()));
    assert_eq!(store.get_users().unwrap().len(), 0);
    assert_eq!(store.get_accounts().unwrap().len(), 0);
}

#[test]
fn account_lifecircle_test() {
    let add_user_command = AddUserCommand {
        user_name: String::from_str("scam").unwrap(),
        user_number: uuid::Uuid::new_v4().to_string(),
    };
    let sqlite_provider = configure_sql_with_user(&add_user_command);
    let user = sqlite_provider
        .get_user_by_number(add_user_command.user_number.as_str())
        .unwrap();
    let add_account_command = create_add_account_command(1, 50000);
    sqlite_provider.add_account(&add_account_command).unwrap();
    let account = sqlite_provider.search_account_by_user(&user).unwrap();
    sqlite_provider.change_money(&account, 100000).unwrap();
    let account = sqlite_provider.search_account_by_user(&user).unwrap();
    assert_eq!(account.money, 150000);
    assert_eq!(account.name, add_account_command.account_name);
    sqlite_provider.delete_account(&account).unwrap();
}

#[test]
fn account_of_a_user_without_one_is_not_found() {
    let store = configure_sql_with_user(&add_user_command("scam", "88005553535"));
    let user = store.get_user_by_number("88005553535").unwrap();
    assert_eq!(store.search_account_by_user(&user).unwrap_err(), StoreError::NotFound);
}

#[test]
fn two_accounts_of_one_user_are_not_told_apart() {
    let (store, user, _) = store_with_account(1);
    store.add_account(&create_add_account_command(user.id, 2)).unwrap();
    assert_eq!(store.get_accounts().unwrap().len(), 2);
    assert_eq!(store.search_account_by_user(&user).unwrap_err(), StoreError::NotFound);
}

#[test]
fn account_may_belong_to_a_user_that_is_not_there() {
    let store = memory_store();
    store.add_account(&create_add_account_command(77, 5)).unwrap();
    let owner = User::new(77, "nobody".to_string(), "2000-01-01".to_string());
    let account = store.search_account_by_user(&owner).unwrap();
    assert_eq!(account.user_id, 77);
    assert_eq!(account.money, 5);
}

#[test]
fn change_money_overwrites_with_the_held_balance_plus_the_count() {
    let (store, user, account) = store_with_account(100);
    store.change_money(&account, 50).unwrap();
    store.change_money(&account, -30).unwrap();
    assert_eq!(store.search_account_by_user(&user).unwrap().money, 70);
    let absent = Account::new(user.id, "gone".to_string(), 0);
    assert_eq!(store.change_money(&absent, 5), Ok(()));
    assert_eq!(store.search_account_by_user(&user).unwrap().money, 70);
}

#[test]
fn set_balance_overwrites_whatever_was_there() {
    let (store, user, account) = store_with_account(100);
    assert_eq!(store.set_balance(account.id, -5), Ok(()));
    assert_eq!(store.search_account_by_user(&user).unwrap().money, -5);
    assert_eq!(store.set_balance(account.id, i64::MIN), Ok(()));
    assert_eq!(store.search_account_by_user(&user).unwrap().money, i64::MIN);
    assert_eq!(store.set_balance(account.id + 1, 7), Ok(()));
    assert_eq!(store.search_account_by_user(&user).unwrap().money, i64::MIN);
    assert_eq!(store.get_records(&account).unwrap().len(), 0);
}

#[test]
fn change_money_refuses_a_balance_out_of_range() {
    let (store, user, _) = store_with_account(100);
    let mut rich = store.search_account_by_user(&user).unwrap();
    rich.money = i64::MAX;
    assert_eq!(store.change_money(&rich, 1), Err(StoreError::BalanceOutOfRange));
    rich.money = i64::MIN;
    assert_eq!(store.change_money(&rich, -1), Err(StoreError::BalanceOutOfRange));
    assert_eq!(store.search_account_by_user(&user).unwrap().money, 100);
    rich.money = i64::MAX - 1;
    assert_eq!(store.change_money(&rich, 1), Ok(()));
    assert_eq!(store.search_account_by_user(&user).unwrap().money, i64::MAX);
}

#[test]
fn transaction_execute_test() {
    let add_user_command = AddUserCommand {
        user_name: String::from_str("scam").unwrap(),
        user_number: uuid::Uuid::new_v4().to_string(),
    };
    let sqlite_provider = configure_sql_with_user(&add_user_command);
    let user = sqlite_provider
        .get_user_by_number(add_user_command.user_number.as_str())
        .unwrap();
    let add_account_command = create_add_account_command(1, 50000);
    sqlite_provider.add_account(&add_account_command).unwrap();
    let account = sqlite_provider.search_account_by_user(&user).unwrap();
    sqlite_provider
        .execute_transaction(&MoneyTransaction {
            description: "Test transcation".to_string(),
            amount: 200000,
            user: user.clone(),
            account: account.clone(),
            payment_type: PaymentType::Income,
            payment_target: "Test".to_string(),
            id: "".to_string(),
            create_date: Timestamp::now(),
        })
        .unwrap();
    let account = sqlite_provider.search_account_by_user(&user).unwrap();
    assert_eq!(account.money, 250000);
}

#[test]
fn income_is_booked_with_one_ledger_entry() {
    let store = configure_sql_with_user(&add_user_command("scam", "88005553535"));
    let user = store.get_user_by_number("88005553535").unwrap();
    store.add_account(&create_add_account_command(user.id, 50000)).unwrap();
    let account = store.search_account_by_user(&user).unwrap();
    assert_eq!(account.name, "TEST ACCOUNT");
    assert_eq!(account.money, 50000);

    let asked = movement(&user, &account, PaymentType::Income, 200000);
    store.execute_transaction(&asked).unwrap();

    assert_eq!(store.search_account_by_user(&user).unwrap().money, 250000);
    let records = store.get_records(&account).unwrap();
    assert_eq!(records.len(), 1);
    assert_eq!(records[0].amount, 200000);
    assert_eq!(records[0].payment_type, record::PaymentType::Income);
    assert_eq!(records[0].description, "Test transcation");
    assert_eq!(records[0].create_date, asked.create_date);
    assert_eq!(records[0].id.len(), 36);
    assert!(records[0].id.chars().enumerate().all(|(at, c)| {
        if at == 8 || at == 13 || at == 18 || at == 23 {
            c == '-'
        } else {
            c.is_ascii_digit() || ('a'..='f').contains(&c)
        }
    }));
}

#[test]
fn ledger_entry_carries_target_and_owner() {
    let (store, user, account) = store_with_account(0);
    store.execute_transaction(&movement(&user, &account, PaymentType::Outcome, 15)).unwrap();
    let row = store
        .execute_query(|conn| {
            conn.query_row(
                "select UserId, AccountId, PaymentType, PaymentTarget, Amount from Transactions",
                [],
                |row| {
                    Ok((
                        row.get::<_, i32>(0)?,
                        row.get::<_, i32>(1)?,
                        row.get::<_, i64>(2)?,
                        row.get::<_, String>(3)?,
                        row.get::<_, i64>(4)?,
                    ))
                },
            )
            .map_err(|_| StoreError::QueryFailed)
        })
        .unwrap();
    assert_eq!(row, (account.user_id, account.id, 2, "Test".to_string(), 15));
    assert_eq!(store.search_account_by_user(&user).unwrap().money, -15);
}

#[test]
fn income_then_outcome_of_the_same_magnitude_restores_the_balance() {
    for (balance, magnitude) in [(0i64, 1u64), (50000, 200000), (-7, 7), (i64::MAX - 5, 5), (3, 0)] {
        let (store, user, account) = store_with_account(balance);
        store.execute_transaction(&movement(&user, &account, PaymentType::Income, magnitude)).unwrap();
        let between = store.search_account_by_user(&user).unwrap();
        assert_eq!(between.money, balance + magnitude as i64);
        store.execute_transaction(&movement(&user, &between, PaymentType::Outcome, magnitude)).unwrap();

        assert_eq!(store.search_account_by_user(&user).unwrap().money, balance);
        let records = store.get_records(&account).unwrap();
        assert_eq!(records.len(), 2);
        assert_eq!(records[0].amount, magnitude);
        assert_eq!(records[1].amount, magnitude);
        let mut types = vec![records[0].payment_type, records[1].payment_type];
        types.sort_by_key(|payment_type| *payment_type == record::PaymentType::Outcome);
        assert_eq!(types, vec![record::PaymentType::Income, record::PaymentType::Outcome]);
        assert_ne!(records[0].id, records[1].id);
    }
}

#[test]
fn movement_of_nothing_is_recorded() {
    let (store, user, account) = store_with_account(42);
    store.execute_transaction(&movement(&user, &account, PaymentType::Income, 0)).unwrap();
    assert_eq!(store.search_account_by_user(&user).unwrap().money, 42);
    let records = store.get_records(&account).unwrap();
    assert_eq!(records.len(), 1);
    assert_eq!(records[0].amount, 0);
}

#[test]
fn movement_without_a_direction_is_rejected() {
    let (store, user, account) = store_with_account(42);
    let asked = movement(&user, &account, PaymentType::Unknown, 10);
    assert_eq!(store.execute_transaction(&asked), Err(StoreError::InvalidPaymentType));
    assert_eq!(store.search_account_by_user(&user).unwrap().money, 42);
    assert_eq!(store.get_records(&account).unwrap().len(), 0);
}

#[test]
fn movement_out_of_range_is_rejected() {
    let (store, user, account) = store_with_account(10);
    let too_much = movement(&user, &account, PaymentType::Income, i64::MAX as u64);
    assert_eq!(store.execute_transaction(&too_much), Err(StoreError::BalanceOutOfRange));
    let beyond = movement(&user, &account, PaymentType::Outcome, i64::MAX as u64 + 1);
    assert_eq!(store.execute_transaction(&beyond), Err(StoreError::BalanceOutOfRange));
    assert_eq!(store.search_account_by_user(&user).unwrap().money, 10);
    assert_eq!(store.get_records(&account).unwrap().len(), 0);
    let just = movement(&user, &account, PaymentType::Income, i64::MAX as u64 - 10);
    assert_eq!(store.execute_transaction(&just), Ok(()));
    assert_eq!(store.search_account_by_user(&user).unwrap().money, i64::MAX);
}

#[test]
fn failed_ledger_entry_rolls_the_balance_back() {
    let (store, user, account) = store_with_account(500);
    store
        .execute_query(|conn| {
            conn.execute_batch("ALTER TABLE Transactions RENAME TO Elsewhere")
                .map_err(|_| StoreError::QueryFailed)
        })
        .unwrap();
    let asked = movement(&user, &account, PaymentType::Income, 100);
    assert_eq!(store.execute_transaction(&asked), Err(StoreError::QueryFailed));
    assert_eq!(store.search_account_by_user(&user).unwrap().money, 500);

    store
        .execute_query(|conn| {
            conn.execute_batch("ALTER TABLE Elsewhere RENAME TO Transactions")
                .map_err(|_| StoreError::QueryFailed)
        })
        .unwrap();
    assert_eq!(store.get_records(&account).unwrap().len(), 0);
    assert_eq!(store.execute_transaction(&asked), Ok(()));
    assert_eq!(store.search_account_by_user(&user).unwrap().money, 600);
    assert_eq!(store.get_records(&account).unwrap().len(), 1);
}

#[test]
fn failed_balance_leaves_no_ledger_entry() {
    let (store, user, account) = store_with_account(500);
    store
        .execute_query(|conn| {
            conn.execute_batch("ALTER TABLE Accounts RENAME TO Elsewhere")
                .map_err(|_| StoreError::QueryFailed)
        })
        .unwrap();
    let asked = movement(&user, &account, PaymentType::Outcome, 100);
    assert_eq!(store.execute_transaction(&asked), Err(StoreError::QueryFailed));
    store
        .execute_query(|conn| {
            conn.execute_batch("ALTER TABLE Elsewhere RENAME TO Accounts")
                .map_err(|_| StoreError::QueryFailed)
        })
        .unwrap();
    assert_eq!(store.search_account_by_user(&user).unwrap().money, 500);
    assert_eq!(store.get_records(&account).unwrap().len(), 0);
}

fn workers() -> tokio::runtime::Runtime {
    tokio::runtime::Builder::new_multi_thread().worker_threads(4).build().unwrap()
}

#[test]
fn movements_from_two_threads_are_both_booked() {
    let runtime = workers();
    for round in 0..20 {
        let (store, user, account) = store_with_account(0);
        let store = std::sync::Arc::new(store);
        let turn = std::sync::Arc::new(std::sync::Mutex::new(()));
        let mut tasks = Vec::new();
        let mut asked = vec![(PaymentType::Income, 100u64), (PaymentType::Outcome, 40u64)];
        if round % 2 == 1 {
            asked.reverse();
        }
        for (payment_type, amount) in asked {
            let store = store.clone();
            let turn = turn.clone();
            let user = user.clone();
            tasks.push(runtime.spawn_blocking(move || {
                let _held = turn.lock().unwrap();
                let account = store.search_account_by_user(&user).unwrap();
                store.execute_transaction(&movement(&user, &account, payment_type, amount)).unwrap();
            }));
        }
        for task in tasks {
            runtime.block_on(task).unwrap();
        }
        assert_eq!(store.search_account_by_user(&user).unwrap().money, 60);
        let records = store.get_records(&account).unwrap();
        assert_eq!(records.len(), 2);
        let mut amounts: Vec<u64> = records.iter().map(|entry| entry.amount).collect();
        amounts.sort();
        assert_eq!(amounts, vec![40, 100]);
    }
}

#[test]
fn movements_on_one_held_balance_are_both_recorded() {
    let runtime = workers();
    let (store, user, account) = store_with_account(0);
    let store = std::sync::Arc::new(store);
    let mut tasks = Vec::new();
    for (payment_type, amount) in [(PaymentType::Income, 100u64), (PaymentType::Outcome, 40u64)] {
        let store = store.clone();
        let asked = movement(&user, &account, payment_type, amount);
        tasks.push(runtime.spawn_blocking(move || store.execute_transaction(&asked).unwrap()));
    }
    for task in tasks {
        runtime.block_on(task).unwrap();
    }
    let left = store.search_account_by_user(&user).unwrap().money;
    assert!(left == 100 || left == -40);
    assert_eq!(store.get_records(&account).unwrap().len(), 2);
}

#[test]
fn callers_on_many_threads_take_turns() {
    let runtime = workers();
    let store = std::sync::Arc::new(memory_store());
    let mut tasks = Vec::new();
    for worker in 0..8 {
        let store = store.clone();
        tasks.push(runtime.spawn_blocking(move || {
            for item in 0..20 {
                let number = format!("{}-{}", worker, item);
                store.add_user(&add_user_command("many", &number)).unwrap();
                assert_eq!(store.get_user_by_number(&number).unwrap().number, number);
            }
        }));
    }
    for task in tasks {
        runtime.block_on(task).unwrap();
    }
    assert_eq!(store.get_users().unwrap().len(), 160);
}

#[test]
fn poisoned_lock_is_unavailable() {
    let runtime = workers();
    let store = std::sync::Arc::new(memory_store());
    let inside = store.clone();
    let crashed = runtime.block_on(runtime.spawn_blocking(move || {
        let _ = inside.execute_query(|_conn| -> Result<(), StoreError> { panic!("crash") });
    }));
    assert!(crashed.is_err());
    assert_eq!(store.get_users().unwrap_err(), StoreError::LockUnavailable);
    assert_eq!(
        store.add_user(&add_user_command("scam", "1")).unwrap_err(),
        StoreError::LockUnavailable
    );
    assert_eq!(store.delete_user_by_id(1).unwrap_err(), StoreError::LockUnavailable);
    assert_eq!(store.get_accounts().unwrap_err(), StoreError::LockUnavailable);
    let user = User::new(1, "scam".to_string(), "2000-01-01".to_string());
    let account = Account::new(1, "a".to_string(), 0);
    assert_eq!(
        store.execute_transaction(&movement(&user, &account, PaymentType::Income, 1)).unwrap_err(),
        StoreError::LockUnavailable
    );
}

#[test]
fn execute_query_gives_the_lock_up_after_a_failure() {
    let store = memory_store();
    let failed: Result<(), StoreError> = store.execute_query(|_conn| Err(StoreError::NotFound));
    assert_eq!(failed, Err(StoreError::NotFound));
    assert_eq!(store.execute_query(|conn| Ok(conn.is_autocommit())), Ok(true));
    assert_eq!(store.get_users().unwrap().len(), 0);
}

#[test]
fn row_that_is_no_user_fails_the_listing() {
    let store = configure_sql_with_user(&add_user_command("scam", "88005553535"));
    store
        .execute_query(|conn| {
            conn.execute("insert into Users(Name, Number, CreationDate) values (NULL, 'x', 'y')", [])
                .map_err(|_| StoreError::QueryFailed)
        })
        .unwrap();
    assert_eq!(store.get_users().unwrap_err(), StoreError::QueryFailed);
    assert_eq!(store.get_user_by_number("x").unwrap_err(), StoreError::QueryFailed);
    assert_eq!(store.get_user_by_number("88005553535").unwrap().name, "scam");
}

#[test]
fn balance_that_is_no_whole_number_fails_the_reading() {
    let (store, user, _) = store_with_account(1);
    store
        .execute_query(|conn| {
            conn.execute("update Accounts set MoneyCount = 1.5", []).map_err(|_| StoreError::QueryFailed)
        })
        .unwrap();
    assert_eq!(store.search_account_by_user(&user).unwrap_err(), StoreError::QueryFailed);
    assert_eq!(store.get_accounts().unwrap_err(), StoreError::QueryFailed);
}

#[test]
fn user_with_an_unreadable_date_is_dated_today() {
    let store = memory_store();
    store
        .execute_query(|conn| {
            conn.execute(
                "insert into Users(Name, Number, CreationDate) values ('old', 'o-1', 'long ago')",
                [],
            )
            .map_err(|_| StoreError::QueryFailed)
        })
        .unwrap();
    let user = store.get_user_by_number("o-1").unwrap();
    assert_eq!(user.creation_date.to_string(), chrono::Utc::now().date_naive().to_string());
}

#[test]
fn second_store_on_a_file_sees_the_same_database() {
    let config = SqliteConfiguration::new("/tmp/money_ledger_testbase_clone.db3");
    let store = SqliteProvider::new(&config, true).unwrap();
    let number = uuid::Uuid::new_v4().to_string();
    store.add_user(&add_user_command("scam", &number)).unwrap();
    let second = store.try_clone().unwrap();
    assert_eq!(second.get_user_by_number(&number).unwrap().name, "scam");
    let user = second.get_user_by_number(&number).unwrap();
    second.delete_user_by_id(user.id).unwrap();
    assert_eq!(store.get_user_by_number(&number).unwrap_err(), StoreError::NotFound);
}

#[test]
fn second_store_in_memory_starts_empty() {
    let store = configure_sql_with_user(&add_user_command("scam", "88005553535"));
    let second = store.try_clone().unwrap();
    assert_eq!(second.get_users().unwrap_err(), StoreError::QueryFailed);
    assert_eq!(store.get_users().unwrap().len(), 1);
}
