//! The steps that lead to the schema of the store, and the engine that
//! applies them.
//!
//! The steps are numbered from 1. A database records the number of the last
//! step that was applied to it; bringing it up to date applies the steps
//! after that one, in ascending order, each in a transaction of its own.
//! Applying the steps is left to `rusqlite_migration`, which also keeps the
//! record.

use crate::error::StoreError;
use rusqlite::Connection;
use vstd::prelude::*;

verus! {

/// A failure of the migration engine (`rusqlite_migration::Error`).
#[verifier::external_type_specification]
#[verifier::external_body]
pub struct ExMigrationError(rusqlite_migration::Error);

/// One change of the schema: its number, the statements that make the
/// change, and the statements that undo it, where there are any.
#[derive(Clone, Copy, Debug)]
pub struct MigrationStep {
    pub index: usize,
    pub up: &'static str,
    pub down: Option<&'static str>,
}

/// A character that says nothing in a statement: white space, or the
/// semicolon that ends it.
pub open spec fn is_filler(c: char) -> bool {
    c == ' ' || c == '\t' || c == '\n' || c == '\r' || c == ';'
}

/// A text that holds no statement.
pub open spec fn is_blank(text: Seq<char>) -> bool {
    forall|i: int| 0 <= i < text.len() ==> is_filler(#[trigger] text[i])
}

/// Whether a step may stand at `position` of a list (counted from 0): it
/// carries the number of its place, and neither of its sides is blank.
pub open spec fn step_consistent(step: MigrationStep, position: int) -> bool {
    &&& step.index == position + 1
    &&& !is_blank(step.up@)
    &&& step.down matches Some(down) ==> !is_blank(down@)
}

/// Whether a list of steps can be applied: there is a step, the numbers run
/// from 1 without a gap, and no step is blank.
pub open spec fn steps_consistent(steps: Seq<MigrationStep>) -> bool {
    &&& steps.len() > 0
    &&& forall|i: int| 0 <= i < steps.len() ==> step_consistent(#[trigger] steps[i], i)
}

/// The numbers of the steps that are still to be applied to a database that
/// records `current`, out of `total` steps, in the order in which they are
/// applied. There are none for a database that is further than the steps go.
pub open spec fn spec_pending(current: usize, total: usize) -> Option<Seq<usize>> {
    if current > total {
        None
    } else {
        Some(Seq::new((total - current) as nat, |i: int| (current + 1 + i) as usize))
    }
}

/// `Migrations::new` on the steps, then `Migrations::to_latest`: applies to
/// the database all of the steps that it has not recorded yet and records
/// the last. It refuses an empty list, and a database that has recorded more
/// steps than the list holds.
#[verifier::external_body]
fn engine_to_latest(steps: &Vec<MigrationStep>, conn: &mut Connection) -> (applied: Result<
    (),
    rusqlite_migration::Error,
>)
    ensures
        steps.len() == 0 ==> applied is Err,
{
    let ms = steps.iter().map(|s| match s.down {
        Some(down) => rusqlite_migration::M::up(s.up).down(down),
        None => rusqlite_migration::M::up(s.up),
    }).collect();
    rusqlite_migration::Migrations::new(ms).to_latest(conn)
}

/// `Migrations::new` on the steps, then `Migrations::validate`: applies all
/// the steps to a database of its own, which it opens in memory and drops.
/// It refuses an empty list.
#[verifier::external_body]
fn engine_validate(steps: &Vec<MigrationStep>) -> (valid: Result<(), rusqlite_migration::Error>)
    ensures
        steps.len() == 0 ==> valid is Err,
{
    let ms = steps.iter().map(|s| match s.down {
        Some(down) => rusqlite_migration::M::up(s.up).down(down),
        None => rusqlite_migration::M::up(s.up),
    }).collect();
    rusqlite_migration::Migrations::new(ms).validate()
}

/// `Migrations::current_version`, as a number: the number of the last step
/// that the database has recorded, 0 where it has recorded none.
#[verifier::external_body]
fn engine_current_version(conn: &Connection) -> (version: Result<usize, rusqlite_migration::Error>) {
    rusqlite_migration::Migrations::new(Vec::new()).current_version(conn).map(usize::from)
}

/// Whether a text holds no statement.
pub fn blank(text: &str) -> (empty: bool)
    ensures
        empty == is_blank(text@),
{
    let length = text.unicode_len();
    let mut at: usize = 0;
    while at < length
        invariant
            length == text@.len(),
            at <= length,
            forall|i: int| 0 <= i < at ==> is_filler(#[trigger] text@[i]),
        decreases length - at,
    {
        let c = text.get_char(at);
        if !(c == ' ' || c == '\t' || c == '\n' || c == '\r' || c == ';') {
            return false;
        }
        at += 1;
    }
    true
}

/// The numbers of the steps that are still to be applied to a database that
/// records `current`, out of `total` steps, in ascending order. A database
/// that records more steps than there are was written by a later version of
/// the steps and is refused.
pub fn pending_versions(current: usize, total: usize) -> (pending: Result<Vec<usize>, StoreError>)
    ensures
        match spec_pending(current, total) {
            Some(versions) => pending matches Ok(found) && found@ == versions,
            None => pending == Err::<Vec<usize>, StoreError>(StoreError::MigrationFailed),
        },
{
    if current > total {
        return Err(StoreError::MigrationFailed);
    }
    let mut found: Vec<usize> = Vec::new();
    let mut version: usize = current;
    while version < total
        invariant
            current <= version <= total,
            found.len() == version - current,
            forall|i: int| 0 <= i < found.len() ==> found[i] == current + 1 + i,
        decreases total - version,
    {
        version += 1;
        found.push(version);
    }
    Ok(found)
}

/// A database that records the last step has nothing left to be applied:
/// bringing it up to date again asks nothing of the engine.
pub proof fn lemma_nothing_pending_when_current(total: usize)
    ensures
        spec_pending(total, total) == Some(Seq::<usize>::empty()),
{
}

/// What is pending is exactly the steps after the recorded one, in ascending
/// order, up to the last.
pub proof fn lemma_pending_is_ascending(current: usize, total: usize)
    requires
        current <= total,
    ensures
        spec_pending(current, total) matches Some(versions) && versions.len() == total - current
            && (forall|i: int| 0 <= i < versions.len() ==> current < #[trigger] versions[i] <= total)
            && (forall|i: int, j: int|
            0 <= i < j < versions.len() ==> #[trigger] versions[i] < #[trigger] versions[j]),
{
}

impl MigrationStep {
    /// The step with the given number that makes its change by `sql` and
    /// cannot be undone.
    pub fn up(index: usize, sql: &'static str) -> (step: Self)
        ensures
            step.index == index,
            step.up@ == sql@,
            step.down is None,
    {
        Self { index, up: sql, down: None }
    }

    /// This step, undone by `sql`.
    pub fn down(self, sql: &'static str) -> (step: Self)
        ensures
            step.index == self.index,
            step.up@ == self.up@,
            step.down matches Some(down) && down@ == sql@,
    {
        Self { index: self.index, up: self.up, down: Some(sql) }
    }

    /// Whether this step may stand at `position` of a list, counted from 0.
    pub fn consistent_at(&self, position: usize) -> (consistent: bool)
        ensures
            consistent == step_consistent(*self, position as int),
    {
        if position == usize::MAX || self.index != position + 1 {
            return false;
        }
        if blank(self.up) {
            return false;
        }
        match self.down {
            Some(down) => !blank(down),
            None => true,
        }
    }
}

/// An ordered list of steps.
#[derive(Clone, Debug)]
pub struct Migrations {
    steps: Vec<MigrationStep>,
}

impl View for Migrations {
    type V = Seq<MigrationStep>;

    closed spec fn view(&self) -> Seq<MigrationStep> {
        self.steps@
    }
}

impl Migrations {
    /// The list of the given steps, in the given order.
    pub fn new(steps: Vec<MigrationStep>) -> (migrations: Self)
        ensures
            migrations@ == steps@,
    {
        Self { steps }
    }

    /// The number of steps.
    pub fn len(&self) -> (count: usize)
        ensures
            count == self@.len(),
    {
        self.steps.len()
    }

    /// Whether the list can be applied: there is a step, the numbers run from
    /// 1 without a gap, and no step is blank.
    pub fn consistent(&self) -> (consistent: bool)
        ensures
            consistent == steps_consistent(self@),
    {
        if self.steps.len() == 0 {
            return false;
        }
        let mut at: usize = 0;
        while at < self.steps.len()
            invariant
                at <= self.steps.len(),
                forall|i: int| 0 <= i < at ==> step_consistent(#[trigger] self.steps@[i], i),
            decreases self.steps.len() - at,
        {
            if !self.steps[at].consistent_at(at) {
                return false;
            }
            at += 1;
        }
        true
    }

    /// Checks the list before it is used. An inconsistent list is refused as
    /// it stands; a consistent one is applied by the engine to a database of
    /// its own, and is valid if every step of it runs there.
    pub fn validate(&self) -> (valid: Result<(), StoreError>)
        ensures
            !steps_consistent(self@) ==> valid is Err,
            valid matches Err(error) ==> error == StoreError::MigrationFailed,
    {
        if !self.consistent() {
            return Err(StoreError::MigrationFailed);
        }
        match engine_validate(&self.steps) {
            Ok(()) => Ok(()),
            Err(_) => Err(StoreError::MigrationFailed),
        }
    }

    /// The first `count` steps of the list.
    fn first(&self, count: usize) -> (steps: Vec<MigrationStep>)
        requires
            count <= self@.len(),
        ensures
            steps@ == self@.take(count as int),
    {
        let mut steps: Vec<MigrationStep> = Vec::new();
        let mut at: usize = 0;
        while at < count
            invariant
                at <= count <= self.steps.len(),
                steps@ == self.steps@.take(at as int),
            decreases count - at,
        {
            steps.push(self.steps[at]);
            at += 1;
        }
        steps
    }

    /// Brings the database behind `conn` up to date: applies the steps after
    /// the one that the database records, in ascending order, each in a
    /// transaction of its own, and stops at the first that fails. Nothing is
    /// asked of a database that is up to date already. An inconsistent list
    /// is refused before the database is touched, and so is a database that
    /// records more steps than the list holds.
    pub fn to_latest(&self, conn: &mut Connection) -> (migrated: Result<(), StoreError>)
        ensures
            !steps_consistent(self@) ==> migrated is Err,
            migrated matches Err(error) ==> error == StoreError::MigrationFailed,
    {
        if !self.consistent() {
            return Err(StoreError::MigrationFailed);
        }
        let current = match engine_current_version(conn) {
            Ok(version) => version,
            Err(_) => {
                return Err(StoreError::MigrationFailed);
            },
        };
        let pending = match pending_versions(current, self.steps.len()) {
            Ok(pending) => pending,
            Err(error) => {
                return Err(error);
            },
        };
        let mut at: usize = 0;
        while at < pending.len()
            invariant
                at <= pending.len(),
                current <= self@.len(),
                self@.len() == self.steps.len(),
                spec_pending(current, self.steps.len()) == Some(pending@),
            decreases pending.len() - at,
        {
            let upto = self.first(pending[at]);
            match engine_to_latest(&upto, conn) {
                Ok(()) => {},
                Err(_) => {
                    return Err(StoreError::MigrationFailed);
                },
            }
            at += 1;
        }
        Ok(())
    }
}

pub const CREATE_USERS: &'static str =
    "CREATE TABLE IF NOT EXISTS Users (Id INTEGER PRIMARY KEY, Name TEXT, CreationDate DATE);";

pub const CREATE_NUMBERED_USERS: &'static str =
    "CREATE TABLE IF NOT EXISTS NewUsers (Id INTEGER PRIMARY KEY, Name TEXT, Number Text UNIQUE, CreationDate DATE);";

pub const NUMBER_USERS: &'static str =
    "INSERT INTO NewUsers(Id, Name, Number,CreationDate) Select Id, Name, lower(hex(randomblob(6))), CreationDate from Users;";

pub const DROP_UNNUMBERED_USERS: &'static str = "DROP TABLE Users;";

pub const RENAME_NUMBERED_USERS: &'static str = "ALTER TABLE NewUsers rename to Users";

pub const CREATE_ACCOUNTS: &'static str =
    "CREATE TABLE IF NOT EXISTS Accounts (Id INTEGER PRIMARY KEY, Name Text, UserId INTEGER, Count Decimal , FOREIGN KEY(UserId) REFERENCES Users(Id));";

pub const FOREIGN_KEYS_ON: &'static str = "PRAGMA foreign_keys=ON;";

pub const RENAME_COUNT: &'static str = "ALTER TABLE Accounts rename Count to MoneyCount; ";

pub const DATE_ACCOUNTS: &'static str = "ALTER TABLE Accounts Add CreationDate; ";

pub const CREATE_TRANSACTIONS: &'static str =
    "Create TABLE IF NOT EXISTS Transactions (Id Text Primary key, Amount decimal, Description Text, UserId INTEGER, AccountId INTEGER, PaymentType Integer, CreationDate Text, FOREIGN KEY(UserId) REFERENCES Users(Id), FOREIGN KEY(AccountId) REFERENCES Accounts(Id));";

pub const ADD_PAYMENT_TARGET: &'static str =
    "Alter table Transactions add column PaymentTarget TEXT;";

pub const INDEX_USER_NAMES: &'static str = "Create INDEX IF NOT EXISTS user_name on Users (Name)";

pub const DROP_USER_NAMES_INDEX: &'static str = "DROP INDEX user_name";

/// Every text of the steps that are shipped holds a statement: each begins
/// with a letter.
pub proof fn lemma_shipped_texts_hold_statements()
    ensures
        !is_blank(CREATE_USERS@),
        !is_blank(CREATE_NUMBERED_USERS@),
        !is_blank(NUMBER_USERS@),
        !is_blank(DROP_UNNUMBERED_USERS@),
        !is_blank(RENAME_NUMBERED_USERS@),
        !is_blank(CREATE_ACCOUNTS@),
        !is_blank(FOREIGN_KEYS_ON@),
        !is_blank(RENAME_COUNT@),
        !is_blank(DATE_ACCOUNTS@),
        !is_blank(CREATE_TRANSACTIONS@),
        !is_blank(ADD_PAYMENT_TARGET@),
        !is_blank(INDEX_USER_NAMES@),
        !is_blank(DROP_USER_NAMES_INDEX@),
{
    reveal_strlit("CREATE TABLE IF NOT EXISTS Users (Id INTEGER PRIMARY KEY, Name TEXT, CreationDate DATE);");
    reveal_strlit("CREATE TABLE IF NOT EXISTS NewUsers (Id INTEGER PRIMARY KEY, Name TEXT, Number Text UNIQUE, CreationDate DATE);");
    reveal_strlit("INSERT INTO NewUsers(Id, Name, Number,CreationDate) Select Id, Name, lower(hex(randomblob(6))), CreationDate from Users;");
    reveal_strlit("DROP TABLE Users;");
    reveal_strlit("ALTER TABLE NewUsers rename to Users");
    reveal_strlit("CREATE TABLE IF NOT EXISTS Accounts (Id INTEGER PRIMARY KEY, Name Text, UserId INTEGER, Count Decimal , FOREIGN KEY(UserId) REFERENCES Users(Id));");
    reveal_strlit("PRAGMA foreign_keys=ON;");
    reveal_strlit("ALTER TABLE Accounts rename Count to MoneyCount; ");
    reveal_strlit("ALTER TABLE Accounts Add CreationDate; ");
    reveal_strlit("Create TABLE IF NOT EXISTS Transactions (Id Text Primary key, Amount decimal, Description Text, UserId INTEGER, AccountId INTEGER, PaymentType Integer, CreationDate Text, FOREIGN KEY(UserId) REFERENCES Users(Id), FOREIGN KEY(AccountId) REFERENCES Accounts(Id));");
    reveal_strlit("Alter table Transactions add column PaymentTarget TEXT;");
    reveal_strlit("Create INDEX IF NOT EXISTS user_name on Users (Name)");
    reveal_strlit("DROP INDEX user_name");
    assert(!is_filler(CREATE_USERS@[0]));
    assert(!is_filler(CREATE_NUMBERED_USERS@[0]));
    assert(!is_filler(NUMBER_USERS@[0]));
    assert(!is_filler(DROP_UNNUMBERED_USERS@[0]));
    assert(!is_filler(RENAME_NUMBERED_USERS@[0]));
    assert(!is_filler(CREATE_ACCOUNTS@[0]));
    assert(!is_filler(FOREIGN_KEYS_ON@[0]));
    assert(!is_filler(RENAME_COUNT@[0]));
    assert(!is_filler(DATE_ACCOUNTS@[0]));
    assert(!is_filler(CREATE_TRANSACTIONS@[0]));
    assert(!is_filler(ADD_PAYMENT_TARGET@[0]));
    assert(!is_filler(INDEX_USER_NAMES@[0]));
    assert(!is_filler(DROP_USER_NAMES_INDEX@[0]));
}

/// The steps that lead to the schema of the store: users with a unique
/// external number, their accounts, the ledger of money movements, and an
/// index on the users' names. The list is consistent: it can be applied as it
/// stands.
pub fn migrations() -> (migrations: Migrations)
    ensures
        steps_consistent(migrations@),
        migrations@.len() == 12,
        forall|i: int| 0 <= i < 12 ==> (#[trigger] migrations@[i]).index == i + 1,
        migrations@[0].up@ == CREATE_USERS@,
        migrations@[1].up@ == CREATE_NUMBERED_USERS@,
        migrations@[2].up@ == NUMBER_USERS@,
        migrations@[3].up@ == DROP_UNNUMBERED_USERS@,
        migrations@[4].up@ == RENAME_NUMBERED_USERS@,
        migrations@[5].up@ == CREATE_ACCOUNTS@,
        migrations@[6].up@ == FOREIGN_KEYS_ON@,
        migrations@[7].up@ == RENAME_COUNT@,
        migrations@[8].up@ == DATE_ACCOUNTS@,
        migrations@[9].up@ == CREATE_TRANSACTIONS@,
        migrations@[10].up@ == ADD_PAYMENT_TARGET@,
        migrations@[11].up@ == INDEX_USER_NAMES@,
        forall|i: int| 0 <= i < 11 ==> (#[trigger] migrations@[i]).down is None,
        migrations@[11].down matches Some(down) && down@ == DROP_USER_NAMES_INDEX@,
{
    let mut steps: Vec<MigrationStep> = Vec::new();
    steps.push(MigrationStep::up(1, CREATE_USERS));
    steps.push(MigrationStep::up(2, CREATE_NUMBERED_USERS));
    steps.push(MigrationStep::up(3, NUMBER_USERS));
    steps.push(MigrationStep::up(4, DROP_UNNUMBERED_USERS));
    steps.push(MigrationStep::up(5, RENAME_NUMBERED_USERS));
    steps.push(MigrationStep::up(6, CREATE_ACCOUNTS));
    steps.push(MigrationStep::up(7, FOREIGN_KEYS_ON));
    steps.push(MigrationStep::up(8, RENAME_COUNT));
    steps.push(MigrationStep::up(9, DATE_ACCOUNTS));
    steps.push(MigrationStep::up(10, CREATE_TRANSACTIONS));
    steps.push(MigrationStep::up(11, ADD_PAYMENT_TARGET));
    steps.push(MigrationStep::up(12, INDEX_USER_NAMES).down(DROP_USER_NAMES_INDEX));
    proof {
        lemma_shipped_texts_hold_statements();
    }
    Migrations::new(steps)
}

} // verus!
