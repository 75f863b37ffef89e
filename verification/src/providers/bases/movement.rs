//! Money movements: what a movement does to a balance, what it leaves in the
//! ledger, and the steps in which both are written as one.

use crate::error::StoreError;
use crate::models::moneytransaction::{MoneyTransaction, PaymentType};
use crate::providers::bases::engine::{
    bind, bindable, cells_of, execute, execute_batch, SqlCell, SqlValue,
};
use crate::providers::bases::statements::{
    update_balance_params, BEGIN, COMMIT, INSERT_RECORD, ROLLBACK, UPDATE_BALANCE,
};
use rusqlite::Connection;
use vstd::prelude::*;

verus! {

/// The change a movement makes to a balance: the magnitude for income, its
/// negative for outcome.
pub open spec fn signed_delta(payment_type: PaymentType, amount: int) -> int {
    match payment_type {
        PaymentType::Income => amount,
        PaymentType::Outcome => -amount,
        PaymentType::Unknown => 0,
    }
}

/// The balance a movement leaves behind.
pub open spec fn balance_after(balance: int, payment_type: PaymentType, amount: int) -> int {
    balance + signed_delta(payment_type, amount)
}

/// Whether a movement stays within what the store can hold: the magnitude
/// and the balance it leaves behind are both kept as 64-bit signed integers.
pub open spec fn movement_in_range(balance: int, payment_type: PaymentType, amount: int) -> bool {
    &&& 0 <= amount <= i64::MAX
    &&& i64::MIN <= balance_after(balance, payment_type, amount) <= i64::MAX
}

/// The ledger entry of a movement, as the parameters of the statement that
/// inserts it: the entry's identifier, the magnitude, the description, the
/// ids of the user and of the account taken from the account the caller
/// holds, the number of the payment type, the time of creation as text and
/// the payment target.
pub open spec fn ledger_entry(transaction: MoneyTransaction, entry_id: Seq<char>) -> Seq<SqlCell> {
    seq![
        SqlCell::Text(entry_id),
        SqlCell::Integer(transaction.amount as int),
        SqlCell::Text(transaction.description@),
        SqlCell::Integer(transaction.account.user_id as int),
        SqlCell::Integer(transaction.account.id as int),
        SqlCell::Integer(transaction.payment_type.spec_code()),
        SqlCell::Text(transaction.create_date.spec_text()),
        SqlCell::Text(transaction.payment_target@),
    ]
}

/// A character of a lower-case hexadecimal number.
pub open spec fn is_lower_hex(c: char) -> bool {
    ('0' <= c <= '9') || ('a' <= c <= 'f')
}

/// The form of an entry's identifier: 32 lower-case hexadecimal digits in
/// groups of 8, 4, 4, 4 and 12, with a hyphen between the groups.
pub open spec fn is_entry_id(id: Seq<char>) -> bool {
    &&& id.len() == 36
    &&& forall|i: int|
        0 <= i < 36 ==> if i == 8 || i == 13 || i == 18 || i == 23 {
            #[trigger] id[i] == '-'
        } else {
            is_lower_hex(id[i])
        }
}

/// `Uuid::new_v4`, as text: a fresh identifier, drawn at random from the
/// operating system. Two calls differ. It panics where the operating system
/// gives no random bytes.
#[verifier::external_body]
pub(crate) fn new_entry_id() -> (id: String)
    ensures
        is_entry_id(id@),
{
    uuid::Uuid::new_v4().to_string()
}

/// What the store writes for one movement: the new balance of the account
/// and the entry of the ledger, each also as the parameters of the statement
/// that writes it.
pub struct MovementPlan {
    pub account_id: i32,
    pub new_balance: i64,
    pub balance: Vec<SqlValue>,
    pub entry: Vec<SqlValue>,
}

/// The new balance of a movement as the parameters of the statement that
/// sets it: the id of the account and the balance.
pub open spec fn balance_update(account_id: int, new_balance: int) -> Seq<SqlCell> {
    seq![SqlCell::Integer(account_id), SqlCell::Integer(new_balance)]
}

/// What one step of the writing sends to the engine: statements that take no
/// parameters, or one statement with its parameters.
pub enum Statement<'a> {
    Batch(&'static str),
    Change(&'static str, &'a Vec<SqlValue>),
}

/// The text that a phase sends to the engine, if it sends any: the begin of
/// a transaction, the update of the balance, the insert of the entry, the
/// commit, or the rollback.
pub open spec fn spec_text_of(phase: Phase) -> Option<Seq<char>> {
    match phase {
        Phase::Begin => Some(BEGIN@),
        Phase::SetBalance => Some(UPDATE_BALANCE@),
        Phase::AppendEntry => Some(INSERT_RECORD@),
        Phase::Commit => Some(COMMIT@),
        Phase::Rollback => Some(ROLLBACK@),
        Phase::Committed => None,
        Phase::Failed => None,
    }
}

/// The parameters that a phase sends with its text, if it sends any: the new
/// balance with the update, the entry with the insert.
pub open spec fn spec_params_of(phase: Phase, plan: MovementPlan) -> Option<Seq<SqlValue>> {
    match phase {
        Phase::SetBalance => Some(plan.balance@),
        Phase::AppendEntry => Some(plan.entry@),
        _ => None,
    }
}

impl<'a> Statement<'a> {
    /// The text of the statement.
    pub open spec fn text(self) -> Seq<char> {
        match self {
            Statement::Batch(sql) => sql@,
            Statement::Change(sql, _) => sql@,
        }
    }

    /// The parameters of the statement, if it takes any.
    pub open spec fn params(self) -> Option<Seq<SqlValue>> {
        match self {
            Statement::Batch(_) => None,
            Statement::Change(_, params) => Some(params@),
        }
    }
}

/// What a phase sends to the engine: nothing once the writing has ended,
/// else the text of the phase, with the new balance or the entry of the plan
/// where the text takes parameters.
pub fn statement_of<'a>(phase: Phase, plan: &'a MovementPlan) -> (statement: Option<Statement<'a>>)
    ensures
        match statement {
            Some(sent) => spec_text_of(phase) == Some(sent.text()) && sent.params()
                == spec_params_of(phase, *plan),
            None => spec_text_of(phase) is None,
        },
{
    match phase {
        Phase::Begin => Some(Statement::Batch(BEGIN)),
        Phase::SetBalance => Some(Statement::Change(UPDATE_BALANCE, &plan.balance)),
        Phase::AppendEntry => Some(Statement::Change(INSERT_RECORD, &plan.entry)),
        Phase::Commit => Some(Statement::Batch(COMMIT)),
        Phase::Rollback => Some(Statement::Batch(ROLLBACK)),
        Phase::Committed => None,
        Phase::Failed => None,
    }
}

/// The balance that `delta` leaves behind, unless it leaves the range in
/// which balances are kept.
pub fn shifted_balance(balance: i64, delta: i64) -> (shifted: Result<i64, StoreError>)
    ensures
        match shifted {
            Ok(new_balance) => new_balance == balance + delta,
            Err(error) => error == StoreError::BalanceOutOfRange && !(i64::MIN <= balance + delta
                <= i64::MAX),
        },
{
    match balance.checked_add(delta) {
        Some(new_balance) => Ok(new_balance),
        None => Err(StoreError::BalanceOutOfRange),
    }
}

/// Plans a movement on the account the caller holds. A movement without a
/// direction is rejected, and so is one that would leave the range in which
/// the store keeps money. A movement of magnitude zero is planned like any
/// other: it leaves the balance as it is and is entered in the ledger.
pub fn plan_movement(transaction: &MoneyTransaction, entry_id: String) -> (planned: Result<
    MovementPlan,
    StoreError,
>)
    ensures
        transaction.payment_type is Unknown <==> planned == Err::<MovementPlan, StoreError>(
            StoreError::InvalidPaymentType,
        ),
        !(transaction.payment_type is Unknown) && !movement_in_range(
            transaction.account.money as int,
            transaction.payment_type,
            transaction.amount as int,
        ) <==> planned == Err::<MovementPlan, StoreError>(StoreError::BalanceOutOfRange),
        planned matches Err(error) ==> error is InvalidPaymentType || error is BalanceOutOfRange,
        planned matches Ok(plan) ==> {
            &&& plan.account_id == transaction.account.id
            &&& plan.new_balance == balance_after(
                transaction.account.money as int,
                transaction.payment_type,
                transaction.amount as int,
            )
            &&& bindable(plan.balance@)
            &&& cells_of(plan.balance@) == balance_update(
                plan.account_id as int,
                plan.new_balance as int,
            )
            &&& bindable(plan.entry@)
            &&& cells_of(plan.entry@) == ledger_entry(*transaction, entry_id@)
        },
{
    let account = &transaction.account;
    if transaction.amount > i64::MAX as u64 {
        return match transaction.payment_type {
            PaymentType::Unknown => Err(StoreError::InvalidPaymentType),
            _ => Err(StoreError::BalanceOutOfRange),
        };
    }
    let magnitude = transaction.amount as i64;
    let shifted = match transaction.payment_type {
        PaymentType::Unknown => {
            return Err(StoreError::InvalidPaymentType);
        },
        PaymentType::Income => shifted_balance(account.money, magnitude),
        PaymentType::Outcome => shifted_balance(account.money, -magnitude),
    };
    let new_balance = match shifted {
        Ok(new_balance) => new_balance,
        Err(error) => {
            return Err(error);
        },
    };
    let mut entry: Vec<SqlValue> = Vec::new();
    entry.push(SqlValue::Text(entry_id));
    entry.push(SqlValue::Integer(magnitude));
    entry.push(SqlValue::Text(transaction.description.clone()));
    entry.push(SqlValue::Integer(account.user_id as i64));
    entry.push(SqlValue::Integer(account.id as i64));
    entry.push(SqlValue::Integer(transaction.payment_type.code()));
    entry.push(SqlValue::Text(transaction.create_date.to_string()));
    entry.push(SqlValue::Text(transaction.payment_target.clone()));
    let balance = update_balance_params(account.id, new_balance);
    Ok(MovementPlan { account_id: account.id, new_balance, balance, entry })
}

/// Income of some magnitude followed by outcome of the same magnitude, the
/// second planned on the balance that the first left behind, returns the
/// balance to where it started. Both movements are within range if the first
/// is, and the two ledger entries carry the same magnitude under the two
/// different payment types.
pub proof fn lemma_income_then_outcome_restores_balance(
    income: MoneyTransaction,
    outcome: MoneyTransaction,
    income_id: Seq<char>,
    outcome_id: Seq<char>,
)
    requires
        income.payment_type is Income,
        outcome.payment_type is Outcome,
        income.amount == outcome.amount,
        movement_in_range(income.account.money as int, income.payment_type, income.amount as int),
        outcome.account.money == balance_after(
            income.account.money as int,
            income.payment_type,
            income.amount as int,
        ),
    ensures
        movement_in_range(
            outcome.account.money as int,
            outcome.payment_type,
            outcome.amount as int,
        ),
        balance_after(outcome.account.money as int, outcome.payment_type, outcome.amount as int)
            == income.account.money,
        ledger_entry(income, income_id)[1] == SqlCell::Integer(income.amount as int),
        ledger_entry(outcome, outcome_id)[1] == SqlCell::Integer(income.amount as int),
        ledger_entry(income, income_id)[5] == SqlCell::Integer(1),
        ledger_entry(outcome, outcome_id)[5] == SqlCell::Integer(2),
{
}

/// Where the writing of a movement stands. The balance and the ledger entry
/// are written inside one transaction of the engine: it is begun, the two
/// statements run, and it is committed; the first failure after the begin
/// rolls everything back.
#[derive(Clone, Copy, Debug, PartialEq, Eq, Structural)]
pub enum Phase {
    Begin,
    SetBalance,
    AppendEntry,
    Commit,
    Rollback,
    Committed,
    Failed,
}

impl Phase {
    /// Whether nothing is left to do.
    pub open spec fn spec_is_final(self) -> bool {
        self is Committed || self is Failed
    }

    /// The phase that follows, given whether the step of this phase
    /// succeeded.
    pub open spec fn spec_next(self, succeeded: bool) -> Phase {
        match self {
            Phase::Begin => if succeeded {
                Phase::SetBalance
            } else {
                Phase::Failed
            },
            Phase::SetBalance => if succeeded {
                Phase::AppendEntry
            } else {
                Phase::Rollback
            },
            Phase::AppendEntry => if succeeded {
                Phase::Commit
            } else {
                Phase::Rollback
            },
            Phase::Commit => if succeeded {
                Phase::Committed
            } else {
                Phase::Rollback
            },
            Phase::Rollback => Phase::Failed,
            Phase::Committed => Phase::Committed,
            Phase::Failed => Phase::Failed,
        }
    }

    /// The number of steps that are left at most.
    pub open spec fn steps_left(self) -> nat {
        match self {
            Phase::Begin => 5,
            Phase::SetBalance => 4,
            Phase::AppendEntry => 3,
            Phase::Commit => 2,
            Phase::Rollback => 1,
            Phase::Committed => 0,
            Phase::Failed => 0,
        }
    }

    /// The phase reached from this one when the steps taken succeed or fail
    /// as `outcomes` says, one after the other.
    pub open spec fn after(self, outcomes: Seq<bool>) -> Phase
        decreases outcomes.len(),
    {
        if outcomes.len() == 0 {
            self
        } else {
            self.spec_next(outcomes[0]).after(outcomes.drop_first())
        }
    }

    /// What the writing reports when it has ended in this phase: done where
    /// it was committed, a failed statement in every other phase.
    pub open spec fn spec_report(self) -> Result<(), StoreError> {
        match self {
            Phase::Committed => Ok(()),
            _ => Err(StoreError::QueryFailed),
        }
    }

    /// What the writing reports when it has ended in this phase.
    pub fn report(self) -> (reported: Result<(), StoreError>)
        ensures
            reported == self.spec_report(),
            reported is Ok <==> self is Committed,
    {
        match self {
            Phase::Committed => Ok(()),
            _ => Err(StoreError::QueryFailed),
        }
    }

    /// Whether nothing is left to do.
    pub fn is_final(&self) -> (done: bool)
        ensures
            done == self.spec_is_final(),
    {
        match self {
            Phase::Committed => true,
            Phase::Failed => true,
            _ => false,
        }
    }

    /// The phase that follows, given whether the step of this phase
    /// succeeded. Every step brings the end nearer.
    pub fn next(self, succeeded: bool) -> (following: Phase)
        ensures
            following == self.spec_next(succeeded),
            !self.spec_is_final() ==> following.steps_left() < self.steps_left(),
    {
        match self {
            Phase::Begin => if succeeded {
                Phase::SetBalance
            } else {
                Phase::Failed
            },
            Phase::SetBalance => if succeeded {
                Phase::AppendEntry
            } else {
                Phase::Rollback
            },
            Phase::AppendEntry => if succeeded {
                Phase::Commit
            } else {
                Phase::Rollback
            },
            Phase::Commit => if succeeded {
                Phase::Committed
            } else {
                Phase::Rollback
            },
            Phase::Rollback => Phase::Failed,
            Phase::Committed => Phase::Committed,
            Phase::Failed => Phase::Failed,
        }
    }
}

/// Takes one step of the writing: sends through `conn` what the phase
/// sends, and moves on by the outcome. The phase that follows is the one
/// after a success or the one after a failure, whichever the engine's answer
/// was; a phase that sends nothing stays.
pub(crate) fn advance(conn: &Connection, phase: Phase, plan: &MovementPlan) -> (following: Phase)
    requires
        bindable(plan.balance@),
        bindable(plan.entry@),
    ensures
        following == phase.spec_next(true) || following == phase.spec_next(false),
        !phase.spec_is_final() ==> following.steps_left() < phase.steps_left(),
{
    let succeeded = match statement_of(phase, plan) {
        Some(Statement::Batch(sql)) => execute_batch(conn, sql).is_ok(),
        Some(Statement::Change(sql, params)) => execute(conn, sql, &bind(params)).is_ok(),
        None => true,
    };
    phase.next(succeeded)
}

/// Writes a planned movement through `conn`, as one transaction of the
/// engine: begin, the new balance, the ledger entry, commit. Every phase
/// sends what [`statement_of`] gives for it, and the outcome of what was
/// sent leads to the next phase as [`Phase::next`] says: the first step that
/// fails ends the writing, and what was written is rolled back. The report
/// is that of the phase in which the writing ends.
pub(crate) fn write_movement(conn: &Connection, plan: &MovementPlan) -> (written: Result<
    (),
    StoreError,
>)
    requires
        bindable(plan.balance@),
        bindable(plan.entry@),
    ensures
        written matches Err(error) ==> error == StoreError::QueryFailed,
{
    let mut phase = Phase::Begin;
    while !phase.is_final()
        invariant
            bindable(plan.balance@),
            bindable(plan.entry@),
        decreases phase.steps_left(),
    {
        phase = advance(conn, phase, plan);
    }
    phase.report()
}

/// A movement is committed only after the begin, the balance, the ledger
/// entry and the commit have all succeeded, in this order: whatever the
/// outcomes of the steps, the writing ends as committed if and only if the
/// first four of them are successes.
pub proof fn lemma_committed_iff_every_step_succeeded(outcomes: Seq<bool>)
    ensures
        Phase::Begin.after(outcomes) is Committed <==> outcomes.len() >= 4 && outcomes[0]
            && outcomes[1] && outcomes[2] && outcomes[3],
{
    reveal_with_fuel(Phase::after, 5);
    if outcomes.len() >= 4 {
        let rest = outcomes.drop_first().drop_first().drop_first().drop_first();
        let reached = Phase::Begin.spec_next(outcomes[0]).spec_next(outcomes[1]).spec_next(
            outcomes[2],
        ).spec_next(outcomes[3]);
        if outcomes[0] && outcomes[1] && outcomes[2] && outcomes[3] {
            lemma_final_phase_stays(Phase::Committed, rest);
        } else {
            lemma_never_committed_after_failure(reached, rest);
        }
    }
}

/// Nothing is left half written: a writing that fails after it has begun
/// was rolled back on its way. Whatever the outcomes of the steps, if the
/// begin succeeds and the writing ends as failed, then at some point of it
/// the phase was the rollback.
pub proof fn lemma_failed_after_begin_was_rolled_back(outcomes: Seq<bool>)
    requires
        outcomes.len() > 0,
        outcomes[0],
        Phase::Begin.after(outcomes) is Failed,
    ensures
        exists|taken: int|
            0 < taken < outcomes.len() && #[trigger] Phase::Begin.after(outcomes.take(taken))
                is Rollback,
{
    reveal_with_fuel(Phase::after, 6);
    let failed_at: int = if outcomes.len() > 1 && !outcomes[1] {
        1
    } else if outcomes.len() > 2 && !outcomes[2] {
        2
    } else {
        3
    };
    assert(outcomes.len() > failed_at + 1 && !outcomes[failed_at]) by {
        if outcomes.len() >= 4 && outcomes[1] && outcomes[2] && outcomes[3] {
            lemma_committed_iff_every_step_succeeded(outcomes);
        }
    }
    assert(Phase::Begin.after(outcomes.take(failed_at + 1)) is Rollback);
}

/// Once nothing is left to do, the phase no longer changes.
pub proof fn lemma_final_phase_stays(phase: Phase, outcomes: Seq<bool>)
    requires
        phase.spec_is_final(),
    ensures
        phase.after(outcomes) == phase,
    decreases outcomes.len(),
{
    if outcomes.len() > 0 {
        lemma_final_phase_stays(phase, outcomes.drop_first());
    }
}

/// After a failure the writing is rolled back and fails: it is never
/// committed, whatever follows.
pub proof fn lemma_never_committed_after_failure(phase: Phase, outcomes: Seq<bool>)
    requires
        phase is Rollback || phase is Failed,
    ensures
        !(phase.after(outcomes) is Committed),
    decreases outcomes.len(),
{
    if outcomes.len() > 0 {
        lemma_never_committed_after_failure(phase.spec_next(outcomes[0]), outcomes.drop_first());
    }
}

} // verus!
