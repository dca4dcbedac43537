//! Records: what adding or deleting one does to its account's balance, and the answer
//! to a lookup by id.

use vstd::prelude::*;

use crate::error::AppError;
use crate::record_type::{parse_record_type, RecordType};
use crate::text::{push_signed_decimal, signed_decimal};

verus! {

/// How an account's balance moves by a record's amount.
#[derive(Debug, Clone, PartialEq, Eq, Structural)]
pub enum BalanceChange {
    Decrease,
    Increase,
    Unchanged,
}

/// The balance after applying `change` by `amount`.
pub open spec fn apply_balance_change(balance: int, change: BalanceChange, amount: int) -> int {
    match change {
        BalanceChange::Decrease => balance - amount,
        BalanceChange::Increase => balance + amount,
        BalanceChange::Unchanged => balance,
    }
}

/// What a new record of kind `kind` does to its account: an expense spends, an income
/// earns, a transfer leaves the balance alone.
pub open spec fn change_on_add(kind: RecordType) -> BalanceChange {
    match kind {
        RecordType::Expense => BalanceChange::Decrease,
        RecordType::Income => BalanceChange::Increase,
        RecordType::Transfer => BalanceChange::Unchanged,
    }
}

/// What deleting a record of kind `kind` does to its account.
pub open spec fn change_on_delete(kind: RecordType) -> BalanceChange {
    match kind {
        RecordType::Expense => BalanceChange::Increase,
        RecordType::Income => BalanceChange::Decrease,
        RecordType::Transfer => BalanceChange::Unchanged,
    }
}

/// Lowers an account's balance (parameter 1 the amount, parameter 2 the account id).
pub const DECREASE_BALANCE_SQL: &'static str = "UPDATE accounts SET balance = balance - ?1 WHERE id = ?2";

/// Raises an account's balance (parameter 1 the amount, parameter 2 the account id).
pub const INCREASE_BALANCE_SQL: &'static str = "UPDATE accounts SET balance = balance + ?1 WHERE id = ?2";

/// The change that adding a record of kind `kind` makes to its account.
pub fn balance_change_on_add(kind: &RecordType) -> (change: BalanceChange)
    ensures
        change == change_on_add(*kind),
{
    match kind {
        RecordType::Expense => BalanceChange::Decrease,
        RecordType::Income => BalanceChange::Increase,
        RecordType::Transfer => BalanceChange::Unchanged,
    }
}

/// The change that deleting a record of kind `kind` makes to its account.
pub fn balance_change_on_delete(kind: &RecordType) -> (change: BalanceChange)
    ensures
        change == change_on_delete(*kind),
{
    match kind {
        RecordType::Expense => BalanceChange::Increase,
        RecordType::Income => BalanceChange::Decrease,
        RecordType::Transfer => BalanceChange::Unchanged,
    }
}

/// The change that deleting a record whose kind is stored as `name` makes to its
/// account. A stored name that is no record kind leaves the balance alone, as every kind
/// other than an expense or an income does.
pub fn balance_change_on_delete_stored(name: &str) -> (change: BalanceChange)
    ensures
        change == match parse_record_type(name@) {
            Some(kind) => change_on_delete(kind),
            None => BalanceChange::Unchanged,
        },
{
    match RecordType::from_str(name) {
        Ok(kind) => balance_change_on_delete(&kind),
        Err(_) => BalanceChange::Unchanged,
    }
}

impl BalanceChange {
    /// The statement that carries out the change, if it changes anything.
    pub fn update_sql(&self) -> (sql: Option<&'static str>)
        ensures
            sql == match *self {
                BalanceChange::Decrease => Some(DECREASE_BALANCE_SQL),
                BalanceChange::Increase => Some(INCREASE_BALANCE_SQL),
                BalanceChange::Unchanged => None::<&'static str>,
            },
    {
        match self {
            BalanceChange::Decrease => Some(DECREASE_BALANCE_SQL),
            BalanceChange::Increase => Some(INCREASE_BALANCE_SQL),
            BalanceChange::Unchanged => None,
        }
    }
}

/// Deleting a record puts its account's balance back where adding it found it.
pub proof fn lemma_delete_undoes_add(kind: RecordType, balance: int, amount: int)
    ensures
        apply_balance_change(
            apply_balance_change(balance, change_on_add(kind), amount),
            change_on_delete(kind),
            amount,
        ) == balance,
{
}

/// The balance of an account that opened at zero, once its records were added in order
/// (each record as its kind and amount).
pub open spec fn net_balance(records: Seq<(RecordType, int)>) -> int
    decreases records.len(),
{
    if records.len() == 0 {
        0
    } else {
        apply_balance_change(net_balance(records.drop_last()), change_on_add(records.last().0), records.last().1)
    }
}

/// Adding a record keeps an account's balance equal to the net of its records.
pub proof fn lemma_add_keeps_net_balance(records: Seq<(RecordType, int)>, kind: RecordType, amount: int)
    ensures
        apply_balance_change(net_balance(records), change_on_add(kind), amount) == net_balance(
            records.push((kind, amount)),
        ),
{
    assert(records.push((kind, amount)).drop_last() =~= records);
}

/// Deleting any one of an account's records keeps its balance equal to the net of the
/// records that remain.
pub proof fn lemma_delete_keeps_net_balance(records: Seq<(RecordType, int)>, i: int)
    requires
        0 <= i < records.len(),
    ensures
        apply_balance_change(net_balance(records), change_on_delete(records[i].0), records[i].1)
            == net_balance(records.remove(i)),
    decreases records.len(),
{
    let last = records.last();
    if i == records.len() - 1 {
        assert(records.remove(i) =~= records.drop_last());
        lemma_delete_undoes_add(last.0, net_balance(records.drop_last()), last.1);
    } else {
        let rest = records.drop_last();
        lemma_delete_keeps_net_balance(rest, i);
        assert(records.remove(i).drop_last() =~= rest.remove(i));
        assert(records.remove(i).last() == last);
        assert(rest[i] == records[i]);
    }
}

/// The message of the error for a record id that names no record.
pub open spec fn record_not_found_message(record_id: int) -> Seq<char> {
    "记录 "@ + signed_decimal(record_id) + " 不存在"@
}

/// The answer to a lookup of record `record_id`: the record found, else a not-found error.
pub fn record_or_not_found<T>(found: Option<T>, record_id: i64) -> (r: Result<T, AppError>)
    ensures
        found matches Some(v) ==> r == Ok::<T, AppError>(v),
        found is None ==> (r matches Err(AppError::NotFound(m)) && m@ == record_not_found_message(record_id as int)),
{
    match found {
        Some(v) => Ok(v),
        None => {
            let mut m = String::from_str("记录 ");
            push_signed_decimal(&mut m, record_id);
            m.append(" 不存在");
            Err(AppError::NotFound(m))
        },
    }
}

/// The two balance statements differ only in the sign: one subtracts the amount from the
/// account's balance, the other adds it.
pub proof fn lemma_balance_statements_differ_by_sign()
    ensures
        DECREASE_BALANCE_SQL@ == "UPDATE accounts SET balance = balance "@ + "-"@ + " ?1 WHERE id = ?2"@,
        INCREASE_BALANCE_SQL@ == "UPDATE accounts SET balance = balance "@ + "+"@ + " ?1 WHERE id = ?2"@,
{
    reveal_strlit("UPDATE accounts SET balance = balance - ?1 WHERE id = ?2");
    reveal_strlit("UPDATE accounts SET balance = balance + ?1 WHERE id = ?2");
    reveal_strlit(" ?1 WHERE id = ?2");
    reveal_strlit("+");
    reveal_strlit("-");
    reveal_strlit("UPDATE accounts SET balance = balance ");
    assert(DECREASE_BALANCE_SQL@ =~= "UPDATE accounts SET balance = balance "@ + "-"@ + " ?1 WHERE id = ?2"@);
    assert(INCREASE_BALANCE_SQL@ =~= "UPDATE accounts SET balance = balance "@ + "+"@ + " ?1 WHERE id = ?2"@);
}

} // verus!
