use smart_ledger::account::check_account_deletable;
use smart_ledger::budget::{plan_budget_write, BudgetWrite};
use smart_ledger::category::{check_category_deletable, new_category, next_sort_order};
use smart_ledger::error::AppError;
use smart_ledger::record::{balance_change_on_add, balance_change_on_delete, record_or_not_found, BalanceChange};
use smart_ledger::record_type::RecordType;

#[test]
fn account_deletion_refused_when_in_use() {
    assert!(check_account_deletable(0).is_ok());
    match check_account_deletable(3) {
        Err(AppError::InvalidParam(m)) => assert_eq!(m, "该账户有交易记录，无法删除"),
        other => panic!("unexpected {:?}", other),
    }
}

#[test]
fn category_deletion_refused_when_in_use() {
    assert!(check_category_deletable(0).is_ok());
    match check_category_deletable(1) {
        Err(AppError::InvalidParam(m)) => assert_eq!(m, "该分类下有记录，无法删除"),
        other => panic!("unexpected {:?}", other),
    }
}

#[test]
fn new_items_sort_last() {
    assert_eq!(next_sort_order(0), 1);
    assert_eq!(next_sort_order(11), 12);
    assert_eq!(next_sort_order(-3), -2);
    let c = new_category(42, "宠物", "🐱", &RecordType::Expense, 11);
    assert_eq!(c.id, 42);
    assert_eq!(c.name, "宠物");
    assert_eq!(c.icon, "🐱");
    assert_eq!(c.category_type, "expense");
    assert_eq!(c.sort_order, 12);
}

#[test]
fn budget_write_updates_or_inserts() {
    let w = plan_budget_write(Some(9));
    assert_eq!(w, BudgetWrite::Update { id: 9 });
    assert_eq!(w.budget_id(), 9);
    assert_eq!(w.sql(), "UPDATE budgets SET amount = ?1 WHERE id = ?2");
    let w = plan_budget_write(None);
    assert_eq!(w, BudgetWrite::Insert);
    assert_eq!(w.budget_id(), 0);
    assert_eq!(w.sql(), "INSERT INTO budgets (category_id, amount, month) VALUES (?1, ?2, ?3)");
}

#[test]
fn balance_changes_of_records() {
    assert_eq!(balance_change_on_add(&RecordType::Expense), BalanceChange::Decrease);
    assert_eq!(balance_change_on_add(&RecordType::Income), BalanceChange::Increase);
    assert_eq!(balance_change_on_add(&RecordType::Transfer), BalanceChange::Unchanged);
    assert_eq!(balance_change_on_delete(&RecordType::Expense), BalanceChange::Increase);
    assert_eq!(balance_change_on_delete(&RecordType::Income), BalanceChange::Decrease);
    assert_eq!(balance_change_on_delete(&RecordType::Transfer), BalanceChange::Unchanged);
    assert_eq!(
        BalanceChange::Decrease.update_sql(),
        Some("UPDATE accounts SET balance = balance - ?1 WHERE id = ?2")
    );
    assert_eq!(
        BalanceChange::Increase.update_sql(),
        Some("UPDATE accounts SET balance = balance + ?1 WHERE id = ?2")
    );
    assert_eq!(BalanceChange::Unchanged.update_sql(), None);
}

fn apply(balance: i64, change: &BalanceChange, amount: i64) -> i64 {
    match change {
        BalanceChange::Decrease => balance - amount,
        BalanceChange::Increase => balance + amount,
        BalanceChange::Unchanged => balance,
    }
}

#[test]
fn delete_undoes_add_on_concrete_balance() {
    for kind in [RecordType::Expense, RecordType::Income, RecordType::Transfer] {
        let after_add = apply(1000, &balance_change_on_add(&kind), 250);
        let after_delete = apply(after_add, &balance_change_on_delete(&kind), 250);
        assert_eq!(after_delete, 1000);
    }
    assert_eq!(apply(1000, &balance_change_on_add(&RecordType::Expense), 250), 750);
    assert_eq!(apply(1000, &balance_change_on_add(&RecordType::Income), 250), 1250);
}

#[test]
fn lookup_of_record() {
    assert_eq!(record_or_not_found(Some(5u8), 3).unwrap(), 5);
    match record_or_not_found::<u8>(None, 3) {
        Err(AppError::NotFound(m)) => assert_eq!(m, "记录 3 不存在"),
        other => panic!("unexpected {:?}", other),
    }
    match record_or_not_found::<u8>(None, -12) {
        Err(AppError::NotFound(m)) => assert_eq!(m, "记录 -12 不存在"),
        other => panic!("unexpected {:?}", other),
    }
}

#[test]
fn balance_equals_net_of_remaining_records() {
    let records = [(RecordType::Income, 5000i64), (RecordType::Expense, 1200), (RecordType::Transfer, 300), (RecordType::Expense, 800)];
    let mut balance = 0i64;
    for (kind, amount) in &records {
        balance = apply(balance, &balance_change_on_add(kind), *amount);
    }
    assert_eq!(balance, 3000);
    // delete the second record
    let (kind, amount) = &records[1];
    balance = apply(balance, &balance_change_on_delete(kind), *amount);
    assert_eq!(balance, 4200);
}
