//! Budgets: whether setting one updates the month's budget or inserts a new one, and
//! why that keeps one budget per category and month.

use vstd::prelude::*;

verus! {

/// How setting a budget writes it.
#[derive(Debug, Clone, PartialEq, Eq, Structural)]
pub enum BudgetWrite {
    /// The category already has a budget for the month: its amount changes.
    Update { id: i64 },
    /// The category has no budget for the month yet: one is inserted.
    Insert,
}

/// Finds the budget of a category for a month (parameter 1 the category, 2 the month).
pub const FIND_BUDGET_SQL: &'static str = "SELECT id FROM budgets WHERE category_id = ?1 AND month = ?2";

/// Changes a budget's amount (parameter 1 the amount, 2 the budget id).
pub const UPDATE_BUDGET_SQL: &'static str = "UPDATE budgets SET amount = ?1 WHERE id = ?2";

/// Inserts a budget (parameter 1 the category, 2 the amount, 3 the month).
pub const INSERT_BUDGET_SQL: &'static str = "INSERT INTO budgets (category_id, amount, month) VALUES (?1, ?2, ?3)";

/// The write that sets a budget, given the id of the budget that the category already
/// has for the month, if any.
pub open spec fn planned_budget_write(existing: Option<i64>) -> BudgetWrite {
    match existing {
        Some(id) => BudgetWrite::Update { id },
        None => BudgetWrite::Insert,
    }
}

/// The write that sets a budget, given the id of the budget that the category already
/// has for the month, if any.
pub fn plan_budget_write(existing: Option<i64>) -> (w: BudgetWrite)
    ensures
        w == planned_budget_write(existing),
{
    match existing {
        Some(id) => BudgetWrite::Update { id },
        None => BudgetWrite::Insert,
    }
}

impl BudgetWrite {
    /// The id reported for the budget that was set: the existing budget's id on an
    /// update, 0 on an insert.
    pub fn budget_id(&self) -> (id: i64)
        ensures
            id == match *self {
                BudgetWrite::Update { id } => id,
                BudgetWrite::Insert => 0,
            },
    {
        match self {
            BudgetWrite::Update { id } => *id,
            BudgetWrite::Insert => 0,
        }
    }

    /// The statement that carries out the write.
    pub fn sql(&self) -> (sql: &'static str)
        ensures
            sql == match *self {
                BudgetWrite::Update { .. } => UPDATE_BUDGET_SQL,
                BudgetWrite::Insert => INSERT_BUDGET_SQL,
            },
    {
        match self {
            BudgetWrite::Update { .. } => UPDATE_BUDGET_SQL,
            BudgetWrite::Insert => INSERT_BUDGET_SQL,
        }
    }
}

/// Whether a budget table, which maps each row id to the row's category id, month and
/// amount, holds at most one budget per category and month.
pub open spec fn keeps_one_budget_per_month<A>(table: Map<i64, (i64, Seq<char>, A)>) -> bool {
    forall|a: i64, b: i64|
        #![trigger table[a], table[b]]
        table.dom().contains(a) && table.dom().contains(b) && table[a].0 == table[b].0 && table[a].1
            == table[b].1 ==> a == b
}

/// Whether row `id` is the budget of category `category_id` for `month`.
pub open spec fn is_budget_of<A>(table: Map<i64, (i64, Seq<char>, A)>, id: i64, category_id: i64, month: Seq<char>) -> bool {
    table.dom().contains(id) && table[id].0 == category_id && table[id].1 == month
}

/// The row that `FIND_BUDGET_SQL` finds for a category and month, if there is one.
pub open spec fn found_budget<A>(table: Map<i64, (i64, Seq<char>, A)>, category_id: i64, month: Seq<char>) -> Option<i64> {
    if exists|id: i64| is_budget_of(table, id, category_id, month) {
        Some(choose|id: i64| is_budget_of(table, id, category_id, month))
    } else {
        None
    }
}

/// The budget table after a write of `amount` for a category and month: an update changes
/// the amount of its row; an insert adds a row under `new_id`, the id the table gives it.
pub open spec fn budget_table_after<A>(
    table: Map<i64, (i64, Seq<char>, A)>,
    write: BudgetWrite,
    category_id: i64,
    month: Seq<char>,
    amount: A,
    new_id: i64,
) -> Map<i64, (i64, Seq<char>, A)> {
    match write {
        BudgetWrite::Update { id } => table.insert(id, (table[id].0, table[id].1, amount)),
        BudgetWrite::Insert => table.insert(new_id, (category_id, month, amount)),
    }
}

/// The budget table after setting the budget of a category for a month: find its row,
/// then write as planned.
pub open spec fn budget_table_after_set<A>(
    table: Map<i64, (i64, Seq<char>, A)>,
    category_id: i64,
    month: Seq<char>,
    amount: A,
    new_id: i64,
) -> Map<i64, (i64, Seq<char>, A)> {
    budget_table_after(
        table,
        planned_budget_write(found_budget(table, category_id, month)),
        category_id,
        month,
        amount,
        new_id,
    )
}

/// Setting a budget keeps one budget per category and month: afterwards the category has
/// exactly one budget for the month, with the new amount, every other budget is as it
/// was, and no row appears but the one an insert adds.
pub proof fn lemma_set_budget_keeps_one_per_month<A>(
    table: Map<i64, (i64, Seq<char>, A)>,
    category_id: i64,
    month: Seq<char>,
    amount: A,
    new_id: i64,
)
    requires
        keeps_one_budget_per_month(table),
        !table.dom().contains(new_id),
    ensures
        ({
            let after = budget_table_after_set(table, category_id, month, amount, new_id);
            &&& keeps_one_budget_per_month(after)
            &&& found_budget(after, category_id, month) matches Some(id) && after[id] == (category_id, month, amount)
            &&& forall|id: i64|
                #![trigger table[id]]
                table.dom().contains(id) && !(table[id].0 == category_id && table[id].1 == month)
                    ==> after.dom().contains(id) && after[id] == table[id]
            &&& forall|id: i64| after.dom().contains(id) ==> table.dom().contains(id) || id == new_id
        }),
{
    let after = budget_table_after_set(table, category_id, month, amount, new_id);
    let row = (category_id, month, amount);
    match found_budget(table, category_id, month) {
        Some(id) => {
            assert(is_budget_of(table, id, category_id, month));
            assert(after == table.insert(id, row));
            assert forall|a: i64, b: i64|
                #![trigger after[a], after[b]]
                after.dom().contains(a) && after.dom().contains(b) && after[a].0 == after[b].0
                    && after[a].1 == after[b].1 implies a == b by {
                assert(table[a].0 == after[a].0 && table[a].1 == after[a].1);
                assert(table[b].0 == after[b].0 && table[b].1 == after[b].1);
            }
            assert(is_budget_of(after, id, category_id, month));
        },
        None => {
            assert(after == table.insert(new_id, row));
            assert forall|a: i64, b: i64|
                #![trigger after[a], after[b]]
                after.dom().contains(a) && after.dom().contains(b) && after[a].0 == after[b].0
                    && after[a].1 == after[b].1 implies a == b by {
                if a == new_id && b != new_id {
                    assert(is_budget_of(table, b, category_id, month));
                } else if b == new_id && a != new_id {
                    assert(is_budget_of(table, a, category_id, month));
                }
            }
            assert(is_budget_of(after, new_id, category_id, month));
        },
    }
}

/// Setting the same budget twice changes nothing the second time: the second setting
/// finds the row the first left and writes the same amount into it.
pub proof fn lemma_set_budget_twice<A>(
    table: Map<i64, (i64, Seq<char>, A)>,
    category_id: i64,
    month: Seq<char>,
    amount: A,
    new_id: i64,
    later_new_id: i64,
)
    requires
        keeps_one_budget_per_month(table),
        !table.dom().contains(new_id),
        !budget_table_after_set(table, category_id, month, amount, new_id).dom().contains(later_new_id),
    ensures
        ({
            let once = budget_table_after_set(table, category_id, month, amount, new_id);
            &&& budget_table_after_set(once, category_id, month, amount, later_new_id) == once
            &&& planned_budget_write(found_budget(once, category_id, month)) is Update
        }),
{
    lemma_set_budget_keeps_one_per_month(table, category_id, month, amount, new_id);
    let once = budget_table_after_set(table, category_id, month, amount, new_id);
    let id = found_budget(once, category_id, month)->0;
    assert(once.insert(id, (once[id].0, once[id].1, amount)) =~= once);
}

/// The budget of a category for a month is found by both keys; an update changes only
/// the amount of the row found; an insert stores the category, amount and month.
pub proof fn lemma_budget_statements()
    ensures
        FIND_BUDGET_SQL@ == "SELECT id FROM budgets WHERE "@ + "category_id = ?1"@ + " AND "@ + "month = ?2"@,
        UPDATE_BUDGET_SQL@ == "UPDATE budgets SET amount = ?1"@ + " WHERE id = ?2"@,
        INSERT_BUDGET_SQL@ == "INSERT INTO budgets (category_id, amount, month)"@ + " VALUES (?1, ?2, ?3)"@,
{
    reveal_strlit("SELECT id FROM budgets WHERE category_id = ?1 AND month = ?2");
    reveal_strlit("UPDATE budgets SET amount = ?1 WHERE id = ?2");
    reveal_strlit("INSERT INTO budgets (category_id, amount, month) VALUES (?1, ?2, ?3)");
    reveal_strlit(" AND ");
    reveal_strlit(" VALUES (?1, ?2, ?3)");
    reveal_strlit(" WHERE id = ?2");
    reveal_strlit("INSERT INTO budgets (category_id, amount, month)");
    reveal_strlit("SELECT id FROM budgets WHERE ");
    reveal_strlit("UPDATE budgets SET amount = ?1");
    reveal_strlit("category_id = ?1");
    reveal_strlit("month = ?2");
    assert(FIND_BUDGET_SQL@ =~= "SELECT id FROM budgets WHERE "@ + "category_id = ?1"@ + " AND "@ + "month = ?2"@);
    assert(UPDATE_BUDGET_SQL@ =~= "UPDATE budgets SET amount = ?1"@ + " WHERE id = ?2"@);
    assert(INSERT_BUDGET_SQL@ =~= "INSERT INTO budgets (category_id, amount, month)"@ + " VALUES (?1, ?2, ?3)"@);
}

} // verus!
