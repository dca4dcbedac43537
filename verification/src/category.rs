//! Categories: their record, the preset ones, the order of new ones, when one may go,
//! and how the lists of each kind make up the list of all.

use vstd::multiset::Multiset;
use vstd::prelude::*;

use crate::error::AppError;
use crate::record_type::{parse_record_type, record_type_name, RecordType};

verus! {

/// A category of records.
#[derive(Debug, Clone)]
pub struct Category {
    pub id: i64,
    pub name: String,
    pub icon: String,
    pub category_type: String,
    pub sort_order: i32,
}

/// A preset category to insert into an empty category table.
#[derive(Debug, Clone)]
pub struct CategorySeed {
    pub name: String,
    pub icon: String,
    pub category_type: String,
    pub sort_order: i32,
}

/// The preset expense categories, by name and icon, in their order.
pub open spec fn default_expense_categories() -> Seq<(&'static str, &'static str)> {
    seq![
        ("餐饮", "🍜"),
        ("交通", "🚗"),
        ("购物", "🛒"),
        ("居住", "🏠"),
        ("娱乐", "🎮"),
        ("通讯", "📱"),
        ("医疗", "💊"),
        ("教育", "📚"),
        ("服饰", "👔"),
        ("美容", "💄"),
        ("影视", "🎬"),
        ("旅行", "✈️"),
    ]
}

/// The preset income categories, by name and icon, in their order.
pub open spec fn default_income_categories() -> Seq<(&'static str, &'static str)> {
    seq![
        ("工资", "💰"),
        ("奖金", "🎁"),
        ("投资", "📈"),
        ("兼职", "💼"),
        ("其他", "📋"),
    ]
}

/// A seed that inserts the preset `entry` of kind `kind` at position `order`.
pub open spec fn seeds_entry(seed: CategorySeed, entry: (&'static str, &'static str), kind: RecordType, order: int) -> bool {
    &&& seed.name@ == entry.0@
    &&& seed.icon@ == entry.1@
    &&& seed.category_type@ == record_type_name(kind)
    &&& seed.sort_order == order
}

fn expense_category_table() -> (table: Vec<(&'static str, &'static str)>)
    ensures
        table@ == default_expense_categories(),
{
    let mut table: Vec<(&'static str, &'static str)> = Vec::new();
    table.push(("餐饮", "🍜"));
    table.push(("交通", "🚗"));
    table.push(("购物", "🛒"));
    table.push(("居住", "🏠"));
    table.push(("娱乐", "🎮"));
    table.push(("通讯", "📱"));
    table.push(("医疗", "💊"));
    table.push(("教育", "📚"));
    table.push(("服饰", "👔"));
    table.push(("美容", "💄"));
    table.push(("影视", "🎬"));
    table.push(("旅行", "✈️"));
    assert(table@ =~= default_expense_categories());
    table
}

fn income_category_table() -> (table: Vec<(&'static str, &'static str)>)
    ensures
        table@ == default_income_categories(),
{
    let mut table: Vec<(&'static str, &'static str)> = Vec::new();
    table.push(("工资", "💰"));
    table.push(("奖金", "🎁"));
    table.push(("投资", "📈"));
    table.push(("兼职", "💼"));
    table.push(("其他", "📋"));
    assert(table@ =~= default_income_categories());
    table
}

/// Appends a seed for each entry of `table`, of kind `kind`, numbered from 0.
fn push_category_seeds(seeds: &mut Vec<CategorySeed>, table: &Vec<(&'static str, &'static str)>, kind: &RecordType)
    requires
        table@.len() < 100,
    ensures
        final(seeds)@.len() == old(seeds)@.len() + table@.len(),
        forall|i: int| 0 <= i < old(seeds)@.len() ==> final(seeds)@[i] == old(seeds)@[i],
        forall|i: int|
            0 <= i < table@.len() ==> seeds_entry(#[trigger] final(seeds)@[old(seeds)@.len() + i], table@[i], *kind, i),
{
    let ghost start = seeds@.len();
    let mut i: usize = 0;
    while i < table.len()
        invariant
            i <= table@.len() < 100,
            start == old(seeds)@.len(),
            seeds@.len() == start + i,
            forall|j: int| 0 <= j < start ==> seeds@[j] == old(seeds)@[j],
            forall|j: int| 0 <= j < i ==> seeds_entry(#[trigger] seeds@[start + j], table@[j], *kind, j),
        decreases table@.len() - i,
    {
        let (name, icon) = table[i];
        let seed = CategorySeed {
            name: String::from_str(name),
            icon: String::from_str(icon),
            category_type: kind.to_string(),
            sort_order: i as i32,
        };
        seeds.push(seed);
        i = i + 1;
    }
}

/// The presets to insert, given how many categories exist: none unless the table is
/// empty; else the expense presets numbered from 0, then the income presets numbered
/// from 0.
pub fn default_category_seeds(existing_count: i64) -> (seeds: Vec<CategorySeed>)
    ensures
        existing_count > 0 ==> seeds@.len() == 0,
        existing_count <= 0 ==> {
            let expense = default_expense_categories();
            let income = default_income_categories();
            &&& seeds@.len() == expense.len() + income.len()
            &&& forall|i: int|
                0 <= i < expense.len() ==> seeds_entry(#[trigger] seeds@[i], expense[i], RecordType::Expense, i)
            &&& forall|i: int|
                0 <= i < income.len() ==> seeds_entry(
                    #[trigger] seeds@[expense.len() + i],
                    income[i],
                    RecordType::Income,
                    i,
                )
        },
        existing_count <= 0 ==> seeds@.map_values(|s: CategorySeed| s.name@) == preset_category_names(),
        existing_count <= 0 ==> seeds@.map_values(|s: CategorySeed| s.icon@) == preset_category_icons(),
        forall|i: int, j: int|
            0 <= i < j < seeds@.len() ==> (#[trigger] seeds@[i]).name@ != (#[trigger] seeds@[j]).name@ && seeds@[i].icon@ != seeds@[j].icon@,
{
    let mut seeds: Vec<CategorySeed> = Vec::new();
    if existing_count > 0 {
        return seeds;
    }
    let expense = expense_category_table();
    let income = income_category_table();
    push_category_seeds(&mut seeds, &expense, &RecordType::Expense);
    let ghost after_expense = seeds@;
    assert forall|i: int| 0 <= i < expense@.len() implies seeds_entry(
        #[trigger] after_expense[i],
        expense@[i],
        RecordType::Expense,
        i,
    ) by {
        assert(after_expense[0 + i] == after_expense[i]);
    }
    push_category_seeds(&mut seeds, &income, &RecordType::Income);
    assert forall|i: int| 0 <= i < expense@.len() implies seeds_entry(
        #[trigger] seeds@[i],
        expense@[i],
        RecordType::Expense,
        i,
    ) by {
        assert(seeds@[i] == after_expense[i]);
    }
    proof {
        let expense_rows = default_expense_categories();
        let income_rows = default_income_categories();
        assert forall|i: int| 0 <= i < 17 implies (#[trigger] seeds@[i]).name@ == preset_category_names()[i]
            && seeds@[i].icon@ == preset_category_icons()[i] by {
            if i < 12 {
                assert(seeds_entry(seeds@[i], expense_rows[i], RecordType::Expense, i));
            } else {
                assert(seeds_entry(seeds@[12 + (i - 12)], income_rows[i - 12], RecordType::Income, i - 12));
            }
        }
        assert(seeds@.map_values(|s: CategorySeed| s.name@) =~= preset_category_names());
        assert(seeds@.map_values(|s: CategorySeed| s.icon@) =~= preset_category_icons());
        lemma_preset_categories_distinct();
    }
    seeds
}

/// The names of the preset categories, expense ones then income ones, in their order.
pub open spec fn preset_category_names() -> Seq<Seq<char>> {
    seq!["餐饮"@, "交通"@, "购物"@, "居住"@, "娱乐"@, "通讯"@, "医疗"@, "教育"@, "服饰"@, "美容"@, "影视"@, "旅行"@, "工资"@, "奖金"@, "投资"@, "兼职"@, "其他"@]
}

/// The icons of the preset categories, expense ones then income ones, in their order.
pub open spec fn preset_category_icons() -> Seq<Seq<char>> {
    seq!["🍜"@, "🚗"@, "🛒"@, "🏠"@, "🎮"@, "📱"@, "💊"@, "📚"@, "👔"@, "💄"@, "🎬"@, "✈️"@, "💰"@, "🎁"@, "📈"@, "💼"@, "📋"@]
}

/// No two preset categories share a name or an icon.
pub proof fn lemma_preset_categories_distinct()
    ensures
        preset_category_names().len() == 17,
        preset_category_icons().len() == 17,
        forall|i: int, j: int|
            0 <= i < j < 17 ==> #[trigger] preset_category_names()[i] != #[trigger] preset_category_names()[j],
        forall|i: int, j: int|
            0 <= i < j < 17 ==> #[trigger] preset_category_icons()[i] != #[trigger] preset_category_icons()[j],
{
    reveal_strlit("餐饮");
    reveal_strlit("🍜");
    reveal_strlit("交通");
    reveal_strlit("🚗");
    reveal_strlit("购物");
    reveal_strlit("🛒");
    reveal_strlit("居住");
    reveal_strlit("🏠");
    reveal_strlit("娱乐");
    reveal_strlit("🎮");
    reveal_strlit("通讯");
    reveal_strlit("📱");
    reveal_strlit("医疗");
    reveal_strlit("💊");
    reveal_strlit("教育");
    reveal_strlit("📚");
    reveal_strlit("服饰");
    reveal_strlit("👔");
    reveal_strlit("美容");
    reveal_strlit("💄");
    reveal_strlit("影视");
    reveal_strlit("🎬");
    reveal_strlit("旅行");
    reveal_strlit("✈️");
    reveal_strlit("工资");
    reveal_strlit("💰");
    reveal_strlit("奖金");
    reveal_strlit("🎁");
    reveal_strlit("投资");
    reveal_strlit("📈");
    reveal_strlit("兼职");
    reveal_strlit("💼");
    reveal_strlit("其他");
    reveal_strlit("📋");
    let names = preset_category_names();
    let icons = preset_category_icons();
    assert forall|i: int, j: int| 0 <= i < j < 17 implies #[trigger] names[i] != #[trigger] names[j] by {
        assert(names[i][0] != names[j][0] || names[i][1] != names[j][1]);
    }
    assert forall|i: int, j: int| 0 <= i < j < 17 implies #[trigger] icons[i] != #[trigger] icons[j] by {
        assert(icons[i][0] != icons[j][0]);
    }
}

/// The sort order of an item added after those whose greatest sort order is `max_order`.
pub fn next_sort_order(max_order: i32) -> (order: i32)
    requires
        max_order < i32::MAX,
    ensures
        order == max_order + 1,
{
    max_order + 1
}

/// The category that an insert with the given row id creates, placed after the
/// categories of its kind whose greatest sort order is `max_order`.
pub fn new_category(id: i64, name: &str, icon: &str, kind: &RecordType, max_order: i32) -> (c: Category)
    requires
        max_order < i32::MAX,
    ensures
        c.id == id,
        c.name@ == name@,
        c.icon@ == icon@,
        c.category_type@ == record_type_name(*kind),
        c.sort_order == max_order + 1,
{
    Category {
        id,
        name: String::from_str(name),
        icon: String::from_str(icon),
        category_type: kind.to_string(),
        sort_order: next_sort_order(max_order),
    }
}

/// The message of the refusal to delete a category that records use.
pub open spec fn category_in_use_message() -> Seq<char> {
    "该分类下有记录，无法删除"@
}

/// Allows deleting a category exactly when no record uses it (`record_count` is how many do).
pub fn check_category_deletable(record_count: i64) -> (r: Result<(), AppError>)
    ensures
        record_count > 0 <==> r is Err,
        r matches Err(e) ==> (e matches AppError::InvalidParam(m) && m@ == category_in_use_message()),
{
    if record_count > 0 {
        Err(AppError::InvalidParam(String::from_str("该分类下有记录，无法删除")))
    } else {
        Ok(())
    }
}

/// The categories that the query of `category_query` lists from the rows of the category
/// table, their order aside: those stored under the kind name `name` where one is given
/// (`WHERE category_type = ?1`), else all of them.
pub open spec fn listed_categories(rows: Seq<Category>, name: Option<Seq<char>>) -> Multiset<Category>
    decreases rows.len(),
{
    if rows.len() == 0 {
        Multiset::empty()
    } else {
        let rest = listed_categories(rows.drop_last(), name);
        let row = rows.last();
        match name {
            Some(n) => if row.category_type@ == n {
                rest.insert(row)
            } else {
                rest
            },
            None => rest.insert(row),
        }
    }
}

/// Where every category is stored under the name of a record kind, the lists of the
/// expense, income and transfer categories together hold exactly the list of all
/// categories: each category in one of them, once.
pub proof fn lemma_category_lists_partition(rows: Seq<Category>)
    requires
        forall|i: int| 0 <= i < rows.len() ==> parse_record_type(#[trigger] rows[i].category_type@) is Some,
    ensures
        listed_categories(rows, Some(record_type_name(RecordType::Expense))).add(
            listed_categories(rows, Some(record_type_name(RecordType::Income))),
        ).add(listed_categories(rows, Some(record_type_name(RecordType::Transfer))))
            == listed_categories(rows, None),
    decreases rows.len(),
{
    broadcast use vstd::multiset::group_multiset_axioms;

    if rows.len() > 0 {
        let rest = rows.drop_last();
        assert forall|i: int| 0 <= i < rest.len() implies parse_record_type(
            #[trigger] rest[i].category_type@,
        ) is Some by {
            assert(rest[i] == rows[i]);
        }
        lemma_category_lists_partition(rest);
        let row = rows.last();
        assert(parse_record_type(rows[rows.len() - 1].category_type@) is Some);
        reveal_strlit("expense");
        reveal_strlit("income");
        reveal_strlit("transfer");
        assert("expense"@.len() == 7);
        assert("income"@.len() == 6);
        assert("transfer"@.len() == 8);
        let e = listed_categories(rows, Some(record_type_name(RecordType::Expense)));
        let i = listed_categories(rows, Some(record_type_name(RecordType::Income)));
        let t = listed_categories(rows, Some(record_type_name(RecordType::Transfer)));
        assert(e.add(i).add(t) =~= listed_categories(rows, None));
    }
}

} // verus!
