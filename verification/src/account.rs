//! Accounts: the preset ones and when one may go.

use vstd::prelude::*;

use crate::error::AppError;

verus! {

/// A preset account to insert into an empty account table (its balance starts at zero).
#[derive(Debug, Clone)]
pub struct AccountSeed {
    pub name: String,
    pub icon: String,
    pub sort_order: i32,
}

/// The preset accounts, by name and icon, in their order.
pub open spec fn default_accounts() -> Seq<(&'static str, &'static str)> {
    seq![("现金", "💵"), ("银行卡", "💳"), ("支付宝", "📱"), ("微信", "💬")]
}

fn account_table() -> (table: Vec<(&'static str, &'static str)>)
    ensures
        table@ == default_accounts(),
{
    let mut table: Vec<(&'static str, &'static str)> = Vec::new();
    table.push(("现金", "💵"));
    table.push(("银行卡", "💳"));
    table.push(("支付宝", "📱"));
    table.push(("微信", "💬"));
    assert(table@ =~= default_accounts());
    table
}

/// The presets to insert, given how many accounts exist: none unless the table is
/// empty; else each preset account, numbered from 0 in its order.
pub fn default_account_seeds(existing_count: i64) -> (seeds: Vec<AccountSeed>)
    ensures
        existing_count > 0 ==> seeds@.len() == 0,
        existing_count <= 0 ==> {
            &&& seeds@.len() == default_accounts().len()
            &&& forall|i: int|
                0 <= i < default_accounts().len() ==> {
                    &&& (#[trigger] seeds@[i]).name@ == default_accounts()[i].0@
                    &&& seeds@[i].icon@ == default_accounts()[i].1@
                    &&& seeds@[i].sort_order == i
                }
        },
        existing_count <= 0 ==> seeds@.map_values(|s: AccountSeed| s.name@) == preset_account_names(),
        existing_count <= 0 ==> seeds@.map_values(|s: AccountSeed| s.icon@) == preset_account_icons(),
        forall|i: int, j: int|
            0 <= i < j < seeds@.len() ==> (#[trigger] seeds@[i]).name@ != (#[trigger] seeds@[j]).name@ && seeds@[i].icon@ != seeds@[j].icon@,
{
    let mut seeds: Vec<AccountSeed> = Vec::new();
    if existing_count > 0 {
        return seeds;
    }
    let table = account_table();
    let mut i: usize = 0;
    while i < table.len()
        invariant
            table@ == default_accounts(),
            i <= table@.len(),
            seeds@.len() == i,
            forall|j: int|
                0 <= j < i ==> {
                    &&& (#[trigger] seeds@[j]).name@ == table@[j].0@
                    &&& seeds@[j].icon@ == table@[j].1@
                    &&& seeds@[j].sort_order == j
                },
        decreases table@.len() - i,
    {
        let (name, icon) = table[i];
        seeds.push(AccountSeed { name: String::from_str(name), icon: String::from_str(icon), sort_order: i as i32 });
        i = i + 1;
    }
    proof {
        assert(seeds@.map_values(|s: AccountSeed| s.name@) =~= preset_account_names());
        assert(seeds@.map_values(|s: AccountSeed| s.icon@) =~= preset_account_icons());
        lemma_preset_accounts_distinct();
    }
    seeds
}

/// The names of the preset accounts, in their order.
pub open spec fn preset_account_names() -> Seq<Seq<char>> {
    seq!["现金"@, "银行卡"@, "支付宝"@, "微信"@]
}

/// The icons of the preset accounts, in their order.
pub open spec fn preset_account_icons() -> Seq<Seq<char>> {
    seq!["💵"@, "💳"@, "📱"@, "💬"@]
}

/// No two preset accounts share a name or an icon.
pub proof fn lemma_preset_accounts_distinct()
    ensures
        preset_account_names().len() == 4,
        preset_account_icons().len() == 4,
        forall|i: int, j: int|
            0 <= i < j < 4 ==> #[trigger] preset_account_names()[i] != #[trigger] preset_account_names()[j],
        forall|i: int, j: int|
            0 <= i < j < 4 ==> #[trigger] preset_account_icons()[i] != #[trigger] preset_account_icons()[j],
{
    reveal_strlit("现金");
    reveal_strlit("💵");
    reveal_strlit("银行卡");
    reveal_strlit("💳");
    reveal_strlit("支付宝");
    reveal_strlit("📱");
    reveal_strlit("微信");
    reveal_strlit("💬");
    let names = preset_account_names();
    let icons = preset_account_icons();
    assert forall|i: int, j: int| 0 <= i < j < 4 implies #[trigger] names[i] != #[trigger] names[j] by {
        assert(names[i][0] != names[j][0]);
    }
    assert forall|i: int, j: int| 0 <= i < j < 4 implies #[trigger] icons[i] != #[trigger] icons[j] by {
        assert(icons[i][0] != icons[j][0]);
    }
}

/// The message of the refusal to delete an account that records use.
pub open spec fn account_in_use_message() -> Seq<char> {
    "该账户有交易记录，无法删除"@
}

/// Allows deleting an account exactly when no record uses it (`record_count` is how many do).
pub fn check_account_deletable(record_count: i64) -> (r: Result<(), AppError>)
    ensures
        record_count > 0 <==> r is Err,
        r matches Err(e) ==> (e matches AppError::InvalidParam(m) && m@ == account_in_use_message()),
{
    if record_count > 0 {
        Err(AppError::InvalidParam(String::from_str("该账户有交易记录，无法删除")))
    } else {
        Ok(())
    }
}

} // verus!
