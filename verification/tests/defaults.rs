use smart_ledger::account::default_account_seeds;
use smart_ledger::category::default_category_seeds;

#[test]
fn default_accounts_on_empty_table() {
    let seeds = default_account_seeds(0);
    let got: Vec<(String, String, i32)> =
        seeds.into_iter().map(|s| (s.name, s.icon, s.sort_order)).collect();
    let want = vec![
        ("现金".to_string(), "💵".to_string(), 0),
        ("银行卡".to_string(), "💳".to_string(), 1),
        ("支付宝".to_string(), "📱".to_string(), 2),
        ("微信".to_string(), "💬".to_string(), 3),
    ];
    assert_eq!(got, want);
}

#[test]
fn default_accounts_not_repeated() {
    assert!(default_account_seeds(1).is_empty());
    assert!(default_account_seeds(4).is_empty());
}

#[test]
fn default_categories_on_empty_table() {
    let seeds = default_category_seeds(0);
    assert_eq!(seeds.len(), 17);
    assert_eq!(seeds[0].name, "餐饮");
    assert_eq!(seeds[0].icon, "🍜");
    assert_eq!(seeds[0].category_type, "expense");
    assert_eq!(seeds[0].sort_order, 0);
    assert_eq!(seeds[11].name, "旅行");
    assert_eq!(seeds[11].icon, "✈️");
    assert_eq!(seeds[11].sort_order, 11);
    assert_eq!(seeds[12].name, "工资");
    assert_eq!(seeds[12].category_type, "income");
    assert_eq!(seeds[12].sort_order, 0);
    assert_eq!(seeds[16].name, "其他");
    assert_eq!(seeds[16].icon, "📋");
    assert_eq!(seeds[16].sort_order, 4);
    for s in &seeds[..12] {
        assert_eq!(s.category_type, "expense");
    }
    for s in &seeds[12..] {
        assert_eq!(s.category_type, "income");
    }
}

#[test]
fn default_categories_not_repeated() {
    assert!(default_category_seeds(1).is_empty());
    assert!(default_category_seeds(17).is_empty());
}
