use smart_ledger::error::AppError;
use smart_ledger::record_type::RecordType;

#[test]
fn record_type_names() {
    assert_eq!(RecordType::Expense.to_string(), "expense");
    assert_eq!(RecordType::Income.to_string(), "income");
    assert_eq!(RecordType::Transfer.to_string(), "transfer");
}

#[test]
fn record_type_from_known_names() {
    assert_eq!(RecordType::from_str("expense").unwrap(), RecordType::Expense);
    assert_eq!(RecordType::from_str("income").unwrap(), RecordType::Income);
    assert_eq!(RecordType::from_str("transfer").unwrap(), RecordType::Transfer);
}

#[test]
fn record_type_round_trip() {
    for t in [RecordType::Expense, RecordType::Income, RecordType::Transfer] {
        let name = t.to_string();
        assert_eq!(RecordType::from_str(&name).unwrap(), t);
    }
}

#[test]
fn record_type_from_unknown_name() {
    match RecordType::from_str("refund") {
        Err(AppError::InvalidParam(m)) => assert_eq!(m, "无效的记录类型: refund"),
        other => panic!("unexpected {:?}", other),
    }
}

#[test]
fn record_type_names_are_case_sensitive() {
    match RecordType::from_str("Expense") {
        Err(AppError::InvalidParam(m)) => assert_eq!(m, "无效的记录类型: Expense"),
        other => panic!("unexpected {:?}", other),
    }
    assert!(RecordType::from_str("").is_err());
    assert!(RecordType::from_str("expenses").is_err());
    assert!(RecordType::from_str("incom").is_err());
}
