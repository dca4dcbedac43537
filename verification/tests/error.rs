use smart_ledger::error::AppError;

#[test]
fn error_text_of_own_messages() {
    assert_eq!(AppError::InvalidParam("x".to_string()).to_string(), "Invalid param: x");
    assert_eq!(AppError::NotFound("记录 7 不存在".to_string()).to_string(), "Not found: 记录 7 不存在");
    assert_eq!(AppError::AiError("timeout".to_string()).to_string(), "AI error: timeout");
}

#[test]
fn error_text_of_json_error() {
    let e = serde_json::from_str::<u32>("nope").unwrap_err();
    let detail = e.to_string();
    let text = AppError::Json(e).to_string();
    assert_eq!(text, format!("JSON error: {}", detail));
}

#[test]
fn error_text_of_database_error() {
    let e = rusqlite::Error::QueryReturnedNoRows;
    let detail = e.to_string();
    let text = AppError::Database(e).to_string();
    assert_eq!(text, format!("Database error: {}", detail));
}

#[test]
fn error_from_outside_errors() {
    let e: AppError = rusqlite::Error::QueryReturnedNoRows.into();
    assert!(matches!(e, AppError::Database(rusqlite::Error::QueryReturnedNoRows)));
    let j = serde_json::from_str::<u32>("nope").unwrap_err();
    let e: AppError = j.into();
    assert!(matches!(e, AppError::Json(_)));
}

#[test]
fn error_text_of_network_error() {
    // A client error from an unparsable URL, made without any network access.
    let e = reqwest::Client::new().get("not a url").build().unwrap_err();
    let detail = e.to_string();
    let text = AppError::Network(e).to_string();
    assert_eq!(text, format!("Network error: {}", detail));
    assert!(text.starts_with("Network error: "));
}
