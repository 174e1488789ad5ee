use telegram_bot_seller::error::AppError;

#[test]
fn test_app_error_display() {
    let db_err = AppError::Database(rusqlite::Error::QueryReturnedNoRows.to_string());
    assert_eq!(db_err.to_string(), "Database error: Query returned no rows");

    let cfg_err = AppError::Config("missing key".to_string());
    assert_eq!(cfg_err.to_string(), "Configuration error: missing key");

    let tg_err = AppError::Telegram("network timeout".to_string());
    assert_eq!(tg_err.to_string(), "Telegram API error: network timeout");

    let ai_err = AppError::AiApi("rate limited".to_string());
    assert_eq!(ai_err.to_string(), "AI API error: rate limited");

    let tool_err = AppError::UnknownTool("calculator".to_string());
    assert_eq!(tool_err.to_string(), "Unknown tool: calculator");

    let val_err = AppError::Validation("invalid email".to_string());
    assert_eq!(val_err.to_string(), "Validation error: invalid email");
}

#[test]
fn test_app_error_other_messages() {
    assert_eq!(AppError::Pool("timeout".to_string()).to_string(), "Database pool error: timeout");
    assert_eq!(AppError::Http("refused".to_string()).to_string(), "HTTP request error: refused");
    assert_eq!(AppError::Json("eof".to_string()).to_string(), "JSON error: eof");
    assert_eq!(AppError::Io("file not found".to_string()).to_string(), "IO error: file not found");
}

#[test]
fn test_app_error_status_codes() {
    assert_eq!(AppError::Validation("x".to_string()).status_code(), 400);
    assert_eq!(AppError::UnknownTool("x".to_string()).status_code(), 400);
    assert_eq!(AppError::Telegram("x".to_string()).status_code(), 502);
    assert_eq!(AppError::AiApi("x".to_string()).status_code(), 502);
    assert_eq!(AppError::Database("x".to_string()).status_code(), 500);
    assert_eq!(AppError::Config("x".to_string()).status_code(), 500);
    assert_eq!(AppError::Io("x".to_string()).status_code(), 500);
}
