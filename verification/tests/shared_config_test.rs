use telegram_bot_seller::config::{AppConfig, ConfigError, ConfigVar, EnvValues, MissingVars};

fn empty_env() -> EnvValues {
    EnvValues {
        telegram_bot_token: None,
        admin_chat_id: None,
        minimax_api_key: None,
        minimax_group_id: None,
        gemini_api_key: None,
        openrouter_api_key: None,
        deepseek_api_key: None,
        database_path: None,
        admin_server_port: None,
        rust_log: None,
    }
}

fn required_env() -> EnvValues {
    let mut env = empty_env();
    env.telegram_bot_token = Some("test_bot_token".to_string());
    env.admin_chat_id = Some("12345".to_string());
    env.minimax_api_key = Some("test_minimax_key".to_string());
    env.minimax_group_id = Some("test_minimax_group".to_string());
    env.gemini_api_key = Some("test_gemini_key".to_string());
    env
}

#[test]
fn test_config_load_success() {
    let mut env = required_env();
    env.openrouter_api_key = Some("test_openrouter_key".to_string());
    env.database_path = Some("./data/test.db".to_string());
    env.admin_server_port = Some("9090".to_string());

    let config = AppConfig::load(env);
    assert!(config.is_ok());
    let config = config.unwrap();

    assert_eq!(config.telegram_token, "test_bot_token");
    assert_eq!(config.admin_chat_id, 12345);
    assert_eq!(config.minimax_api_key, "test_minimax_key");
    assert_eq!(config.minimax_group_id, "test_minimax_group");
    assert_eq!(config.gemini_api_key, "test_gemini_key");
    assert_eq!(config.openrouter_api_key, Some("test_openrouter_key".to_string()));
    assert_eq!(config.database_path, "./data/test.db");
    assert_eq!(config.admin_server_port, 9090);
}

#[test]
fn test_config_load_missing_required() {
    // Set some, but omit TELEGRAM_BOT_TOKEN
    let mut env = required_env();
    env.telegram_bot_token = None;

    let config = AppConfig::load(env);
    assert!(config.is_err());
    let err = config.err().unwrap().message();
    assert!(err.contains("TELEGRAM_BOT_TOKEN"));
}

#[test]
fn test_config_load_optional_missing() {
    let config = AppConfig::load(required_env());
    assert!(config.is_ok());
    let config = config.unwrap();
    assert_eq!(config.openrouter_api_key, None);
}

#[test]
fn test_config_defaults() {
    let config = AppConfig::load(required_env()).unwrap();
    assert_eq!(config.deepseek_api_key, None);
    assert_eq!(config.database_path, "./data/bot.db");
    assert_eq!(config.admin_server_port, 8080);
    assert_eq!(config.rust_log, "info");
}

#[test]
fn test_config_trims_numbers_and_drops_blank_keys() {
    let mut env = required_env();
    env.admin_chat_id = Some("  -100200  ".to_string());
    env.admin_server_port = Some(" 443\n".to_string());
    env.openrouter_api_key = Some("   ".to_string());
    env.deepseek_api_key = Some(" ds-key ".to_string());
    let config = AppConfig::load(env).unwrap();
    assert_eq!(config.admin_chat_id, -100200);
    assert_eq!(config.admin_server_port, 443);
    assert_eq!(config.openrouter_api_key, None);
    assert_eq!(config.deepseek_api_key, Some(" ds-key ".to_string()));
}

#[test]
fn test_config_errors_in_order() {
    let e = AppConfig::load(empty_env()).err().unwrap();
    assert_eq!(e, ConfigError::NotSet(MissingVars { telegram_bot_token: true, admin_chat_id: true }));
    assert_eq!(e.message(), "TELEGRAM_BOT_TOKEN, ADMIN_CHAT_ID environment variables not set");

    let mut env = required_env();
    env.telegram_bot_token = None;
    assert_eq!(
        AppConfig::load(env).err().unwrap().message(),
        "TELEGRAM_BOT_TOKEN environment variable not set"
    );

    let mut env = required_env();
    env.telegram_bot_token = Some(" \t".to_string());
    let e = AppConfig::load(env).err().unwrap();
    assert_eq!(e, ConfigError::Empty(ConfigVar::TelegramBotToken));
    assert_eq!(e.message(), "TELEGRAM_BOT_TOKEN cannot be empty");

    let mut env = required_env();
    env.admin_chat_id = None;
    let e = AppConfig::load(env).err().unwrap();
    assert_eq!(e.message(), "ADMIN_CHAT_ID environment variable not set");

    let mut env = required_env();
    env.admin_chat_id = Some("12a".to_string());
    let e = AppConfig::load(env).err().unwrap();
    assert_eq!(e, ConfigError::InvalidAdminChatId);
    assert_eq!(e.message(), "ADMIN_CHAT_ID must be a valid 64-bit integer");

    let mut env = required_env();
    env.database_path = Some("  ".to_string());
    assert_eq!(AppConfig::load(env).err().unwrap().message(), "DATABASE_PATH cannot be empty");

    let mut env = required_env();
    env.admin_server_port = Some("70000".to_string());
    let e = AppConfig::load(env).err().unwrap();
    assert_eq!(e, ConfigError::InvalidAdminServerPort);
    assert_eq!(e.message(), "ADMIN_SERVER_PORT must be a valid 16-bit unsigned integer");
}

#[test]
fn test_config_ai_credentials_optional() {
    let mut env = required_env();
    env.minimax_api_key = None;
    env.minimax_group_id = None;
    env.gemini_api_key = None;
    env.rust_log = Some("trace".to_string());
    let config = AppConfig::load(env).unwrap();
    assert_eq!(config.minimax_api_key, "");
    assert_eq!(config.minimax_group_id, "");
    assert_eq!(config.gemini_api_key, "");
    assert_eq!(config.rust_log, "trace");

    let mut env = required_env();
    env.gemini_api_key = Some("  ".to_string());
    let config = AppConfig::load(env).unwrap();
    assert_eq!(config.gemini_api_key, "  ");
}
