use telegram_bot_seller::config::AppConfig;
use telegram_bot_seller::settings::{config_changes, setting_value, ConfigForm, ConfigPage, SettingChange, ValueSource};

fn config() -> AppConfig {
    AppConfig {
        telegram_token: "env_tok".to_string(),
        admin_chat_id: -42,
        minimax_api_key: "env_mm".to_string(),
        minimax_group_id: "env_grp".to_string(),
        gemini_api_key: "env_gem".to_string(),
        openrouter_api_key: Some("env_or".to_string()),
        deepseek_api_key: None,
        database_path: "./data/bot.db".to_string(),
        admin_server_port: 8080,
        rust_log: "debug".to_string(),
    }
}

fn row(k: &str, v: &str) -> (String, String) {
    (k.to_string(), v.to_string())
}

#[test]
fn test_setting_value_last_row_wins() {
    let rows = vec![row("theme", "light"), row("bot_status", "active"), row("theme", "dark")];
    assert_eq!(setting_value(&rows, "theme"), Some("dark".to_string()));
    assert_eq!(setting_value(&rows, "bot_status"), Some("active".to_string()));
    assert_eq!(setting_value(&rows, "missing"), None);
}

#[test]
fn test_config_page_from_environment() {
    let page = ConfigPage::build(&Vec::new(), &config(), None, Some(true));
    assert!(!page.saved);
    assert!(page.backup_success);
    assert_eq!(page.telegram_token.value, "env_tok");
    assert_eq!(page.telegram_token.source, ValueSource::Env);
    assert_eq!(page.admin_chat_id.value, "-42");
    assert_eq!(page.openrouter_api_key.value, "env_or");
    assert_eq!(page.openrouter_api_key.source.label(), "env");
    assert_eq!(page.deepseek_api_key.value, "");
    assert_eq!(page.deepseek_api_key.source.label(), "нет");
    assert_eq!(page.deepseek_api_key.source.class_label(), "env");
    assert_eq!(page.primary_ai_model.value, "minimax");
    assert_eq!(page.primary_ai_model.source.label(), "default");
    assert_eq!(page.fallback_ai_model.value, "deepseek");
    assert_eq!(page.rub_to_krw_rate, "15.0");
    assert_eq!(page.system_language, "ru");
    assert_eq!(page.active_theme, "dark");
}

#[test]
fn test_config_page_from_database() {
    let rows = vec![row("GEMINI_API_KEY", "db_gem"), row("DEEPSEEK_API_KEY", "db_ds"), row("theme", "light")];
    let page = ConfigPage::build(&rows, &config(), Some(true), None);
    assert!(page.saved);
    assert!(!page.backup_success);
    assert_eq!(page.gemini_api_key.value, "db_gem");
    assert_eq!(page.gemini_api_key.source.label(), "db");
    assert_eq!(page.deepseek_api_key.value, "db_ds");
    assert_eq!(page.deepseek_api_key.source.class_label(), "db");
    assert_eq!(page.minimax_api_key.value, "env_mm");
    assert_eq!(page.active_theme, "light");
}

fn form(openrouter: Option<&str>, deepseek: Option<&str>) -> ConfigForm {
    ConfigForm {
        telegram_token: "t".to_string(),
        admin_chat_id: "1".to_string(),
        minimax_api_key: "mm".to_string(),
        minimax_group_id: "g".to_string(),
        gemini_api_key: "gem".to_string(),
        openrouter_api_key: openrouter.map(|s| s.to_string()),
        primary_ai_model: "deepseek".to_string(),
        fallback_ai_model: "gemini".to_string(),
        deepseek_api_key: deepseek.map(|s| s.to_string()),
        rub_to_krw_rate: "16.5".to_string(),
        system_language: "en".to_string(),
        theme: "light".to_string(),
    }
}

fn apply(rows: &mut Vec<(String, String)>, changes: &[SettingChange]) {
    for c in changes {
        match c {
            SettingChange::Put { key, value } => {
                rows.retain(|(k, _)| k != key);
                rows.push((key.clone(), value.clone()));
            }
            SettingChange::Delete { key } => rows.retain(|(k, _)| k != key),
        }
    }
}

#[test]
fn test_config_changes_of_form() {
    let changes = config_changes(&form(Some("  or-key  "), Some("   ")));
    assert_eq!(changes.len(), 12);
    assert_eq!(changes[0], SettingChange::Put { key: "TELEGRAM_BOT_TOKEN".to_string(), value: "t".to_string() });
    assert_eq!(changes[9], SettingChange::Put { key: "theme".to_string(), value: "light".to_string() });
    assert_eq!(changes[10], SettingChange::Put { key: "OPENROUTER_API_KEY".to_string(), value: "or-key".to_string() });
    assert_eq!(changes[11], SettingChange::Delete { key: "DEEPSEEK_API_KEY".to_string() });
    let changes = config_changes(&form(None, Some("ds")));
    assert_eq!(changes[10], SettingChange::Delete { key: "OPENROUTER_API_KEY".to_string() });
    assert_eq!(changes[11], SettingChange::Put { key: "DEEPSEEK_API_KEY".to_string(), value: "ds".to_string() });
}

#[test]
fn test_saved_settings_are_shown() {
    let mut rows = vec![row("OPENROUTER_API_KEY", "old"), row("bot_status", "paused")];
    apply(&mut rows, &config_changes(&form(Some(""), Some(" new-ds "))));
    let page = ConfigPage::build(&rows, &config(), Some(true), None);
    assert_eq!(page.telegram_token.value, "t");
    assert_eq!(page.telegram_token.source, ValueSource::Db);
    assert_eq!(page.primary_ai_model.value, "deepseek");
    assert_eq!(page.rub_to_krw_rate, "16.5");
    assert_eq!(page.active_theme, "light");
    // The emptied OpenRouter key was removed: the environment's shows again.
    assert_eq!(page.openrouter_api_key.value, "env_or");
    assert_eq!(page.openrouter_api_key.source, ValueSource::Env);
    assert_eq!(page.deepseek_api_key.value, "new-ds");
    assert_eq!(page.deepseek_api_key.source, ValueSource::Db);
    assert_eq!(setting_value(&rows, "bot_status"), Some("paused".to_string()));
}

#[test]
fn test_load_dynamic_overlays_settings() {
    let rows = vec![
        row("MINIMAX_API_KEY", "db-mm"),
        row("GEMINI_API_KEY", "   "),
        row("DEEPSEEK_API_KEY", "db-ds"),
        row("OPENROUTER_API_KEY", ""),
        row("ADMIN_CHAT_ID", "999"),
    ];
    let active = config().load_dynamic(&rows);
    assert_eq!(active.minimax_api_key, "db-mm");
    assert_eq!(active.gemini_api_key, "env_gem");
    assert_eq!(active.deepseek_api_key, Some("db-ds".to_string()));
    assert_eq!(active.openrouter_api_key, Some("env_or".to_string()));
    assert_eq!(active.telegram_token, "env_tok");
    assert_eq!(active.admin_chat_id, -42);
    assert_eq!(active.database_path, "./data/bot.db");
}
