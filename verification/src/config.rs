//! Application settings read from the environment, with their defaults and checks.

use vstd::prelude::*;
use crate::numbers::{parse_i64, parse_integer, parse_u16};
use crate::text::{chars_of, copy_range, trim, trim_bounds};

verus! {

/// The settings the application runs with.
#[derive(Debug, Clone)]
pub struct AppConfig {
    pub telegram_token: String,
    pub admin_chat_id: i64,
    pub minimax_api_key: String,
    pub minimax_group_id: String,
    pub gemini_api_key: String,
    pub openrouter_api_key: Option<String>,
    pub deepseek_api_key: Option<String>,
    pub database_path: String,
    pub admin_server_port: u16,
    pub rust_log: String,
}

/// The environment variables the settings come from; `None` for one that is not set
/// (or not valid Unicode).
#[derive(Debug, Clone)]
pub struct EnvValues {
    pub telegram_bot_token: Option<String>,
    pub admin_chat_id: Option<String>,
    pub minimax_api_key: Option<String>,
    pub minimax_group_id: Option<String>,
    pub gemini_api_key: Option<String>,
    pub openrouter_api_key: Option<String>,
    pub deepseek_api_key: Option<String>,
    pub database_path: Option<String>,
    pub admin_server_port: Option<String>,
    pub rust_log: Option<String>,
}

/// A setting that must be present.
#[derive(Debug, Clone, Copy, PartialEq, Eq, Structural)]
pub enum ConfigVar {
    TelegramBotToken,
    AdminChatId,
    DatabasePath,
}

/// Which of the required variables are not set.
#[derive(Debug, Clone, Copy, PartialEq, Eq, Structural)]
pub struct MissingVars {
    pub telegram_bot_token: bool,
    pub admin_chat_id: bool,
}

/// Why the settings were refused.
#[derive(Debug, Clone, Copy, PartialEq, Eq, Structural)]
pub enum ConfigError {
    /// Required variables are not set: all of them are listed.
    NotSet(MissingVars),
    /// A required variable holds only whitespace.
    Empty(ConfigVar),
    /// `ADMIN_CHAT_ID` is not a 64-bit integer.
    InvalidAdminChatId,
    /// `ADMIN_SERVER_PORT` is not a 16-bit unsigned integer.
    InvalidAdminServerPort,
}

/// The environment variable that holds a setting.
pub open spec fn var_name(v: ConfigVar) -> Seq<char> {
    match v {
        ConfigVar::TelegramBotToken => "TELEGRAM_BOT_TOKEN"@,
        ConfigVar::AdminChatId => "ADMIN_CHAT_ID"@,
        ConfigVar::DatabasePath => "DATABASE_PATH"@,
    }
}

/// The message that lists the required variables that are not set.
pub open spec fn missing_message(m: MissingVars) -> Seq<char> {
    if m.telegram_bot_token && m.admin_chat_id {
        "TELEGRAM_BOT_TOKEN, ADMIN_CHAT_ID environment variables not set"@
    } else if m.telegram_bot_token {
        "TELEGRAM_BOT_TOKEN environment variable not set"@
    } else {
        "ADMIN_CHAT_ID environment variable not set"@
    }
}

/// The message a refusal is reported with.
pub open spec fn config_error_message(e: ConfigError) -> Seq<char> {
    match e {
        ConfigError::NotSet(m) => missing_message(m),
        ConfigError::Empty(v) => var_name(v) + " cannot be empty"@,
        ConfigError::InvalidAdminChatId => "ADMIN_CHAT_ID must be a valid 64-bit integer"@,
        ConfigError::InvalidAdminServerPort => "ADMIN_SERVER_PORT must be a valid 16-bit unsigned integer"@,
    }
}

impl ConfigVar {
    /// The environment variable that holds the setting.
    pub fn name(&self) -> (r: &'static str)
        ensures
            r@ == var_name(*self),
    {
        match self {
            ConfigVar::TelegramBotToken => "TELEGRAM_BOT_TOKEN",
            ConfigVar::AdminChatId => "ADMIN_CHAT_ID",
            ConfigVar::DatabasePath => "DATABASE_PATH",
        }
    }
}

impl ConfigError {
    /// The message the refusal is reported with.
    pub fn message(&self) -> (r: String)
        ensures
            r@ == config_error_message(*self),
    {
        match self {
            ConfigError::NotSet(m) => if m.telegram_bot_token && m.admin_chat_id {
                String::from_str("TELEGRAM_BOT_TOKEN, ADMIN_CHAT_ID environment variables not set")
            } else if m.telegram_bot_token {
                String::from_str("TELEGRAM_BOT_TOKEN environment variable not set")
            } else {
                String::from_str("ADMIN_CHAT_ID environment variable not set")
            },
            ConfigError::Empty(v) => {
                let mut m = String::from_str(v.name());
                m.append(" cannot be empty");
                m
            },
            ConfigError::InvalidAdminChatId => String::from_str(
                "ADMIN_CHAT_ID must be a valid 64-bit integer",
            ),
            ConfigError::InvalidAdminServerPort => String::from_str(
                "ADMIN_SERVER_PORT must be a valid 16-bit unsigned integer",
            ),
        }
    }
}

/// Nothing but whitespace.
pub open spec fn is_blank(s: Seq<char>) -> bool {
    trim(s).len() == 0
}

/// The text when it is set and not blank.
pub open spec fn present(o: Option<String>) -> Option<Seq<char>> {
    match o {
        Some(s) => if is_blank(s@) {
            None
        } else {
            Some(s@)
        },
        None => None,
    }
}

/// The database file used when `DATABASE_PATH` is not set.
pub open spec fn default_database_path() -> Seq<char> {
    "./data/bot.db"@
}

/// The admin panel port used when `ADMIN_SERVER_PORT` is not set.
pub open spec fn default_port_text() -> Seq<char> {
    "8080"@
}

/// The log filter used when `RUST_LOG` is not set.
pub open spec fn default_log_filter() -> Seq<char> {
    "info"@
}

/// The required variables that an environment does not set.
pub open spec fn missing_vars(env: EnvValues) -> MissingVars {
    MissingVars { telegram_bot_token: env.telegram_bot_token is None, admin_chat_id: env.admin_chat_id is None }
}

/// The text of `o`, or `d` when it is not set.
pub open spec fn or_default(o: Option<String>, d: Seq<char>) -> Seq<char> {
    match o {
        Some(s) => s@,
        None => d,
    }
}

/// The first check the environment fails, in the order the settings are read.
pub open spec fn config_error(env: EnvValues) -> Option<ConfigError> {
    if env.telegram_bot_token is None || env.admin_chat_id is None {
        Some(ConfigError::NotSet(missing_vars(env)))
    } else if is_blank(env.telegram_bot_token->0@) {
        Some(ConfigError::Empty(ConfigVar::TelegramBotToken))
    } else if parse_integer(trim(env.admin_chat_id->0@), i64::MIN as int, i64::MAX as int) is None {
        Some(ConfigError::InvalidAdminChatId)
    } else if is_blank(or_default(env.database_path, default_database_path())) {
        Some(ConfigError::Empty(ConfigVar::DatabasePath))
    } else if parse_integer(trim(or_default(env.admin_server_port, default_port_text())), 0, u16::MAX as int) is None {
        Some(ConfigError::InvalidAdminServerPort)
    } else {
        None
    }
}

/// The settings taken from an environment that passes every check.
pub open spec fn config_matches(c: AppConfig, env: EnvValues) -> bool {
    &&& c.telegram_token@ == env.telegram_bot_token->0@
    &&& parse_integer(trim(env.admin_chat_id->0@), i64::MIN as int, i64::MAX as int) == Some(c.admin_chat_id as int)
    &&& c.minimax_api_key@ == or_default(env.minimax_api_key, Seq::empty())
    &&& c.minimax_group_id@ == or_default(env.minimax_group_id, Seq::empty())
    &&& c.gemini_api_key@ == or_default(env.gemini_api_key, Seq::empty())
    &&& present(c.openrouter_api_key) == present(env.openrouter_api_key)
    &&& (c.openrouter_api_key is Some ==> !is_blank(c.openrouter_api_key->0@))
    &&& present(c.deepseek_api_key) == present(env.deepseek_api_key)
    &&& (c.deepseek_api_key is Some ==> !is_blank(c.deepseek_api_key->0@))
    &&& c.database_path@ == or_default(env.database_path, default_database_path())
    &&& parse_integer(trim(or_default(env.admin_server_port, default_port_text())), 0, u16::MAX as int) == Some(c.admin_server_port as int)
    &&& c.rust_log@ == or_default(env.rust_log, default_log_filter())
}

/// Tests whether a text holds nothing but whitespace.
pub fn blank(s: &str) -> (r: bool)
    ensures
        r == is_blank(s@),
{
    let v = chars_of(s);
    let (i, k) = trim_bounds(&v);
    i == k
}

fn trimmed_chars(s: &str) -> (r: Vec<char>)
    ensures
        r@ == trim(s@),
{
    let v = chars_of(s);
    let (i, k) = trim_bounds(&v);
    copy_range(&v, i, k)
}

/// Keeps a text only when it is not blank.
fn non_blank(o: Option<String>) -> (r: Option<String>)
    ensures
        present(r) == present(o),
        r is Some ==> !is_blank(r->0@),
{
    match o {
        Some(s) => if blank(s.as_str()) {
            None
        } else {
            Some(s)
        },
        None => None,
    }
}

impl AppConfig {
    /// The settings an environment gives, or the first check it fails.
    ///
    /// The bot token and `ADMIN_CHAT_ID` must be set, and when either is not, the error
    /// lists every one of them that is not; the bot token must not be blank, and
    /// `ADMIN_CHAT_ID` must read,
    /// once trimmed, as a 64-bit integer; the MiniMax and Gemini credentials are optional
    /// and taken as given, empty when not set; the OpenRouter and DeepSeek keys count
    /// only when not blank; the database path defaults to `./data/bot.db` and must not be
    /// blank; the port defaults to `8080` and must read, once trimmed, as a 16-bit
    /// unsigned integer; the log filter defaults to `info`.
    pub fn load(env: EnvValues) -> (r: Result<AppConfig, ConfigError>)
        ensures
            match r {
                Ok(c) => config_error(env) is None && config_matches(c, env),
                Err(e) => config_error(env) == Some(e),
            },
    {
        let missing = MissingVars {
            telegram_bot_token: env.telegram_bot_token.is_none(),
            admin_chat_id: env.admin_chat_id.is_none(),
        };
        if missing.telegram_bot_token || missing.admin_chat_id {
            return Err(ConfigError::NotSet(missing));
        }
        if let Some(t) = &env.telegram_bot_token {
            if blank(t.as_str()) {
                return Err(ConfigError::Empty(ConfigVar::TelegramBotToken));
            }
        }
        let admin_chat_id = match &env.admin_chat_id {
            None => {
                return Err(ConfigError::NotSet(missing));
            },
            Some(raw) => match parse_i64(&trimmed_chars(raw.as_str())) {
                Some(id) => id,
                None => {
                    return Err(ConfigError::InvalidAdminChatId);
                },
            },
        };
        let EnvValues {
            telegram_bot_token,
            admin_chat_id: _,
            minimax_api_key,
            minimax_group_id,
            gemini_api_key,
            openrouter_api_key,
            deepseek_api_key,
            database_path,
            admin_server_port,
            rust_log,
        } = env;
        let database_path = match database_path {
            Some(p) => p,
            None => String::from_str("./data/bot.db"),
        };
        if blank(database_path.as_str()) {
            return Err(ConfigError::Empty(ConfigVar::DatabasePath));
        }
        let port_text = match admin_server_port {
            Some(p) => p,
            None => String::from_str("8080"),
        };
        let admin_server_port = match parse_u16(&trimmed_chars(port_text.as_str())) {
            Some(p) => p,
            None => {
                return Err(ConfigError::InvalidAdminServerPort);
            },
        };
        let rust_log = match rust_log {
            Some(l) => l,
            None => String::from_str("info"),
        };
        let telegram_token = match telegram_bot_token {
            Some(t) => t,
            None => String::new(),
        };
        let minimax_api_key = match minimax_api_key {
            Some(t) => t,
            None => String::new(),
        };
        let minimax_group_id = match minimax_group_id {
            Some(t) => t,
            None => String::new(),
        };
        let gemini_api_key = match gemini_api_key {
            Some(t) => t,
            None => String::new(),
        };
        Ok(AppConfig {
            telegram_token,
            admin_chat_id,
            minimax_api_key,
            minimax_group_id,
            gemini_api_key,
            openrouter_api_key: non_blank(openrouter_api_key),
            deepseek_api_key: non_blank(deepseek_api_key),
            database_path,
            admin_server_port,
            rust_log,
        })
    }
}

} // verus!
