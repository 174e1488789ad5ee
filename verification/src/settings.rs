//! The settings table as the admin panel edits it: what its configuration page shows,
//! and what saving the configuration form writes.

use vstd::prelude::*;
use crate::ai::deepseek::opt_view;
use crate::config::{blank, is_blank, AppConfig};
use crate::numbers::{format_i64, signed_decimal};
use crate::text::{chars_of, string_of, trim, trim_bounds};

verus! {

/// The settings table: key to value, one value per key.
pub type SettingsStore = Map<Seq<char>, Seq<char>>;

/// The value the store holds for `key`, if any.
pub open spec fn stored(m: SettingsStore, key: Seq<char>) -> Option<Seq<char>> {
    if m.dom().contains(key) {
        Some(m[key])
    } else {
        None
    }
}

/// The store that rows (key, value) read from the table describe: a later row of a key
/// replaces an earlier one.
pub open spec fn rows_store(rows: Seq<(String, String)>) -> SettingsStore
    decreases rows.len(),
{
    if rows.len() == 0 {
        Map::empty()
    } else {
        rows_store(rows.drop_last()).insert(rows.last().0@, rows.last().1@)
    }
}

/// The value that rows (key, value) hold for `key`: that of the last row of the key.
pub fn setting_value(rows: &Vec<(String, String)>, key: &str) -> (r: Option<String>)
    ensures
        opt_view(r) == stored(rows_store(rows@), key@),
{
    let mut found: Option<String> = None;
    let mut i: usize = 0;
    while i < rows.len()
        invariant
            i <= rows.len(),
            opt_view(found) == stored(rows_store(rows@.take(i as int)), key@),
        decreases rows.len() - i,
    {
        let (k, v) = &rows[i];
        assert(rows@.take(i + 1).drop_last() =~= rows@.take(i as int));
        assert(rows@.take(i + 1).last() == rows@[i as int]);
        if crate::text::same_text(k.as_str(), key) {
            found = Some(v.clone());
        }
        i += 1;
    }
    assert(rows@.take(rows.len() as int) =~= rows@);
    found
}

/// Where a value shown on the configuration page comes from.
#[derive(Debug, Clone, Copy, PartialEq, Eq, Structural)]
pub enum ValueSource {
    /// The settings table.
    Db,
    /// The environment the bot was started with.
    Env,
    /// Nowhere: the optional key is set neither in the table nor in the environment.
    Absent,
    /// The built-in default.
    Default,
}

impl ValueSource {
    /// The label the page shows for the source.
    pub fn label(&self) -> (r: &'static str)
        ensures
            r@ == match *self {
                ValueSource::Db => "db"@,
                ValueSource::Env => "env"@,
                ValueSource::Absent => "нет"@,
                ValueSource::Default => "default"@,
            },
    {
        match self {
            ValueSource::Db => "db",
            ValueSource::Env => "env",
            ValueSource::Absent => "нет",
            ValueSource::Default => "default",
        }
    }

    /// The style class of an optional key's source: `db` for the table, `env` otherwise.
    pub fn class_label(&self) -> (r: &'static str)
        ensures
            r@ == if *self == ValueSource::Db { "db"@ } else { "env"@ },
    {
        match self {
            ValueSource::Db => "db",
            _ => "env",
        }
    }
}

/// A value shown on the configuration page, with its source.
#[derive(Debug, Clone, PartialEq, Eq)]
pub struct ConfigEntry {
    pub value: String,
    pub source: ValueSource,
}

impl View for ConfigEntry {
    type V = (Seq<char>, ValueSource);

    open spec fn view(&self) -> (Seq<char>, ValueSource) {
        (self.value@, self.source)
    }
}

/// What is shown for a key that the table does not hold: the fallback with its source,
/// or an empty value marked absent when there is no fallback.
pub open spec fn fallback_entry(fallback: Option<Seq<char>>, source: ValueSource) -> (Seq<char>, ValueSource) {
    match fallback {
        Some(f) => (f, source),
        None => (""@, ValueSource::Absent),
    }
}

/// What is shown for `key`: the table's value, else the fallback.
pub open spec fn shown_entry(
    m: SettingsStore,
    key: Seq<char>,
    fallback: Option<Seq<char>>,
    source: ValueSource,
) -> (Seq<char>, ValueSource) {
    match stored(m, key) {
        Some(v) => (v, ValueSource::Db),
        None => fallback_entry(fallback, source),
    }
}

fn entry(rows: &Vec<(String, String)>, key: &str, fallback: Option<String>, source: ValueSource) -> (r: ConfigEntry)
    ensures
        r@ == shown_entry(rows_store(rows@), key@, opt_view(fallback), source),
{
    proof {
        reveal_strlit("");
    }
    match setting_value(rows, key) {
        Some(v) => ConfigEntry { value: v, source: ValueSource::Db },
        None => match fallback {
            Some(f) => ConfigEntry { value: f, source },
            None => ConfigEntry { value: String::new(), source: ValueSource::Absent },
        },
    }
}

/// The configuration page.
#[derive(Debug, Clone, PartialEq, Eq)]
pub struct ConfigPage {
    /// The page follows a save.
    pub saved: bool,
    /// The page follows a successful backup.
    pub backup_success: bool,
    pub telegram_token: ConfigEntry,
    pub admin_chat_id: ConfigEntry,
    pub minimax_api_key: ConfigEntry,
    pub minimax_group_id: ConfigEntry,
    pub gemini_api_key: ConfigEntry,
    pub openrouter_api_key: ConfigEntry,
    pub primary_ai_model: ConfigEntry,
    pub fallback_ai_model: ConfigEntry,
    pub deepseek_api_key: ConfigEntry,
    pub rub_to_krw_rate: String,
    pub system_language: String,
    pub active_theme: String,
}

/// The configuration page shows the store `m`, with the environment `c` as the fallback
/// of the keys the bot reads from there and built-in defaults for the others.
pub open spec fn page_shows(
    p: ConfigPage,
    m: SettingsStore,
    c: AppConfig,
    saved: Option<bool>,
    backup_success: Option<bool>,
) -> bool {
    &&& p.saved == (saved == Some(true))
    &&& p.backup_success == (backup_success == Some(true))
    &&& p.telegram_token@ == shown_entry(m, "TELEGRAM_BOT_TOKEN"@, Some(c.telegram_token@), ValueSource::Env)
    &&& p.admin_chat_id@ == shown_entry(
        m,
        "ADMIN_CHAT_ID"@,
        Some(signed_decimal(c.admin_chat_id as int)),
        ValueSource::Env,
    )
    &&& p.minimax_api_key@ == shown_entry(m, "MINIMAX_API_KEY"@, Some(c.minimax_api_key@), ValueSource::Env)
    &&& p.minimax_group_id@ == shown_entry(m, "MINIMAX_GROUP_ID"@, Some(c.minimax_group_id@), ValueSource::Env)
    &&& p.gemini_api_key@ == shown_entry(m, "GEMINI_API_KEY"@, Some(c.gemini_api_key@), ValueSource::Env)
    &&& p.openrouter_api_key@ == shown_entry(
        m,
        "OPENROUTER_API_KEY"@,
        opt_view(c.openrouter_api_key),
        ValueSource::Env,
    )
    &&& p.primary_ai_model@ == shown_entry(m, "primary_ai_model"@, Some("minimax"@), ValueSource::Default)
    &&& p.fallback_ai_model@ == shown_entry(m, "fallback_ai_model"@, Some("deepseek"@), ValueSource::Default)
    &&& p.deepseek_api_key@ == shown_entry(
        m,
        "DEEPSEEK_API_KEY"@,
        opt_view(c.deepseek_api_key),
        ValueSource::Env,
    )
    &&& p.rub_to_krw_rate@ == shown_entry(m, "rub_to_krw_rate"@, Some("15.0"@), ValueSource::Default).0
    &&& p.system_language@ == shown_entry(m, "system_language"@, Some("ru"@), ValueSource::Default).0
    &&& p.active_theme@ == shown_entry(m, "theme"@, Some("dark"@), ValueSource::Default).0
}

impl ConfigPage {
    /// The configuration page for the settings rows (key, value) read from the table,
    /// the configuration the bot was started with, and the page's query flags.
    pub fn build(
        rows: &Vec<(String, String)>,
        config: &AppConfig,
        saved: Option<bool>,
        backup_success: Option<bool>,
    ) -> (r: ConfigPage)
        ensures
            page_shows(r, rows_store(rows@), *config, saved, backup_success),
    {
        proof {
            reveal_strlit("minimax");
            reveal_strlit("deepseek");
            reveal_strlit("15.0");
            reveal_strlit("ru");
            reveal_strlit("dark");
        }
        let telegram_token = entry(rows, "TELEGRAM_BOT_TOKEN", Some(config.telegram_token.clone()), ValueSource::Env);
        let admin_chat_id = entry(rows, "ADMIN_CHAT_ID", Some(format_i64(config.admin_chat_id)), ValueSource::Env);
        let minimax_api_key = entry(rows, "MINIMAX_API_KEY", Some(config.minimax_api_key.clone()), ValueSource::Env);
        let minimax_group_id = entry(rows, "MINIMAX_GROUP_ID", Some(config.minimax_group_id.clone()), ValueSource::Env);
        let gemini_api_key = entry(rows, "GEMINI_API_KEY", Some(config.gemini_api_key.clone()), ValueSource::Env);
        let openrouter_api_key = entry(rows, "OPENROUTER_API_KEY", config.openrouter_api_key.clone(), ValueSource::Env);
        let primary_ai_model = entry(rows, "primary_ai_model", Some(String::from_str("minimax")), ValueSource::Default);
        let fallback_ai_model = entry(rows, "fallback_ai_model", Some(String::from_str("deepseek")), ValueSource::Default);
        let deepseek_api_key = entry(rows, "DEEPSEEK_API_KEY", config.deepseek_api_key.clone(), ValueSource::Env);
        let rub_to_krw_rate = entry(rows, "rub_to_krw_rate", Some(String::from_str("15.0")), ValueSource::Default);
        let system_language = entry(rows, "system_language", Some(String::from_str("ru")), ValueSource::Default);
        let active_theme = entry(rows, "theme", Some(String::from_str("dark")), ValueSource::Default);
        ConfigPage {
            saved: match saved {
                Some(b) => b,
                None => false,
            },
            backup_success: match backup_success {
                Some(b) => b,
                None => false,
            },
            telegram_token,
            admin_chat_id,
            minimax_api_key,
            minimax_group_id,
            gemini_api_key,
            openrouter_api_key,
            primary_ai_model,
            fallback_ai_model,
            deepseek_api_key,
            rub_to_krw_rate: rub_to_krw_rate.value,
            system_language: system_language.value,
            active_theme: active_theme.value,
        }
    }
}

/// A setting as the running bot uses it: the table's value when it is there and not
/// blank, else the one the bot was started with.
pub open spec fn overlay(stored_value: Option<Seq<char>>, started: Seq<char>) -> Seq<char> {
    match stored_value {
        Some(v) => if is_blank(v) {
            started
        } else {
            v
        },
        None => started,
    }
}

/// An optional key as the running bot uses it: the table's value when it is there and
/// not blank, else the one the bot was started with.
pub open spec fn overlay_optional(stored_value: Option<Seq<char>>, started: Option<Seq<char>>) -> Option<Seq<char>> {
    match stored_value {
        Some(v) => if is_blank(v) {
            started
        } else {
            Some(v)
        },
        None => started,
    }
}

fn overlaid(rows: &Vec<(String, String)>, key: &str, started: &String) -> (r: String)
    ensures
        r@ == overlay(stored(rows_store(rows@), key@), started@),
{
    match setting_value(rows, key) {
        Some(v) => if blank(v.as_str()) {
            started.clone()
        } else {
            v
        },
        None => started.clone(),
    }
}

fn overlaid_optional(rows: &Vec<(String, String)>, key: &str, started: &Option<String>) -> (r: Option<String>)
    ensures
        opt_view(r) == overlay_optional(stored(rows_store(rows@), key@), opt_view(*started)),
{
    match setting_value(rows, key) {
        Some(v) => if blank(v.as_str()) {
            started.clone()
        } else {
            Some(v)
        },
        None => started.clone(),
    }
}

impl AppConfig {
    /// The configuration the bot runs with: the credentials that the settings table
    /// holds (and that are not blank) replace those the bot was started with; the chat
    /// of the admin, the database, the port and the log filter stay as they were.
    pub fn load_dynamic(&self, rows: &Vec<(String, String)>) -> (r: AppConfig)
        ensures
            r.telegram_token@ == overlay(stored(rows_store(rows@), "TELEGRAM_BOT_TOKEN"@), self.telegram_token@),
            r.minimax_api_key@ == overlay(stored(rows_store(rows@), "MINIMAX_API_KEY"@), self.minimax_api_key@),
            r.minimax_group_id@ == overlay(stored(rows_store(rows@), "MINIMAX_GROUP_ID"@), self.minimax_group_id@),
            r.gemini_api_key@ == overlay(stored(rows_store(rows@), "GEMINI_API_KEY"@), self.gemini_api_key@),
            opt_view(r.openrouter_api_key) == overlay_optional(
                stored(rows_store(rows@), "OPENROUTER_API_KEY"@),
                opt_view(self.openrouter_api_key),
            ),
            opt_view(r.deepseek_api_key) == overlay_optional(
                stored(rows_store(rows@), "DEEPSEEK_API_KEY"@),
                opt_view(self.deepseek_api_key),
            ),
            r.admin_chat_id == self.admin_chat_id,
            r.database_path == self.database_path,
            r.admin_server_port == self.admin_server_port,
            r.rust_log == self.rust_log,
    {
        AppConfig {
            telegram_token: overlaid(rows, "TELEGRAM_BOT_TOKEN", &self.telegram_token),
            admin_chat_id: self.admin_chat_id,
            minimax_api_key: overlaid(rows, "MINIMAX_API_KEY", &self.minimax_api_key),
            minimax_group_id: overlaid(rows, "MINIMAX_GROUP_ID", &self.minimax_group_id),
            gemini_api_key: overlaid(rows, "GEMINI_API_KEY", &self.gemini_api_key),
            openrouter_api_key: overlaid_optional(rows, "OPENROUTER_API_KEY", &self.openrouter_api_key),
            deepseek_api_key: overlaid_optional(rows, "DEEPSEEK_API_KEY", &self.deepseek_api_key),
            database_path: self.database_path.clone(),
            admin_server_port: self.admin_server_port,
            rust_log: self.rust_log.clone(),
        }
    }
}

/// The configuration form as submitted.
#[derive(Debug, Clone, PartialEq, Eq)]
pub struct ConfigForm {
    pub telegram_token: String,
    pub admin_chat_id: String,
    pub minimax_api_key: String,
    pub minimax_group_id: String,
    pub gemini_api_key: String,
    pub openrouter_api_key: Option<String>,
    pub primary_ai_model: String,
    pub fallback_ai_model: String,
    pub deepseek_api_key: Option<String>,
    pub rub_to_krw_rate: String,
    pub system_language: String,
    pub theme: String,
}

/// A change to the settings table: a key set to a value, or a key removed.
#[derive(Debug, Clone, PartialEq, Eq)]
pub enum SettingChange {
    Put { key: String, value: String },
    Delete { key: String },
}

impl View for SettingChange {
    /// The key, with the new value, or `None` for a removal.
    type V = (Seq<char>, Option<Seq<char>>);

    open spec fn view(&self) -> (Seq<char>, Option<Seq<char>>) {
        match *self {
            SettingChange::Put { key, value } => (key@, Some(value@)),
            SettingChange::Delete { key } => (key@, None),
        }
    }
}

/// The store after one change.
pub open spec fn apply_change(m: SettingsStore, c: (Seq<char>, Option<Seq<char>>)) -> SettingsStore {
    match c.1 {
        Some(v) => m.insert(c.0, v),
        None => m.remove(c.0),
    }
}

/// The store after changes made one after another.
pub open spec fn apply_changes(m: SettingsStore, cs: Seq<(Seq<char>, Option<Seq<char>>)>) -> SettingsStore
    decreases cs.len(),
{
    if cs.len() == 0 {
        m
    } else {
        apply_change(apply_changes(m, cs.drop_last()), cs.last())
    }
}

/// The change for an optional key: set to the trimmed value when something is left of
/// it, removed otherwise.
pub open spec fn optional_change(key: Seq<char>, value: Option<String>) -> (Seq<char>, Option<Seq<char>>) {
    match value {
        Some(v) => if trim(v@).len() > 0 {
            (key, Some(trim(v@)))
        } else {
            (key, None)
        },
        None => (key, None),
    }
}

/// What saving the form writes, in order: each plain field under its key, then the
/// optional OpenRouter and DeepSeek keys.
pub open spec fn form_changes(f: ConfigForm) -> Seq<(Seq<char>, Option<Seq<char>>)> {
    seq![
        ("TELEGRAM_BOT_TOKEN"@, Some(f.telegram_token@)),
        ("ADMIN_CHAT_ID"@, Some(f.admin_chat_id@)),
        ("MINIMAX_API_KEY"@, Some(f.minimax_api_key@)),
        ("MINIMAX_GROUP_ID"@, Some(f.minimax_group_id@)),
        ("GEMINI_API_KEY"@, Some(f.gemini_api_key@)),
        ("primary_ai_model"@, Some(f.primary_ai_model@)),
        ("fallback_ai_model"@, Some(f.fallback_ai_model@)),
        ("rub_to_krw_rate"@, Some(f.rub_to_krw_rate@)),
        ("system_language"@, Some(f.system_language@)),
        ("theme"@, Some(f.theme@)),
        optional_change("OPENROUTER_API_KEY"@, f.openrouter_api_key),
        optional_change("DEEPSEEK_API_KEY"@, f.deepseek_api_key),
    ]
}

fn put(out: &mut Vec<SettingChange>, key: &str, value: &String)
    ensures
        final(out)@.map_values(|c: SettingChange| c@) == old(out)@.map_values(|c: SettingChange| c@).push((key@, Some(value@))),
{
    let ghost before = out@;
    out.push(SettingChange::Put { key: String::from_str(key), value: value.clone() });
    assert(out@.map_values(|c: SettingChange| c@) =~= before.map_values(|c: SettingChange| c@).push((key@, Some(value@))));
}

fn put_optional(out: &mut Vec<SettingChange>, key: &str, value: &Option<String>)
    ensures
        final(out)@.map_values(|c: SettingChange| c@) == old(out)@.map_values(|c: SettingChange| c@).push(optional_change(key@, *value)),
{
    let ghost before = out@;
    let change = match value {
        Some(v) => {
            let chars = chars_of(v.as_str());
            let (a, b) = trim_bounds(&chars);
            if a < b {
                SettingChange::Put { key: String::from_str(key), value: string_of(&chars, a, b) }
            } else {
                SettingChange::Delete { key: String::from_str(key) }
            }
        },
        None => SettingChange::Delete { key: String::from_str(key) },
    };
    out.push(change);
    assert(out@.map_values(|c: SettingChange| c@) =~= before.map_values(|c: SettingChange| c@).push(optional_change(key@, *value)));
}

/// The changes that saving the configuration form makes to the settings table, in order.
pub fn config_changes(form: &ConfigForm) -> (r: Vec<SettingChange>)
    ensures
        r@.map_values(|c: SettingChange| c@) == form_changes(*form),
{
    let mut out: Vec<SettingChange> = Vec::new();
    put(&mut out, "TELEGRAM_BOT_TOKEN", &form.telegram_token);
    put(&mut out, "ADMIN_CHAT_ID", &form.admin_chat_id);
    put(&mut out, "MINIMAX_API_KEY", &form.minimax_api_key);
    put(&mut out, "MINIMAX_GROUP_ID", &form.minimax_group_id);
    put(&mut out, "GEMINI_API_KEY", &form.gemini_api_key);
    put(&mut out, "primary_ai_model", &form.primary_ai_model);
    put(&mut out, "fallback_ai_model", &form.fallback_ai_model);
    put(&mut out, "rub_to_krw_rate", &form.rub_to_krw_rate);
    put(&mut out, "system_language", &form.system_language);
    put(&mut out, "theme", &form.theme);
    put_optional(&mut out, "OPENROUTER_API_KEY", &form.openrouter_api_key);
    put_optional(&mut out, "DEEPSEEK_API_KEY", &form.deepseek_api_key);
    assert(out@.map_values(|c: SettingChange| c@) =~= form_changes(*form));
    out
}

/// The keys that saving the configuration form writes, in the order it writes them.
pub open spec fn config_keys() -> Seq<Seq<char>> {
    seq![
        "TELEGRAM_BOT_TOKEN"@,
        "ADMIN_CHAT_ID"@,
        "MINIMAX_API_KEY"@,
        "MINIMAX_GROUP_ID"@,
        "GEMINI_API_KEY"@,
        "primary_ai_model"@,
        "fallback_ai_model"@,
        "rub_to_krw_rate"@,
        "system_language"@,
        "theme"@,
        "OPENROUTER_API_KEY"@,
        "DEEPSEEK_API_KEY"@,
    ]
}

proof fn lemma_config_keys_distinct()
    ensures
        config_keys().len() == 12,
        forall|i: int, j: int| 0 <= i < j < 12 ==> config_keys()[i] != config_keys()[j],
{
    reveal_strlit("TELEGRAM_BOT_TOKEN");
    reveal_strlit("ADMIN_CHAT_ID");
    reveal_strlit("MINIMAX_API_KEY");
    reveal_strlit("MINIMAX_GROUP_ID");
    reveal_strlit("GEMINI_API_KEY");
    reveal_strlit("primary_ai_model");
    reveal_strlit("fallback_ai_model");
    reveal_strlit("rub_to_krw_rate");
    reveal_strlit("system_language");
    reveal_strlit("theme");
    reveal_strlit("OPENROUTER_API_KEY");
    reveal_strlit("DEEPSEEK_API_KEY");
    let k = config_keys();
    assert(k[0].len() != k[1].len());
    assert(k[0].len() != k[2].len());
    assert(k[0].len() != k[3].len());
    assert(k[0].len() != k[4].len());
    assert(k[0].len() != k[5].len());
    assert(k[0].len() != k[6].len());
    assert(k[0].len() != k[7].len());
    assert(k[0].len() != k[8].len());
    assert(k[0].len() != k[9].len());
    assert(k[0][0] != k[10][0]);
    assert(k[0].len() != k[11].len());
    assert(k[1].len() != k[2].len());
    assert(k[1].len() != k[3].len());
    assert(k[1].len() != k[4].len());
    assert(k[1].len() != k[5].len());
    assert(k[1].len() != k[6].len());
    assert(k[1].len() != k[7].len());
    assert(k[1].len() != k[8].len());
    assert(k[1].len() != k[9].len());
    assert(k[1].len() != k[10].len());
    assert(k[1].len() != k[11].len());
    assert(k[2].len() != k[3].len());
    assert(k[2].len() != k[4].len());
    assert(k[2].len() != k[5].len());
    assert(k[2].len() != k[6].len());
    assert(k[2][0] != k[7][0]);
    assert(k[2][0] != k[8][0]);
    assert(k[2].len() != k[9].len());
    assert(k[2].len() != k[10].len());
    assert(k[2].len() != k[11].len());
    assert(k[3].len() != k[4].len());
    assert(k[3][0] != k[5][0]);
    assert(k[3].len() != k[6].len());
    assert(k[3].len() != k[7].len());
    assert(k[3].len() != k[8].len());
    assert(k[3].len() != k[9].len());
    assert(k[3].len() != k[10].len());
    assert(k[3][0] != k[11][0]);
    assert(k[4].len() != k[5].len());
    assert(k[4].len() != k[6].len());
    assert(k[4].len() != k[7].len());
    assert(k[4].len() != k[8].len());
    assert(k[4].len() != k[9].len());
    assert(k[4].len() != k[10].len());
    assert(k[4].len() != k[11].len());
    assert(k[5].len() != k[6].len());
    assert(k[5].len() != k[7].len());
    assert(k[5].len() != k[8].len());
    assert(k[5].len() != k[9].len());
    assert(k[5].len() != k[10].len());
    assert(k[5][0] != k[11][0]);
    assert(k[6].len() != k[7].len());
    assert(k[6].len() != k[8].len());
    assert(k[6].len() != k[9].len());
    assert(k[6].len() != k[10].len());
    assert(k[6].len() != k[11].len());
    assert(k[7][0] != k[8][0]);
    assert(k[7].len() != k[9].len());
    assert(k[7].len() != k[10].len());
    assert(k[7].len() != k[11].len());
    assert(k[8].len() != k[9].len());
    assert(k[8].len() != k[10].len());
    assert(k[8].len() != k[11].len());
    assert(k[9].len() != k[10].len());
    assert(k[9].len() != k[11].len());
    assert(k[10].len() != k[11].len());
    assert forall|i: int, j: int| 0 <= i < j < 12 implies k[i] != k[j] by {
        assert(i == 0 || i == 1 || i == 2 || i == 3 || i == 4 || i == 5 || i == 6 || i == 7 || i == 8 || i == 9 || i == 10 || i == 11);
        assert(j == 0 || j == 1 || j == 2 || j == 3 || j == 4 || j == 5 || j == 6 || j == 7 || j == 8 || j == 9 || j == 10 || j == 11);
    }
}

proof fn lemma_form_change_keys(f: ConfigForm)
    ensures
        form_changes(f).len() == 12,
        forall|i: int| 0 <= i < 12 ==> (#[trigger] form_changes(f)[i]).0 == config_keys()[i],
{
}

/// A key that the changes leave alone keeps its value.
proof fn lemma_untouched_key(m: SettingsStore, cs: Seq<(Seq<char>, Option<Seq<char>>)>, key: Seq<char>)
    requires
        forall|j: int| 0 <= j < cs.len() ==> (#[trigger] cs[j]).0 != key,
    ensures
        stored(apply_changes(m, cs), key) == stored(m, key),
    decreases cs.len(),
{
    if cs.len() > 0 {
        lemma_untouched_key(m, cs.drop_last(), key);
        assert(cs[cs.len() - 1].0 != key);
    }
}

/// A key that one of the changes, and no other, touches ends as that change left it.
proof fn lemma_changed_key(m: SettingsStore, cs: Seq<(Seq<char>, Option<Seq<char>>)>, i: int, key: Seq<char>)
    requires
        0 <= i < cs.len(),
        cs[i].0 == key,
        forall|j: int| 0 <= j < cs.len() && j != i ==> (#[trigger] cs[j]).0 != key,
    ensures
        stored(apply_changes(m, cs), key) == cs[i].1,
    decreases cs.len(),
{
    if i == cs.len() - 1 {
        lemma_untouched_key(m, cs.drop_last(), key);
    } else {
        lemma_changed_key(m, cs.drop_last(), i, key);
        assert(cs[cs.len() - 1].0 != key);
    }
}

proof fn lemma_saved_key(m: SettingsStore, f: ConfigForm, i: int)
    requires
        0 <= i < 12,
    ensures
        stored(apply_changes(m, form_changes(f)), config_keys()[i]) == form_changes(f)[i].1,
{
    lemma_config_keys_distinct();
    lemma_form_change_keys(f);
    let cs = form_changes(f);
    assert forall|j: int| 0 <= j < cs.len() && j != i implies (#[trigger] cs[j]).0 != config_keys()[i] by {
        if j < i {
            assert(config_keys()[j] != config_keys()[i]);
        } else {
            assert(config_keys()[i] != config_keys()[j]);
        }
    }
    lemma_changed_key(m, cs, i, config_keys()[i]);
}

/// Saving the configuration form and then opening the configuration page shows what
/// was saved: every plain field with the table as its source, and each optional key
/// trimmed when something was left of it, or else the environment's value, since the
/// key was removed from the table.
pub proof fn law_saved_settings_are_shown(
    m: SettingsStore,
    form: ConfigForm,
    c: AppConfig,
    page: ConfigPage,
    saved: Option<bool>,
    backup_success: Option<bool>,
)
    requires
        page_shows(page, apply_changes(m, form_changes(form)), c, saved, backup_success),
    ensures
        page.telegram_token@ == (form.telegram_token@, ValueSource::Db),
        page.admin_chat_id@ == (form.admin_chat_id@, ValueSource::Db),
        page.minimax_api_key@ == (form.minimax_api_key@, ValueSource::Db),
        page.minimax_group_id@ == (form.minimax_group_id@, ValueSource::Db),
        page.gemini_api_key@ == (form.gemini_api_key@, ValueSource::Db),
        page.primary_ai_model@ == (form.primary_ai_model@, ValueSource::Db),
        page.fallback_ai_model@ == (form.fallback_ai_model@, ValueSource::Db),
        page.rub_to_krw_rate@ == form.rub_to_krw_rate@,
        page.system_language@ == form.system_language@,
        page.active_theme@ == form.theme@,
        page.openrouter_api_key@ == match optional_change("OPENROUTER_API_KEY"@, form.openrouter_api_key).1 {
            Some(k) => (k, ValueSource::Db),
            None => fallback_entry(opt_view(c.openrouter_api_key), ValueSource::Env),
        },
        page.deepseek_api_key@ == match optional_change("DEEPSEEK_API_KEY"@, form.deepseek_api_key).1 {
            Some(k) => (k, ValueSource::Db),
            None => fallback_entry(opt_view(c.deepseek_api_key), ValueSource::Env),
        },
{
    lemma_saved_key(m, form, 0);
    lemma_saved_key(m, form, 1);
    lemma_saved_key(m, form, 2);
    lemma_saved_key(m, form, 3);
    lemma_saved_key(m, form, 4);
    lemma_saved_key(m, form, 5);
    lemma_saved_key(m, form, 6);
    lemma_saved_key(m, form, 7);
    lemma_saved_key(m, form, 8);
    lemma_saved_key(m, form, 9);
    lemma_saved_key(m, form, 10);
    lemma_saved_key(m, form, 11);
}

/// Saving the configuration form leaves every other setting (such as the bot status) as
/// it was.
pub proof fn law_save_keeps_other_settings(m: SettingsStore, form: ConfigForm, key: Seq<char>)
    requires
        !config_keys().contains(key),
    ensures
        stored(apply_changes(m, form_changes(form)), key) == stored(m, key),
{
    lemma_form_change_keys(form);
    let cs = form_changes(form);
    assert forall|j: int| 0 <= j < cs.len() implies (#[trigger] cs[j]).0 != key by {
        assert(config_keys()[j] == cs[j].0);
    }
    lemma_untouched_key(m, cs, key);
}

} // verus!
