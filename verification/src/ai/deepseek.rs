//! DeepSeek dialogue: which endpoint and key a turn goes through, reached either
//! directly or through OpenRouter.

use vstd::prelude::*;
use crate::config::{blank, is_blank};
use crate::error::AppError;
use crate::text::same_text;

verus! {

/// A message in OpenAI's chat-completions format.
pub type OpenAiMessage = crate::ai::dialog::ChatMessage;

/// A tool call in OpenAI's chat-completions format.
pub type OpenAiToolCall = crate::ai::dialog::ToolCall;

/// The function of a tool call in OpenAI's chat-completions format.
pub type OpenAiFunctionCall = crate::ai::dialog::FunctionCall;

/// A reply in OpenAI's chat-completions format.
pub type OpenAiResponse = crate::ai::dialog::CompletionResponse;

/// A choice of a reply in OpenAI's chat-completions format.
pub type OpenAiChoice = crate::ai::dialog::CompletionChoice;

/// The DeepSeek and OpenRouter keys that settings rows hold: for each, the last row of
/// that key whose value is not blank.
pub open spec fn settings_keys(rows: Seq<(String, String)>) -> (Option<Seq<char>>, Option<Seq<char>>)
    decreases rows.len(),
{
    if rows.len() == 0 {
        (None, None)
    } else {
        let (ds, or) = settings_keys(rows.drop_last());
        let (k, v) = rows.last();
        if k@ == "DEEPSEEK_API_KEY"@ && !is_blank(v@) {
            (Some(v@), or)
        } else if k@ == "OPENROUTER_API_KEY"@ && !is_blank(v@) {
            (ds, Some(v@))
        } else {
            (ds, or)
        }
    }
}

/// The view of an optional text.
pub open spec fn opt_view(o: Option<String>) -> Option<Seq<char>> {
    match o {
        Some(s) => Some(s@),
        None => None,
    }
}

/// Picks the DeepSeek and OpenRouter keys out of settings rows (key, value).
pub fn keys_from_settings(rows: &Vec<(String, String)>) -> (r: (Option<String>, Option<String>))
    ensures
        (opt_view(r.0), opt_view(r.1)) == settings_keys(rows@),
{
    let mut ds: Option<String> = None;
    let mut or: Option<String> = None;
    let mut i: usize = 0;
    while i < rows.len()
        invariant
            i <= rows.len(),
            (opt_view(ds), opt_view(or)) == settings_keys(rows@.take(i as int)),
        decreases rows.len() - i,
    {
        let (k, v) = &rows[i];
        assert(rows@.take(i + 1).drop_last() =~= rows@.take(i as int));
        assert(rows@.take(i + 1).last() == rows@[i as int]);
        if same_text(k.as_str(), "DEEPSEEK_API_KEY") && !blank(v.as_str()) {
            ds = Some(v.clone());
        } else if same_text(k.as_str(), "OPENROUTER_API_KEY") && !blank(v.as_str()) {
            or = Some(v.clone());
        }
        i += 1;
    }
    assert(rows@.take(rows.len() as int) =~= rows@);
    (ds, or)
}

/// The way a DeepSeek turn reaches the model, with the key it uses.
#[derive(Debug, Clone, PartialEq, Eq)]
pub enum DeepSeekRoute {
    /// DeepSeek's own API.
    Direct(String),
    /// DeepSeek through OpenRouter.
    OpenRouter(String),
}

/// The message of a turn for which no key is configured.
pub open spec fn no_key_message() -> Seq<char> {
    "No DeepSeek API key or OpenRouter API key is configured in settings or environment."@
}

/// The first of two optional texts that is set.
pub open spec fn first_set(a: Option<String>, b: Option<String>) -> Option<String> {
    match a {
        Some(x) => Some(x),
        None => b,
    }
}

/// The route of a DeepSeek turn: a DeepSeek key (settings first, then environment) goes
/// direct; otherwise an OpenRouter key (settings first, then environment) goes through
/// OpenRouter; with neither the turn fails.
pub fn select_route(
    db_deepseek: Option<String>,
    db_openrouter: Option<String>,
    env_deepseek: Option<String>,
    env_openrouter: Option<String>,
) -> (r: Result<DeepSeekRoute, AppError>)
    ensures
        match first_set(db_deepseek, env_deepseek) {
            Some(k) => r == Ok::<DeepSeekRoute, AppError>(DeepSeekRoute::Direct(k)),
            None => match first_set(db_openrouter, env_openrouter) {
                Some(k) => r == Ok::<DeepSeekRoute, AppError>(DeepSeekRoute::OpenRouter(k)),
                None => r matches Err(AppError::AiApi(m)) && m@ == no_key_message(),
            },
        },
{
    let ds = match db_deepseek {
        Some(k) => Some(k),
        None => env_deepseek,
    };
    if let Some(k) = ds {
        return Ok(DeepSeekRoute::Direct(k));
    }
    let or = match db_openrouter {
        Some(k) => Some(k),
        None => env_openrouter,
    };
    match or {
        Some(k) => Ok(DeepSeekRoute::OpenRouter(k)),
        None => Err(
            AppError::AiApi(
                String::from_str(
                    "No DeepSeek API key or OpenRouter API key is configured in settings or environment.",
                ),
            ),
        ),
    }
}

impl DeepSeekRoute {
    /// The chat-completions endpoint of the route.
    pub fn url(&self) -> (r: &'static str)
        ensures
            r@ == (match self {
                DeepSeekRoute::Direct(_) => "https://api.deepseek.com/v1/chat/completions"@,
                DeepSeekRoute::OpenRouter(_) => "https://openrouter.ai/api/v1/chat/completions"@,
            }),
    {
        match self {
            DeepSeekRoute::Direct(_) => "https://api.deepseek.com/v1/chat/completions",
            DeepSeekRoute::OpenRouter(_) => "https://openrouter.ai/api/v1/chat/completions",
        }
    }

    /// The model the route asks for.
    pub fn model(&self) -> (r: &'static str)
        ensures
            r@ == (match self {
                DeepSeekRoute::Direct(_) => "deepseek-chat"@,
                DeepSeekRoute::OpenRouter(_) => "deepseek/deepseek-chat"@,
            }),
    {
        match self {
            DeepSeekRoute::Direct(_) => "deepseek-chat",
            DeepSeekRoute::OpenRouter(_) => "deepseek/deepseek-chat",
        }
    }

    /// The key the route authenticates with.
    pub fn key(&self) -> (r: &String)
        ensures
            *r == (match self {
                DeepSeekRoute::Direct(k) => *k,
                DeepSeekRoute::OpenRouter(k) => *k,
            }),
    {
        match self {
            DeepSeekRoute::Direct(k) => k,
            DeepSeekRoute::OpenRouter(k) => k,
        }
    }

    /// Requests through OpenRouter carry the application's title.
    pub fn is_openrouter(&self) -> (r: bool)
        ensures
            r == (self is OpenRouter),
    {
        match self {
            DeepSeekRoute::Direct(_) => false,
            DeepSeekRoute::OpenRouter(_) => true,
        }
    }
}

} // verus!
