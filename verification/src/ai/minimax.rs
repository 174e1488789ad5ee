//! MiniMax dialogue: the endpoint, the model, and when the configured key may be used.

use vstd::prelude::*;
use crate::ai::dialog::minimax_key_usable;
use crate::config::blank;
use crate::error::AppError;
use crate::text::same_text;

verus! {

/// A message in MiniMax's OpenAI-compatible format.
pub type MiniMaxMessage = crate::ai::dialog::ChatMessage;

/// A tool call in MiniMax's OpenAI-compatible format.
pub type MiniMaxToolCall = crate::ai::dialog::ToolCall;

/// The function of a tool call in MiniMax's OpenAI-compatible format.
pub type MiniMaxFunctionCall = crate::ai::dialog::FunctionCall;

/// A reply in MiniMax's OpenAI-compatible format.
pub type MiniMaxResponse = crate::ai::dialog::CompletionResponse;

/// A choice of a reply in MiniMax's OpenAI-compatible format.
pub type MiniMaxChoice = crate::ai::dialog::CompletionChoice;

/// The model a MiniMax turn asks for.
pub const DEFAULT_MINIMAX_MODEL: &'static str = "abab6.5g-chat";

/// The message of a turn refused for want of a usable MiniMax key.
pub open spec fn missing_key_message() -> Seq<char> {
    "MiniMax API key is not configured in settings or environment. Please go to web settings to configure it."@
}

/// A MiniMax turn needs a key that is not blank and not the placeholder.
pub fn check_key(key: &str) -> (r: Result<(), AppError>)
    ensures
        minimax_key_usable(key@) ==> r is Ok,
        !minimax_key_usable(key@) ==> (r matches Err(AppError::AiApi(m)) && m@ == missing_key_message()),
{
    if blank(key) || same_text(key, "minimax_dummy_key") {
        Err(
            AppError::AiApi(
                String::from_str(
                    "MiniMax API key is not configured in settings or environment. Please go to web settings to configure it.",
                ),
            ),
        )
    } else {
        Ok(())
    }
}

/// The chat-completions endpoint for a MiniMax group.
pub fn completions_url(group_id: &str) -> (r: String)
    ensures
        r@ == "https://api.minimax.io/v1/chat/completions?GroupId="@ + group_id@,
{
    let mut r = String::from_str("https://api.minimax.io/v1/chat/completions?GroupId=");
    r.append(group_id);
    r
}

} // verus!
