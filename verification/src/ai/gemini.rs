//! Voice transcription and image analysis through Gemini, called either directly or
//! through OpenRouter: the request each route sends and the text taken from its reply.

use vstd::prelude::*;
use crate::encoding::{base64_encode, base64_encoding};
use crate::error::AppError;
use crate::text::{chars_of, copy_range, ends_with, find_from, find_in, has_prefix, has_suffix, lemma_find_from, starts_with, string_of};

verus! {

/// The model asked for through OpenRouter.
pub const DEFAULT_OPENROUTER_MODEL: &'static str = "google/gemini-2.5-flash";

/// The model asked for from Google directly.
pub const DEFAULT_DIRECT_GEMINI_MODEL: &'static str = "gemini-1.5-flash";

/// The OpenRouter chat-completions endpoint.
pub const OPENROUTER_URL: &'static str = "https://openrouter.ai/api/v1/chat/completions";

/// The Gemini endpoint for the direct model.
pub const DIRECT_GEMINI_URL: &'static str = "https://generativelanguage.googleapis.com/v1beta/models/gemini-1.5-flash:generateContent";

/// Telegram voice notes are Ogg audio.
pub const VOICE_MIME_TYPE: &'static str = "audio/ogg";

/// What transcription asks of the model.
pub const TRANSCRIPTION_PROMPT: &'static str = "Please transcribe this audio recording accurately. Only return the transcribed text, without any additional comments, prefix, or metadata. If there is no speech or it is silent, say exactly: '(silence)'";

/// A request to Gemini's `generateContent`.
#[derive(Debug)]
pub struct GeminiRequest {
    pub contents: Vec<GeminiContent>,
}

/// A content of a Gemini request.
#[derive(Debug)]
pub struct GeminiContent {
    pub parts: Vec<GeminiPart>,
}

/// A part of a Gemini content: text, or data inlined in Base64.
#[derive(Debug)]
pub enum GeminiPart {
    Text { text: String },
    InlineData { inline_data: GeminiInlineData },
}

/// Inline data of a Gemini part.
#[derive(Debug)]
pub struct GeminiInlineData {
    pub mime_type: String,
    pub data: String,
}

/// A reply of Gemini.
#[derive(Debug)]
pub struct GeminiResponse {
    pub candidates: Option<Vec<GeminiCandidate>>,
}

/// A candidate of a Gemini reply.
#[derive(Debug)]
pub struct GeminiCandidate {
    pub content: Option<GeminiResponseContent>,
}

/// The content of a Gemini candidate.
#[derive(Debug)]
pub struct GeminiResponseContent {
    pub parts: Option<Vec<GeminiResponsePart>>,
}

/// A part of a Gemini candidate's content.
#[derive(Debug)]
pub struct GeminiResponsePart {
    pub text: Option<String>,
}

/// A request to OpenRouter's chat completions.
#[derive(Debug)]
pub struct OpenRouterRequest {
    pub model: String,
    pub messages: Vec<OpenRouterMessage>,
}

/// A message of an OpenRouter request.
#[derive(Debug)]
pub struct OpenRouterMessage {
    pub role: String,
    pub content: Vec<OpenRouterContent>,
}

/// A content item of an OpenRouter message.
#[derive(Debug)]
pub enum OpenRouterContent {
    Text { text: String },
    ImageUrl { image_url: OpenRouterImageUrl },
    InputAudio { input_audio: OpenRouterInputAudio },
}

/// An image given by URL (here a `data:` URL).
#[derive(Debug)]
pub struct OpenRouterImageUrl {
    pub url: String,
}

/// Audio given inline in Base64.
#[derive(Debug)]
pub struct OpenRouterInputAudio {
    pub data: String,
    pub format: String,
}

/// A reply of OpenRouter.
#[derive(Debug)]
pub struct OpenRouterResponse {
    pub choices: Option<Vec<OpenRouterChoice>>,
}

/// A choice of an OpenRouter reply.
#[derive(Debug)]
pub struct OpenRouterChoice {
    pub message: Option<OpenRouterChoiceMessage>,
}

/// The message of an OpenRouter choice.
#[derive(Debug)]
pub struct OpenRouterChoiceMessage {
    pub content: Option<String>,
}

/// The MIME type of a photo: PNG by its extension, JPEG otherwise.
pub fn image_mime_type(file_path: &str) -> (r: &'static str)
    ensures
        r@ == (if ends_with(file_path@, ".png"@) {
            "image/png"@
        } else {
            "image/jpeg"@
        }),
{
    if has_suffix(file_path, ".png") {
        "image/png"
    } else {
        "image/jpeg"
    }
}

/// The route a media request takes, with its key.
#[derive(Debug, Clone, PartialEq, Eq)]
pub enum MediaRoute {
    /// Through OpenRouter, when an OpenRouter key is configured.
    OpenRouter(String),
    /// Straight to Google with the Gemini key otherwise.
    Direct(String),
}

/// An OpenRouter key, when configured, takes media requests through OpenRouter.
pub fn media_route(openrouter_key: Option<String>, gemini_key: String) -> (r: MediaRoute)
    ensures
        match openrouter_key {
            Some(k) => r == MediaRoute::OpenRouter(k),
            None => r == MediaRoute::Direct(gemini_key),
        },
{
    match openrouter_key {
        Some(k) => MediaRoute::OpenRouter(k),
        None => MediaRoute::Direct(gemini_key),
    }
}

/// Encodes a media file's bytes for a request.
pub fn encode_media(bytes: &[u8]) -> (r: String)
    requires
        bytes@.len() <= usize::MAX / 2,
    ensures
        r@ == base64_encoding(bytes@),
{
    base64_encode(bytes)
}

/// The request of the direct route: one content whose parts are the inline data, then
/// the prompt.
pub fn direct_request(base64_data: String, mime_type: &str, prompt: &str) -> (r: GeminiRequest)
    ensures
        r.contents@.len() == 1,
        r.contents@[0].parts@.len() == 2,
        r.contents@[0].parts@[0] matches GeminiPart::InlineData { inline_data } && inline_data.mime_type@
            == mime_type@ && inline_data.data == base64_data,
        r.contents@[0].parts@[1] matches GeminiPart::Text { text } && text@ == prompt@,
{
    let mut parts: Vec<GeminiPart> = Vec::new();
    parts.push(
        GeminiPart::InlineData {
            inline_data: GeminiInlineData { mime_type: String::from_str(mime_type), data: base64_data },
        },
    );
    parts.push(GeminiPart::Text { text: String::from_str(prompt) });
    let mut contents: Vec<GeminiContent> = Vec::new();
    contents.push(GeminiContent { parts });
    GeminiRequest { contents }
}

/// The audio format named by an `audio/…` MIME type: what follows the first `/`, up to
/// the next `/` if there is one.
pub open spec fn audio_format(mime: Seq<char>) -> Seq<char> {
    let after = mime.subrange(6, mime.len() as int);
    match find_from(after, seq!['/'], 0) {
        Some(k) => after.subrange(0, k),
        None => after,
    }
}

/// The media part of an OpenRouter request: audio inline for an `audio/…` type, an image
/// as a `data:` URL for anything else.
pub fn openrouter_media(base64_data: String, mime_type: &str) -> (r: OpenRouterContent)
    ensures
        if starts_with(mime_type@, "audio/"@) {
            r matches OpenRouterContent::InputAudio { input_audio } && input_audio.data == base64_data
                && input_audio.format@ == audio_format(mime_type@)
        } else {
            r matches OpenRouterContent::ImageUrl { image_url } && image_url.url@ == "data:"@ + mime_type@
                + ";base64,"@ + base64_data@
        },
{
    if has_prefix(mime_type, "audio/") {
        let v = chars_of(mime_type);
        proof {
            reveal_strlit("audio/");
        }
        let after = copy_range(&v, 6, v.len());
        let slash: Vec<char> = vec!['/'];
        assert(slash@ =~= seq!['/']);
        let format = match find_in(&after, &slash, 0) {
            Some(k) => {
                proof {
                    lemma_find_from(after@, seq!['/'], 0);
                }
                string_of(&after, 0, k)
            },
            None => string_of(&after, 0, after.len()),
        };
        assert(after@.subrange(0, after@.len() as int) =~= after@);
        OpenRouterContent::InputAudio { input_audio: OpenRouterInputAudio { data: base64_data, format } }
    } else {
        let mut url = String::from_str("data:");
        url.append(mime_type);
        url.append(";base64,");
        url.append(base64_data.as_str());
        OpenRouterContent::ImageUrl { image_url: OpenRouterImageUrl { url } }
    }
}

/// The request of the OpenRouter route: one user message holding the prompt, then the
/// media.
pub fn openrouter_request(base64_data: String, mime_type: &str, prompt: &str) -> (r: OpenRouterRequest)
    ensures
        r.model@ == DEFAULT_OPENROUTER_MODEL@,
        r.messages@.len() == 1,
        r.messages@[0].role@ == "user"@,
        r.messages@[0].content@.len() == 2,
        r.messages@[0].content@[0] matches OpenRouterContent::Text { text } && text@ == prompt@,
        if starts_with(mime_type@, "audio/"@) {
            r.messages@[0].content@[1] matches OpenRouterContent::InputAudio { input_audio }
                && input_audio.data == base64_data && input_audio.format@ == audio_format(mime_type@)
        } else {
            r.messages@[0].content@[1] matches OpenRouterContent::ImageUrl { image_url } && image_url.url@
                == "data:"@ + mime_type@ + ";base64,"@ + base64_data@
        },
{
    let media = openrouter_media(base64_data, mime_type);
    let mut content: Vec<OpenRouterContent> = Vec::new();
    content.push(OpenRouterContent::Text { text: String::from_str(prompt) });
    content.push(media);
    let mut messages: Vec<OpenRouterMessage> = Vec::new();
    messages.push(OpenRouterMessage { role: String::from_str("user"), content });
    OpenRouterRequest { model: String::from_str(DEFAULT_OPENROUTER_MODEL), messages }
}

/// The text of a Gemini reply: that of the first part of the first candidate.
pub open spec fn gemini_reply_text(r: GeminiResponse) -> Option<String> {
    match r.candidates {
        Some(cs) => if cs@.len() > 0 {
            match cs@[0].content {
                Some(c) => match c.parts {
                    Some(ps) => if ps@.len() > 0 {
                        ps@[0].text
                    } else {
                        None
                    },
                    None => None,
                },
                None => None,
            }
        } else {
            None
        },
        None => None,
    }
}

/// The text of a Gemini reply, or the error a malformed reply is reported with.
pub fn gemini_text(response: GeminiResponse) -> (r: Result<String, AppError>)
    ensures
        match gemini_reply_text(response) {
            Some(t) => r == Ok::<String, AppError>(t),
            None => r matches Err(AppError::AiApi(m)) && m@
                == "Gemini API candidates structure was empty or malformed"@,
        },
{
    let malformed = "Gemini API candidates structure was empty or malformed";
    let mut candidates = match response.candidates {
        Some(cs) => cs,
        None => {
            return Err(AppError::AiApi(String::from_str(malformed)));
        },
    };
    if candidates.len() == 0 {
        return Err(AppError::AiApi(String::from_str(malformed)));
    }
    let first = candidates.remove(0);
    let content = match first.content {
        Some(c) => c,
        None => {
            return Err(AppError::AiApi(String::from_str(malformed)));
        },
    };
    let mut parts = match content.parts {
        Some(ps) => ps,
        None => {
            return Err(AppError::AiApi(String::from_str(malformed)));
        },
    };
    if parts.len() == 0 {
        return Err(AppError::AiApi(String::from_str(malformed)));
    }
    let part = parts.remove(0);
    match part.text {
        Some(t) => Ok(t),
        None => Err(AppError::AiApi(String::from_str(malformed))),
    }
}

/// The text of an OpenRouter reply: the content of the first choice's message.
pub open spec fn openrouter_reply_text(r: OpenRouterResponse) -> Option<String> {
    match r.choices {
        Some(cs) => if cs@.len() > 0 {
            match cs@[0].message {
                Some(m) => m.content,
                None => None,
            }
        } else {
            None
        },
        None => None,
    }
}

/// The text of an OpenRouter reply, or the error a malformed reply is reported with.
pub fn openrouter_text(response: OpenRouterResponse) -> (r: Result<String, AppError>)
    ensures
        match openrouter_reply_text(response) {
            Some(t) => r == Ok::<String, AppError>(t),
            None => r matches Err(AppError::AiApi(m)) && m@
                == "OpenRouter API choices structure was empty or malformed"@,
        },
{
    let malformed = "OpenRouter API choices structure was empty or malformed";
    let mut choices = match response.choices {
        Some(cs) => cs,
        None => {
            return Err(AppError::AiApi(String::from_str(malformed)));
        },
    };
    if choices.len() == 0 {
        return Err(AppError::AiApi(String::from_str(malformed)));
    }
    let first = choices.remove(0);
    match first.message {
        Some(m) => match m.content {
            Some(t) => Ok(t),
            None => Err(AppError::AiApi(String::from_str(malformed))),
        },
        None => Err(AppError::AiApi(String::from_str(malformed))),
    }
}

/// The single prompt a text dialogue sends to Gemini directly: the instructions, then
/// the user's request.
pub fn direct_text_prompt(system: &str, prompt: &str) -> (r: String)
    ensures
        r@ == "System instructions:\n"@ + system@ + "\n\nUser request:\n"@ + prompt@,
{
    let mut r = String::from_str("System instructions:\n");
    r.append(system);
    r.append("\n\nUser request:\n");
    r.append(prompt);
    r
}

} // verus!
