//! The Telegram side of the bot: the updates it receives, the long-polling offset, what
//! kind of message arrived, and the replies the sales pipeline sends back.

use vstd::prelude::*;
use crate::contacts::Contact;
use crate::error::AppError;
use crate::numbers::{format_i64, signed_decimal};
use crate::text::{same_text, trim, trimmed_string, chars_of};
use crate::types::ChatId;

verus! {

/// An update from `getUpdates`.
#[derive(Debug)]
pub struct Update {
    pub update_id: i64,
    pub message: Option<Message>,
    pub business_message: Option<Message>,
}

/// A message sent to the bot or to the business account it serves.
#[derive(Debug)]
pub struct Message {
    pub message_id: i64,
    pub chat: Chat,
    pub date: i64,
    pub text: Option<String>,
    pub voice: Option<Voice>,
    pub photo: Option<Vec<PhotoSize>>,
    pub business_connection_id: Option<String>,
}

/// The chat a message came from.
#[derive(Debug)]
pub struct Chat {
    pub id: i64,
    pub first_name: Option<String>,
    pub username: Option<String>,
}

/// A voice note.
#[derive(Debug)]
pub struct Voice {
    pub file_id: String,
    pub duration: i32,
    pub mime_type: Option<String>,
}

/// One size of a photo.
#[derive(Debug)]
pub struct PhotoSize {
    pub file_id: String,
    pub file_size: Option<i32>,
    pub width: i32,
    pub height: i32,
}

/// The reply of `getFile`.
#[derive(Debug)]
pub struct FileInfoResponse {
    pub ok: bool,
    pub result: Option<FileInfo>,
}

/// A file on Telegram's servers.
#[derive(Debug)]
pub struct FileInfo {
    pub file_id: String,
    pub file_path: Option<String>,
    pub file_size: Option<i64>,
}

/// The reply of `getUpdates`.
#[derive(Debug)]
pub struct UpdatesResponse {
    pub ok: bool,
    pub result: Vec<Update>,
}

/// The placeholder token that ships in example settings.
pub open spec fn placeholder_token() -> Seq<char> {
    "123456789:ABCdefGhIJKlmNoPQRsTUVwxyZ"@
}

/// A token with which polling cannot start: blank, or the placeholder.
pub open spec fn unusable_token(token: Seq<char>) -> bool {
    trim(token).len() == 0 || trim(token) == placeholder_token()
}

/// Tests whether polling must stand by for want of a real token.
pub fn token_unusable(token: &str) -> (r: bool)
    ensures
        r == unusable_token(token@),
{
    let t = trimmed_string(&chars_of(token));
    t.as_str().is_empty() || same_text(t.as_str(), "123456789:ABCdefGhIJKlmNoPQRsTUVwxyZ")
}

/// The `getUpdates` request for long polling from `offset`.
pub fn updates_url(token: &str, offset: i64) -> (r: String)
    ensures
        r@ == "https://api.telegram.org/bot"@ + token@ + "/getUpdates?offset="@ + signed_decimal(offset as int)
            + "&timeout=30&allowed_updates=[\"message\",\"business_message\"]"@,
{
    let mut r = String::from_str("https://api.telegram.org/bot");
    r.append(token);
    r.append("/getUpdates?offset=");
    r.append(format_i64(offset).as_str());
    r.append("&timeout=30&allowed_updates=[\"message\",\"business_message\"]");
    r
}

/// The offset to poll from after a batch of updates: one past the last update's
/// identifier, or the same offset when the batch is empty.
pub open spec fn offset_after(offset: i64, updates: Seq<Update>) -> int {
    if updates.len() == 0 {
        offset as int
    } else {
        updates.last().update_id + 1
    }
}

/// The offset to poll from after a batch of updates.
pub fn next_offset(offset: i64, updates: &Vec<Update>) -> (r: i64)
    requires
        forall|i: int| 0 <= i < updates.len() ==> (#[trigger] updates@[i]).update_id < i64::MAX,
    ensures
        r == offset_after(offset, updates@),
{
    let mut r = offset;
    let mut i: usize = 0;
    while i < updates.len()
        invariant
            i <= updates.len(),
            forall|k: int| 0 <= k < updates.len() ==> (#[trigger] updates@[k]).update_id < i64::MAX,
            r == offset_after(offset, updates@.take(i as int)),
        decreases updates.len() - i,
    {
        r = updates[i].update_id + 1;
        i += 1;
        assert(updates@.take(i as int).last() == updates@[i - 1]);
    }
    assert(updates@.take(updates.len() as int) =~= updates@);
    r
}

/// The message an update carries: the ordinary one, else the business one.
pub fn update_message(update: &Update) -> (r: Option<&Message>)
    ensures
        r == (match update.message {
            Some(m) => Some(&m),
            None => match update.business_message {
                Some(m) => Some(&m),
                None => None,
            },
        }),
{
    match &update.message {
        Some(m) => Some(m),
        None => match &update.business_message {
            Some(m) => Some(m),
            None => None,
        },
    }
}

/// The size a photo is ranked by: its file size, zero when unknown.
pub open spec fn photo_rank(p: PhotoSize) -> int {
    match p.file_size {
        Some(s) => s as int,
        None => 0,
    }
}

/// `i` is the largest photo size, the last one among equally large ones.
pub open spec fn is_largest(photos: Seq<PhotoSize>, i: int) -> bool {
    &&& 0 <= i < photos.len()
    &&& forall|j: int| 0 <= j < photos.len() ==> photo_rank(#[trigger] photos[j]) <= photo_rank(photos[i])
    &&& forall|j: int| i < j < photos.len() ==> photo_rank(#[trigger] photos[j]) < photo_rank(photos[i])
}

/// The position of the largest size of a photo, the last among equally large ones;
/// `None` when there is no size at all.
pub fn largest_photo(photos: &Vec<PhotoSize>) -> (r: Option<usize>)
    ensures
        match r {
            Some(i) => is_largest(photos@, i as int),
            None => photos@.len() == 0,
        },
{
    if photos.len() == 0 {
        return None;
    }
    let mut best: usize = 0;
    let mut best_size: i32 = match photos[0].file_size {
        Some(s) => s,
        None => 0,
    };
    let mut i: usize = 1;
    while i < photos.len()
        invariant
            1 <= i <= photos.len(),
            best < i,
            best_size as int == photo_rank(photos@[best as int]),
            forall|j: int| 0 <= j < i ==> photo_rank(#[trigger] photos@[j]) <= best_size,
            forall|j: int| best < j < i ==> photo_rank(#[trigger] photos@[j]) < best_size,
        decreases photos.len() - i,
    {
        let size = match photos[i].file_size {
            Some(s) => s,
            None => 0,
        };
        if size >= best_size {
            best = i;
            best_size = size;
        }
        i += 1;
    }
    Some(best)
}

/// The largest file the bot downloads: 15 MiB.
pub const MAX_DOWNLOAD_BYTES: i64 = 15728640;

/// A file of a known size above the limit is refused; one of unknown size is not.
pub fn exceeds_download_limit(file_size: Option<i64>) -> (r: bool)
    ensures
        r == (match file_size {
            Some(s) => s > MAX_DOWNLOAD_BYTES,
            None => false,
        }),
{
    match file_size {
        Some(s) => s > MAX_DOWNLOAD_BYTES,
        None => false,
    }
}

/// The `getFile` request for a file.
pub fn get_file_url(token: &str, file_id: &str) -> (r: String)
    ensures
        r@ == "https://api.telegram.org/bot"@ + token@ + "/getFile?file_id="@ + file_id@,
{
    let mut r = String::from_str("https://api.telegram.org/bot");
    r.append(token);
    r.append("/getFile?file_id=");
    r.append(file_id);
    r
}

/// The download address of a file's contents.
pub fn download_url(token: &str, file_path: &str) -> (r: String)
    ensures
        r@ == "https://api.telegram.org/file/bot"@ + token@ + "/"@ + file_path@,
{
    let mut r = String::from_str("https://api.telegram.org/file/bot");
    r.append(token);
    r.append("/");
    r.append(file_path);
    r
}

/// The address of a Bot API method.
pub fn method_url(token: &str, method: &str) -> (r: String)
    ensures
        r@ == "https://api.telegram.org/bot"@ + token@ + "/"@ + method@,
{
    let mut r = String::from_str("https://api.telegram.org/bot");
    r.append(token);
    r.append("/");
    r.append(method);
    r
}

/// Where a voice note is saved.
pub fn voice_path(file_id: &str) -> (r: String)
    ensures
        r@ == "./data/downloads/voice/"@ + file_id@ + ".ogg"@,
{
    let mut r = String::from_str("./data/downloads/voice/");
    r.append(file_id);
    r.append(".ogg");
    r
}

/// Where a photo is saved.
pub fn photo_path(file_id: &str) -> (r: String)
    ensures
        r@ == "./data/downloads/photos/"@ + file_id@ + ".jpg"@,
{
    let mut r = String::from_str("./data/downloads/photos/");
    r.append(file_id);
    r.append(".jpg");
    r
}

/// How many messages a user may send within one window.
/// How a long-polling request for updates went wrong.
#[derive(Debug, Clone, Copy, PartialEq, Eq, Structural)]
pub enum PollFailure {
    /// The request did not reach Telegram.
    Connection,
    /// Telegram answered with an HTTP error status.
    HttpStatus,
    /// The answer was not the expected JSON.
    BadJson,
    /// The answer said `ok: false`.
    NotOk,
}

/// How long, in seconds, the polling loop waits before asking again after a failure:
/// a short pause when the request or its answer was broken, a longer one when Telegram
/// itself refused.
pub fn poll_retry_delay_secs(failure: PollFailure) -> (r: u64)
    ensures
        r == match failure {
            PollFailure::Connection | PollFailure::BadJson => 5u64,
            PollFailure::HttpStatus | PollFailure::NotOk => 10u64,
        },
{
    match failure {
        PollFailure::Connection | PollFailure::BadJson => 5,
        PollFailure::HttpStatus | PollFailure::NotOk => 10,
    }
}

/// How long, in seconds, the bot sleeps between looks while it has no usable token.
pub const STANDBY_SLEEP_SECS: u64 = 60;

/// The timeout, in seconds, of the HTTP client used for polling.
pub const POLL_CLIENT_TIMEOUT_SECS: u64 = 45;

pub const RATE_LIMIT_REQUESTS: usize = 5;

/// The length of the rate-limiting window, in seconds.
pub const RATE_LIMIT_WINDOW_SECS: u64 = 30;

/// The reaction every incoming message is acknowledged with.
pub const ACK_REACTION: &'static str = "👍";

/// The reply to a user who writes too often.
pub const RATE_LIMIT_REPLY: &'static str = "⚠️ *Внимание*!\nВы отправляете сообщения слишком часто. Пожалуйста, подождите несколько секунд перед следующим запросом.";

/// The reply when the dialogue failed.
pub const BUSY_REPLY: &'static str = "🤖 *Ответ продавца*:\nИзвините, мой модуль консультаций временно перегружен. Я уже уведомил владельца. Пожалуйста, попробуйте написать чуть позже или свяжитесь с нами напрямую!";

/// The reply when a voice note could not be transcribed.
pub const VOICE_UNAVAILABLE_REPLY: &'static str = "🎤 *Голосовое сообщение получено*!\n\n🤖 *Ответ продавца*:\nИзвините, сейчас мои системы распознавания голоса временно недоступны. Пожалуйста, напишите ваш запрос текстом, и я с радостью отвечу вам!";

/// The reply when a photo could not be analysed.
pub const PHOTO_UNAVAILABLE_REPLY: &'static str = "📸 *Изображение получено*!\n\n🤖 *Ответ продавца*:\nИзвините, сейчас мои системы визуального анализа временно недоступны. Пожалуйста, опишите текстом, что изображено на фото, или продублируйте информацию, и я помогу вам!";

/// The reply to a message that is neither text, photo nor voice.
pub const UNSUPPORTED_REPLY: &'static str = "Unsupported attachment type.\n\nOnly text, photo, and voice formats are processed by the sales pipeline.";

/// The reply when handling a message failed altogether.
pub const ERROR_REPLY: &'static str = "⚠️ An error occurred while processing your message.";

/// What a photo is analysed for.
pub const PHOTO_PROMPT: &'static str = "Analyze this image. If it is a payment receipt, bank transfer screenshot, or payment proof, perform OCR and extract: Sender name, Transaction Amount, Date/Time, Status, and Transaction ID. If it is a photo of a perfume, fragrance bottle, or product packaging, describe the product, brand name, bottle style, and any scent characteristics or visible text. Keep the response clean and well-structured.";

/// What kind of message arrived, with what the pipeline needs of it.
#[derive(Debug, Clone, PartialEq, Eq)]
pub enum MessageKind {
    /// A voice note, by file.
    Voice(String),
    /// A photo, by the file of its largest size.
    Photo(String),
    /// A photo that came without any size; nothing is done with it.
    EmptyPhoto,
    /// A text.
    Text(String),
    /// Anything else.
    Unsupported,
}

/// The kind of a message: a voice note first, then a photo, then a text.
pub open spec fn message_kind(m: Message) -> MessageKind {
    match m.voice {
        Some(v) => MessageKind::Voice(v.file_id),
        None => match m.photo {
            Some(ps) => if ps@.len() == 0 {
                MessageKind::EmptyPhoto
            } else {
                MessageKind::Photo(ps@[choose|i: int| is_largest(ps@, i)].file_id)
            },
            None => match m.text {
                Some(t) => MessageKind::Text(t),
                None => MessageKind::Unsupported,
            },
        },
    }
}

proof fn lemma_largest_unique(photos: Seq<PhotoSize>, i: int, k: int)
    requires
        is_largest(photos, i),
        is_largest(photos, k),
    ensures
        i == k,
{
    if i < k {
        assert(photo_rank(photos[k]) < photo_rank(photos[i]));
        assert(photo_rank(photos[i]) <= photo_rank(photos[k]));
    } else if k < i {
        assert(photo_rank(photos[i]) < photo_rank(photos[k]));
        assert(photo_rank(photos[k]) <= photo_rank(photos[i]));
    }
}

/// Sorts a message into its kind.
pub fn classify(m: &Message) -> (r: MessageKind)
    ensures
        r == message_kind(*m),
{
    match &m.voice {
        Some(v) => MessageKind::Voice(v.file_id.clone()),
        None => match &m.photo {
            Some(ps) => match largest_photo(ps) {
                Some(i) => {
                    proof {
                        let k = choose|k: int| is_largest(ps@, k);
                        lemma_largest_unique(ps@, i as int, k);
                    }
                    MessageKind::Photo(ps[i].file_id.clone())
                },
                None => MessageKind::EmptyPhoto,
            },
            None => match &m.text {
                Some(t) => MessageKind::Text(t.clone()),
                None => MessageKind::Unsupported,
            },
        },
    }
}

fn clone_text(o: &Option<String>) -> (r: Option<String>)
    ensures
        r == *o,
{
    match o {
        Some(s) => Some(s.clone()),
        None => None,
    }
}

/// The contact saved for whoever writes: their chat, first name and username; address,
/// phone and nickname left empty.
pub fn contact_from_chat(chat: &Chat) -> (r: Contact)
    ensures
        r.chat_id == ChatId(chat.id),
        r.first_name == chat.first_name,
        r.username == chat.username,
        r.address is None,
        r.phone_number is None,
        r.nickname is None,
{
    Contact {
        chat_id: ChatId(chat.id),
        first_name: clone_text(&chat.first_name),
        address: None,
        phone_number: None,
        username: clone_text(&chat.username),
        nickname: None,
    }
}

/// A reply to send and the reaction to put on the message after it, if any.
#[derive(Debug, Clone, PartialEq, Eq)]
pub struct Reply {
    pub text: String,
    pub reaction: Option<String>,
}

/// The next step of handling a voice note or photo once the model has described it.
#[derive(Debug, Clone, PartialEq, Eq)]
pub enum MediaStep {
    /// Hold a dialogue about this text.
    Dialog(String),
    /// Send this reply; the turn is over.
    Answer(Reply),
}

/// What a message gets once the rate limiter has decided on it: nothing yet when it was
/// admitted, so that handling goes on; the warning, with no reaction, when it was
/// throttled, and handling stops there (no contact is saved, no reaction is sent).
pub fn rate_limit_reply(allowed: bool) -> (r: Option<Reply>)
    ensures
        allowed ==> r is None,
        !allowed ==> (r matches Some(x) && x.text@ == RATE_LIMIT_REPLY@ && x.reaction is None),
{
    if allowed {
        None
    } else {
        Some(Reply { text: String::from_str(RATE_LIMIT_REPLY), reaction: None })
    }
}

/// Where the handling of one incoming message stands.
#[derive(Debug, Clone, PartialEq, Eq)]
pub enum HandlingStage {
    /// The rate limiter is deciding on the message.
    Arrived,
    /// The sender's contact is being saved.
    SavingContact,
    /// The message is being acknowledged with a reaction.
    Acknowledging,
    /// The answer is being worked out.
    Answering,
    /// The reply is being sent; the reaction to put on the message after it, if any.
    Replying(Option<String>),
    /// Nothing more is done with the message.
    Done,
}

/// What happened at the stage the handling was in.
#[derive(Debug, Clone, PartialEq, Eq)]
pub enum HandlingEvent {
    /// The rate limiter admitted the message (`true`) or throttled it (`false`).
    RateChecked(bool),
    /// Saving the contact is over, whether it succeeded or not.
    ContactSaved,
    /// Sending the acknowledging reaction is over, whether it succeeded or not.
    Acknowledged,
    /// The answer: a reply to send, or none.
    Answered(Option<Reply>),
    /// The reply was sent.
    ReplySent,
}

/// What to do next with the message.
#[derive(Debug, Clone, PartialEq, Eq)]
pub enum HandlingAction {
    /// Send this warning; the handling ends with it.
    SendWarning(String),
    /// Save the sender's contact.
    SaveContact,
    /// Put this acknowledging reaction on the message.
    Acknowledge(String),
    /// Work out the answer to the message.
    Answer,
    /// Send this reply.
    SendReply(String),
    /// Put this reaction, decided by the model, on the message; the handling ends with it.
    React(String),
    /// The handling ends.
    Stop,
}

/// The next stage and action of handling a message. A throttled message gets the warning
/// and nothing else; an admitted one has its contact saved, is acknowledged, is answered,
/// gets the reply when there is one, and then the reaction that came with the reply, if
/// any. An event that does not belong to the stage ends the handling.
pub fn handling_step(stage: HandlingStage, event: HandlingEvent) -> (r: (HandlingStage, HandlingAction))
    ensures
        match (stage, event) {
            (HandlingStage::Arrived, HandlingEvent::RateChecked(allowed)) => if allowed {
                r == (HandlingStage::SavingContact, HandlingAction::SaveContact)
            } else {
                r.0 == HandlingStage::Done && (r.1 matches HandlingAction::SendWarning(w) && w@ == RATE_LIMIT_REPLY@)
            },
            (HandlingStage::SavingContact, HandlingEvent::ContactSaved) => r.0 == HandlingStage::Acknowledging
                && (r.1 matches HandlingAction::Acknowledge(e) && e@ == ACK_REACTION@),
            (HandlingStage::Acknowledging, HandlingEvent::Acknowledged) => r == (
                HandlingStage::Answering,
                HandlingAction::Answer,
            ),
            (HandlingStage::Answering, HandlingEvent::Answered(answer)) => match answer {
                Some(reply) => r == (HandlingStage::Replying(reply.reaction), HandlingAction::SendReply(reply.text)),
                None => r == (HandlingStage::Done, HandlingAction::Stop),
            },
            (HandlingStage::Replying(reaction), HandlingEvent::ReplySent) => match reaction {
                Some(e) => r == (HandlingStage::Done, HandlingAction::React(e)),
                None => r == (HandlingStage::Done, HandlingAction::Stop),
            },
            _ => r == (HandlingStage::Done, HandlingAction::Stop),
        },
{
    match (stage, event) {
        (HandlingStage::Arrived, HandlingEvent::RateChecked(allowed)) => match rate_limit_reply(allowed) {
            Some(warning) => (HandlingStage::Done, HandlingAction::SendWarning(warning.text)),
            None => (HandlingStage::SavingContact, HandlingAction::SaveContact),
        },
        (HandlingStage::SavingContact, HandlingEvent::ContactSaved) => (
            HandlingStage::Acknowledging,
            HandlingAction::Acknowledge(String::from_str(ACK_REACTION)),
        ),
        (HandlingStage::Acknowledging, HandlingEvent::Acknowledged) => (
            HandlingStage::Answering,
            HandlingAction::Answer,
        ),
        (HandlingStage::Answering, HandlingEvent::Answered(answer)) => match answer {
            Some(reply) => (HandlingStage::Replying(reply.reaction), HandlingAction::SendReply(reply.text)),
            None => (HandlingStage::Done, HandlingAction::Stop),
        },
        (HandlingStage::Replying(reaction), HandlingEvent::ReplySent) => match reaction {
            Some(e) => (HandlingStage::Done, HandlingAction::React(e)),
            None => (HandlingStage::Done, HandlingAction::Stop),
        },
        _ => (HandlingStage::Done, HandlingAction::Stop),
    }
}

/// A transcription leads to a dialogue about it; its failure to the apology for voice.
pub fn after_transcription(transcription: Result<String, AppError>) -> (r: MediaStep)
    ensures
        match transcription {
            Ok(t) => r == MediaStep::Dialog(t),
            Err(_) => r matches MediaStep::Answer(reply) && reply.text@ == VOICE_UNAVAILABLE_REPLY@
                && reply.reaction is None,
        },
{
    match transcription {
        Ok(t) => MediaStep::Dialog(t),
        Err(_) => MediaStep::Answer(
            Reply { text: String::from_str(VOICE_UNAVAILABLE_REPLY), reaction: None },
        ),
    }
}

/// An analysis leads to a dialogue about it; its failure to the apology for photos.
pub fn after_analysis(analysis: Result<String, AppError>) -> (r: MediaStep)
    ensures
        match analysis {
            Ok(t) => r == MediaStep::Dialog(t),
            Err(_) => r matches MediaStep::Answer(reply) && reply.text@ == PHOTO_UNAVAILABLE_REPLY@
                && reply.reaction is None,
        },
{
    match analysis {
        Ok(t) => MediaStep::Dialog(t),
        Err(_) => MediaStep::Answer(
            Reply { text: String::from_str(PHOTO_UNAVAILABLE_REPLY), reaction: None },
        ),
    }
}

/// The reply to a voice note: the transcription and the seller's answer, with the
/// answer's reaction; the apology when the dialogue failed.
pub fn voice_reply(transcription: &str, dialog: Result<(String, Option<String>), AppError>) -> (r: Reply)
    ensures
        match dialog {
            Ok((answer, reaction)) => r.text@ == "🎤 *Транскрипция*: \""@ + transcription@
                + "\"\n\n🤖 *Ответ продавца*:\n"@ + answer@ && r.reaction == reaction,
            Err(_) => r.text@ == BUSY_REPLY@ && r.reaction is None,
        },
{
    match dialog {
        Ok((answer, reaction)) => {
            let mut text = String::from_str("🎤 *Транскрипция*: \"");
            text.append(transcription);
            text.append("\"\n\n🤖 *Ответ продавца*:\n");
            text.append(answer.as_str());
            Reply { text, reaction }
        },
        Err(_) => Reply { text: String::from_str(BUSY_REPLY), reaction: None },
    }
}

/// The reply to a photo: the analysis and the seller's answer, with the answer's
/// reaction; the apology when the dialogue failed.
pub fn photo_reply(analysis: &str, dialog: Result<(String, Option<String>), AppError>) -> (r: Reply)
    ensures
        match dialog {
            Ok((answer, reaction)) => r.text@ == "📸 *Анализ изображения*:\n"@ + analysis@
                + "\n\n🤖 *Ответ продавца*:\n"@ + answer@ && r.reaction == reaction,
            Err(_) => r.text@ == BUSY_REPLY@ && r.reaction is None,
        },
{
    match dialog {
        Ok((answer, reaction)) => {
            let mut text = String::from_str("📸 *Анализ изображения*:\n");
            text.append(analysis);
            text.append("\n\n🤖 *Ответ продавца*:\n");
            text.append(answer.as_str());
            Reply { text, reaction }
        },
        Err(_) => Reply { text: String::from_str(BUSY_REPLY), reaction: None },
    }
}

/// The reply to a text: the seller's answer with its reaction; the apology when the
/// dialogue failed.
pub fn text_reply(dialog: Result<(String, Option<String>), AppError>) -> (r: Reply)
    ensures
        match dialog {
            Ok((answer, reaction)) => r.text == answer && r.reaction == reaction,
            Err(_) => r.text@ == BUSY_REPLY@ && r.reaction is None,
        },
{
    match dialog {
        Ok((answer, reaction)) => Reply { text: answer, reaction },
        Err(_) => Reply { text: String::from_str(BUSY_REPLY), reaction: None },
    }
}

} // verus!
