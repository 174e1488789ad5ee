use telegram_bot_seller::error::AppError;
use telegram_bot_seller::telegram::{
    after_analysis, after_transcription, classify, contact_from_chat, download_url, exceeds_download_limit,
    get_file_url, largest_photo, method_url, next_offset, photo_path, photo_reply, poll_retry_delay_secs,
    text_reply, token_unusable, update_message, updates_url, voice_path, voice_reply, Chat, MediaStep, Message,
    MessageKind, PhotoSize, PollFailure, Update, BUSY_REPLY, PHOTO_UNAVAILABLE_REPLY, VOICE_UNAVAILABLE_REPLY,
};
use telegram_bot_seller::types::ChatId;

fn chat() -> Chat {
    Chat { id: 123456, first_name: Some("Anna".to_string()), username: Some("anna_k".to_string()) }
}

fn message(text: Option<&str>, photo: Option<Vec<PhotoSize>>) -> Message {
    Message {
        message_id: 77,
        chat: chat(),
        date: 1700000000,
        text: text.map(|s| s.to_string()),
        voice: None,
        photo,
        business_connection_id: None,
    }
}

fn size(id: &str, file_size: Option<i32>) -> PhotoSize {
    PhotoSize { file_id: id.to_string(), file_size, width: 10, height: 10 }
}

#[test]
fn test_message_classification() {
    assert_eq!(classify(&message(Some("Привет"), None)), MessageKind::Text("Привет".to_string()));
    assert_eq!(classify(&message(None, None)), MessageKind::Unsupported);
    assert_eq!(classify(&message(Some("caption"), Some(Vec::new()))), MessageKind::EmptyPhoto);
    let photos = vec![size("small", Some(10)), size("big", Some(300)), size("also_big", Some(300)), size("none", None)];
    assert_eq!(largest_photo(&photos), Some(2));
    assert_eq!(classify(&message(None, Some(photos))), MessageKind::Photo("also_big".to_string()));
    let mut voice_msg = message(Some("t"), Some(vec![size("p", Some(1))]));
    voice_msg.voice = Some(telegram_bot_seller::telegram::Voice {
        file_id: "v1".to_string(),
        duration: 3,
        mime_type: Some("audio/ogg".to_string()),
    });
    assert_eq!(classify(&voice_msg), MessageKind::Voice("v1".to_string()));
}

#[test]
fn test_updates_and_offsets() {
    let updates = vec![
        Update { update_id: 10, message: Some(message(Some("a"), None)), business_message: None },
        Update { update_id: 11, message: None, business_message: Some(message(Some("b"), None)) },
        Update { update_id: 12, message: None, business_message: None },
    ];
    assert_eq!(next_offset(0, &updates), 13);
    assert_eq!(next_offset(5, &Vec::new()), 5);
    assert_eq!(update_message(&updates[0]).unwrap().text.as_deref(), Some("a"));
    assert_eq!(update_message(&updates[1]).unwrap().text.as_deref(), Some("b"));
    assert!(update_message(&updates[2]).is_none());
}

#[test]
fn test_urls_and_paths() {
    assert_eq!(
        updates_url("T", 42),
        "https://api.telegram.org/botT/getUpdates?offset=42&timeout=30&allowed_updates=[\"message\",\"business_message\"]"
    );
    assert_eq!(get_file_url("T", "F"), "https://api.telegram.org/botT/getFile?file_id=F");
    assert_eq!(download_url("T", "voice/f.oga"), "https://api.telegram.org/file/botT/voice/f.oga");
    assert_eq!(method_url("T", "sendMessage"), "https://api.telegram.org/botT/sendMessage");
    assert_eq!(voice_path("abc"), "./data/downloads/voice/abc.ogg");
    assert_eq!(photo_path("abc"), "./data/downloads/photos/abc.jpg");
    assert!(exceeds_download_limit(Some(15 * 1024 * 1024 + 1)));
    assert!(!exceeds_download_limit(Some(15 * 1024 * 1024)));
    assert!(!exceeds_download_limit(None));
}

#[test]
fn test_token_and_polling_policy() {
    assert!(token_unusable("   "));
    assert!(token_unusable(" 123456789:ABCdefGhIJKlmNoPQRsTUVwxyZ "));
    assert!(!token_unusable("7000000000:AAreal"));
    assert_eq!(poll_retry_delay_secs(PollFailure::Connection), 5);
    assert_eq!(poll_retry_delay_secs(PollFailure::BadJson), 5);
    assert_eq!(poll_retry_delay_secs(PollFailure::HttpStatus), 10);
    assert_eq!(poll_retry_delay_secs(PollFailure::NotOk), 10);
}

#[test]
fn test_contact_and_replies() {
    let c = contact_from_chat(&chat());
    assert_eq!(c.chat_id, ChatId(123456));
    assert_eq!(c.first_name.as_deref(), Some("Anna"));
    assert_eq!(c.username.as_deref(), Some("anna_k"));
    assert!(c.address.is_none() && c.phone_number.is_none() && c.nickname.is_none());

    assert_eq!(after_transcription(Ok("hello".to_string())), MediaStep::Dialog("hello".to_string()));
    match after_transcription(Err(AppError::AiApi("x".to_string()))) {
        MediaStep::Answer(r) => {
            assert_eq!(r.text, VOICE_UNAVAILABLE_REPLY);
            assert_eq!(r.reaction, None);
        }
        other => panic!("unexpected {:?}", other),
    }
    match after_analysis(Err(AppError::AiApi("x".to_string()))) {
        MediaStep::Answer(r) => assert_eq!(r.text, PHOTO_UNAVAILABLE_REPLY),
        other => panic!("unexpected {:?}", other),
    }
    let r = voice_reply("привет", Ok(("Здравствуйте!".to_string(), Some("👍".to_string()))));
    assert_eq!(r.text, "🎤 *Транскрипция*: \"привет\"\n\n🤖 *Ответ продавца*:\nЗдравствуйте!");
    assert_eq!(r.reaction, Some("👍".to_string()));
    let r = photo_reply("чек", Ok(("Оплата получена".to_string(), None)));
    assert_eq!(r.text, "📸 *Анализ изображения*:\nчек\n\n🤖 *Ответ продавца*:\nОплата получена");
    let r = text_reply(Err(AppError::AiApi("down".to_string())));
    assert_eq!(r.text, BUSY_REPLY);
    assert_eq!(r.reaction, None);
    let r = text_reply(Ok(("ok".to_string(), Some("🔥".to_string()))));
    assert_eq!(r.text, "ok");
    assert_eq!(r.reaction, Some("🔥".to_string()));
}
