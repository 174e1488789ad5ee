use telegram_bot_seller::ai::gemini::{
    direct_request, direct_text_prompt, encode_media, gemini_text, image_mime_type, media_route, openrouter_request,
    openrouter_text, GeminiCandidate, GeminiPart, GeminiResponse, GeminiResponseContent, GeminiResponsePart,
    MediaRoute, OpenRouterChoice, OpenRouterChoiceMessage, OpenRouterContent, OpenRouterResponse,
    DEFAULT_OPENROUTER_MODEL,
};
use telegram_bot_seller::error::AppError;

#[test]
fn test_media_encoding_and_types() {
    assert_eq!(encode_media(b"admin:admin123"), "YWRtaW46YWRtaW4xMjM=");
    assert_eq!(encode_media(b""), "");
    assert_eq!(encode_media(&[0xff, 0xfe]), "//4=");
    assert_eq!(image_mime_type("./data/downloads/photos/a.png"), "image/png");
    assert_eq!(image_mime_type("./data/downloads/photos/a.jpg"), "image/jpeg");
    assert_eq!(media_route(Some("or".to_string()), "gem".to_string()), MediaRoute::OpenRouter("or".to_string()));
    assert_eq!(media_route(None, "gem".to_string()), MediaRoute::Direct("gem".to_string()));
}

#[test]
fn test_gemini_request_building() {
    let req = direct_request("QUJD".to_string(), "audio/ogg", "Transcribe");
    assert_eq!(req.contents.len(), 1);
    match &req.contents[0].parts[0] {
        GeminiPart::InlineData { inline_data } => {
            assert_eq!(inline_data.mime_type, "audio/ogg");
            assert_eq!(inline_data.data, "QUJD");
        }
        other => panic!("unexpected {:?}", other),
    }
    match &req.contents[0].parts[1] {
        GeminiPart::Text { text } => assert_eq!(text, "Transcribe"),
        other => panic!("unexpected {:?}", other),
    }
}

#[test]
fn test_openrouter_request_building() {
    let req = openrouter_request("QUJD".to_string(), "audio/ogg", "Transcribe");
    assert_eq!(req.model, DEFAULT_OPENROUTER_MODEL);
    assert_eq!(req.messages[0].role, "user");
    match &req.messages[0].content[1] {
        OpenRouterContent::InputAudio { input_audio } => {
            assert_eq!(input_audio.format, "ogg");
            assert_eq!(input_audio.data, "QUJD");
        }
        other => panic!("unexpected {:?}", other),
    }
    let req = openrouter_request("QUJD".to_string(), "audio/ogg/x", "p");
    match &req.messages[0].content[1] {
        OpenRouterContent::InputAudio { input_audio } => assert_eq!(input_audio.format, "ogg"),
        other => panic!("unexpected {:?}", other),
    }
    let req = openrouter_request("QUJD".to_string(), "image/png", "Describe");
    match &req.messages[0].content[0] {
        OpenRouterContent::Text { text } => assert_eq!(text, "Describe"),
        other => panic!("unexpected {:?}", other),
    }
    match &req.messages[0].content[1] {
        OpenRouterContent::ImageUrl { image_url } => assert_eq!(image_url.url, "data:image/png;base64,QUJD"),
        other => panic!("unexpected {:?}", other),
    }
}

#[test]
fn test_reply_text_extraction() {
    let ok = GeminiResponse {
        candidates: Some(vec![GeminiCandidate {
            content: Some(GeminiResponseContent {
                parts: Some(vec![GeminiResponsePart { text: Some("Это флакон Dior Sauvage".to_string()) }]),
            }),
        }]),
    };
    assert_eq!(gemini_text(ok), Ok("Это флакон Dior Sauvage".to_string()));
    let malformed = "Gemini API candidates structure was empty or malformed".to_string();
    assert_eq!(gemini_text(GeminiResponse { candidates: None }), Err(AppError::AiApi(malformed.clone())));
    assert_eq!(
        gemini_text(GeminiResponse { candidates: Some(vec![GeminiCandidate { content: None }]) }),
        Err(AppError::AiApi(malformed))
    );

    let ok = OpenRouterResponse {
        choices: Some(vec![OpenRouterChoice {
            message: Some(OpenRouterChoiceMessage { content: Some("Чек на 15000".to_string()) }),
        }]),
    };
    assert_eq!(openrouter_text(ok), Ok("Чек на 15000".to_string()));
    assert_eq!(
        openrouter_text(OpenRouterResponse { choices: Some(Vec::new()) }),
        Err(AppError::AiApi("OpenRouter API choices structure was empty or malformed".to_string()))
    );
    assert_eq!(direct_text_prompt("S", "P"), "System instructions:\nS\n\nUser request:\nP");
}
