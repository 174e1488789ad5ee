use telegram_bot_seller::ai::deepseek::{keys_from_settings, select_route, DeepSeekRoute};
use telegram_bot_seller::ai::minimax::{check_key, completions_url, DEFAULT_MINIMAX_MODEL};
use telegram_bot_seller::ai::router::{
    after_fallback, after_primary, gemini_reply, model_names, plan_fallback, select_primary, FallbackPlan, Provider,
    RouterStep,
};
use telegram_bot_seller::error::AppError;

fn row(k: &str, v: &str) -> (String, String) {
    (k.to_string(), v.to_string())
}

#[test]
fn test_ai_settings_model_names() {
    let (primary, fallback) = model_names(Some("deepseek".to_string()), Some("gemini".to_string()));
    assert_eq!(primary, "deepseek");
    assert_eq!(fallback, "gemini");
    let (primary, fallback) = model_names(None, None);
    assert_eq!(primary, "minimax");
    assert_eq!(fallback, "deepseek");
}

#[test]
fn test_orchestrator_failover_without_keys() {
    // Primary deepseek, fallback none, and no DeepSeek or OpenRouter key anywhere.
    assert_eq!(select_primary("deepseek"), Provider::DeepSeek);
    let route = select_route(None, None, None, None);
    let err = route.err().unwrap();
    let err_string = err.to_string();
    assert!(err_string.contains("No DeepSeek API key"));
    match after_primary("deepseek", "none", Err(err)) {
        RouterStep::Fail(e) => assert!(e.to_string().contains("No DeepSeek API key")),
        other => panic!("unexpected step {:?}", other),
    }
}

#[test]
fn test_router_plans() {
    assert_eq!(select_primary("gemini"), Provider::Gemini);
    assert_eq!(select_primary("minimax"), Provider::MiniMax);
    assert_eq!(select_primary("anything"), Provider::MiniMax);
    assert_eq!(plan_fallback("minimax", "none"), FallbackPlan::GiveUp);
    assert_eq!(plan_fallback("deepseek", "deepseek"), FallbackPlan::GiveUp);
    assert_eq!(plan_fallback("minimax", "deepseek"), FallbackPlan::Try(Provider::DeepSeek));
    assert_eq!(plan_fallback("minimax", "gemini"), FallbackPlan::Try(Provider::Gemini));
    assert_eq!(plan_fallback("minimax", "llama"), FallbackPlan::Unknown);
    assert_eq!(plan_fallback("deepseek", "minimax"), FallbackPlan::Try(Provider::MiniMax));
    assert_eq!(plan_fallback("gemini", "minimax"), FallbackPlan::Try(Provider::MiniMax));
    assert_eq!(plan_fallback("minimax", "minimax"), FallbackPlan::GiveUp);

    match after_primary("deepseek", "minimax", Err(AppError::AiApi("down".to_string()))) {
        RouterStep::Call(p) => assert_eq!(p, Provider::MiniMax),
        other => panic!("unexpected step {:?}", other),
    }

    match after_primary("minimax", "gemini", Err(AppError::AiApi("down".to_string()))) {
        RouterStep::Call(p) => assert_eq!(p, Provider::Gemini),
        other => panic!("unexpected step {:?}", other),
    }
    match after_primary("minimax", "llama", Err(AppError::AiApi("down".to_string()))) {
        RouterStep::Fail(e) => assert_eq!(e, AppError::AiApi("Unknown fallback model configured: llama".to_string())),
        other => panic!("unexpected step {:?}", other),
    }
    match after_primary("minimax", "gemini", Ok(("hi".to_string(), Some("👍".to_string())))) {
        RouterStep::Reply(t, r) => {
            assert_eq!(t, "hi");
            assert_eq!(r, Some("👍".to_string()));
        }
        other => panic!("unexpected step {:?}", other),
    }
    match after_fallback(Err(AppError::Http("x".to_string()))) {
        RouterStep::Fail(e) => assert_eq!(e, AppError::Http("x".to_string())),
        other => panic!("unexpected step {:?}", other),
    }
}

#[test]
fn test_gemini_reply_marker() {
    assert_eq!(gemini_reply("Готово [REACTION: ✅]".to_string()), ("Готово".to_string(), Some("✅".to_string())));
    assert_eq!(gemini_reply("  as is  ".to_string()), ("  as is  ".to_string(), None));
}

#[test]
fn test_deepseek_routes() {
    let rows = vec![
        row("DEEPSEEK_API_KEY", "db-ds"),
        row("OPENROUTER_API_KEY", "db-or"),
        row("DEEPSEEK_API_KEY", "   "),
    ];
    let (ds, or) = keys_from_settings(&rows);
    assert_eq!(ds, Some("db-ds".to_string()));
    assert_eq!(or, Some("db-or".to_string()));

    let route = select_route(ds, or.clone(), Some("env-ds".to_string()), None).unwrap();
    assert_eq!(route, DeepSeekRoute::Direct("db-ds".to_string()));
    assert_eq!(route.url(), "https://api.deepseek.com/v1/chat/completions");
    assert_eq!(route.model(), "deepseek-chat");
    assert!(!route.is_openrouter());

    let route = select_route(None, or, None, Some("env-or".to_string())).unwrap();
    assert_eq!(route, DeepSeekRoute::OpenRouter("db-or".to_string()));
    assert_eq!(route.key(), "db-or");
    assert_eq!(route.model(), "deepseek/deepseek-chat");
    assert!(route.is_openrouter());

    let route = select_route(None, None, Some("env-ds".to_string()), Some("env-or".to_string())).unwrap();
    assert_eq!(route, DeepSeekRoute::Direct("env-ds".to_string()));
    assert_eq!(
        select_route(None, None, None, None),
        Err(AppError::AiApi(
            "No DeepSeek API key or OpenRouter API key is configured in settings or environment.".to_string()
        ))
    );
}

#[test]
fn test_minimax_key_and_url() {
    assert!(check_key("real-key").is_ok());
    let msg = "MiniMax API key is not configured in settings or environment. Please go to web settings to configure it.";
    assert_eq!(check_key("  "), Err(AppError::AiApi(msg.to_string())));
    assert_eq!(check_key("minimax_dummy_key"), Err(AppError::AiApi(msg.to_string())));
    assert_eq!(completions_url("g1"), "https://api.minimax.io/v1/chat/completions?GroupId=g1");
    assert_eq!(DEFAULT_MINIMAX_MODEL, "abab6.5g-chat");
}
