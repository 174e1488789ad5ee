use telegram_bot_seller::ai::dialog::{
    trim_history, ChatHistories, ChatMessage, CompletionChoice, CompletionResponse, DialogTurn, FunctionCall, ToolCall,
    MAX_ROUNDS, SYSTEM_PROMPT,
};
use telegram_bot_seller::ai::reaction::{extract_reaction, parse_reaction_marker};
use telegram_bot_seller::ai::schema::{status_choices, tool_definitions, ParamType};
use telegram_bot_seller::ai::tools::{resolve_tool, ToolName};
use telegram_bot_seller::error::AppError;

#[test]
fn test_minimax_reaction_tag_parsing() {
    // 1. Text with reaction tag
    let raw_text = "Конечно, ваш заказ оформлен! Ожидайте доставку.\n[REACTION: 👍]";
    let parsed = parse_reaction_marker(raw_text);
    assert_eq!(parsed.0, "Конечно, ваш заказ оформлен! Ожидайте доставку.");
    assert_eq!(parsed.1, Some("👍".to_string()));

    // 2. Text without reaction tag
    let raw_text_none = "Конечно, ваш заказ оформлен!";
    let parsed_none = parse_reaction_marker(raw_text_none);
    assert_eq!(parsed_none.0, "Конечно, ваш заказ оформлен!");
    assert_eq!(parsed_none.1, None);
}

#[test]
fn test_reaction_marker_in_the_middle() {
    let (text, emoji) = parse_reaction_marker("  Спасибо [REACTION:  🔥 ] за заказ!  ");
    assert_eq!(text, "Спасибо  за заказ!");
    assert_eq!(emoji, Some("🔥".to_string()));
}

#[test]
fn test_reaction_marker_without_closing_bracket() {
    let (text, emoji) = parse_reaction_marker("  Привет [REACTION: 👍  ");
    assert_eq!(text, "Привет [REACTION: 👍");
    assert_eq!(emoji, None);
    assert_eq!(extract_reaction("Привет [REACTION: 👍"), None);
}

#[test]
fn test_reaction_marker_first_marker_wins() {
    let (text, emoji) = parse_reaction_marker("A [REACTION: 1] B [REACTION: 2]");
    assert_eq!(text, "A  B [REACTION: 2]");
    assert_eq!(emoji, Some("1".to_string()));
}

#[test]
fn test_reaction_marker_plain_text_is_trimmed() {
    let (text, emoji) = parse_reaction_marker("\n  ok \t");
    assert_eq!(text, "ok");
    assert_eq!(emoji, None);
}

#[test]
fn test_tools_schema_generation() {
    let schema = tool_definitions();
    assert_eq!(schema.len(), 10);
    let has_get_catalog = schema.iter().any(|t| t.tool.as_str() == "get_catalog");
    assert!(has_get_catalog);
}

#[test]
fn test_tools_schema_details() {
    let schema = tool_definitions();
    let names: Vec<&str> = schema.iter().map(|t| t.tool.as_str()).collect();
    assert_eq!(
        names,
        vec![
            "get_contacts",
            "update_contacts",
            "get_catalog",
            "update_catalog",
            "insert_order",
            "insert_order_items",
            "get_orders",
            "get_order_items",
            "update_order",
            "update_order_items"
        ]
    );
    let get_contacts = &schema[0];
    assert_eq!(get_contacts.required, vec!["chat_id"]);
    assert_eq!(get_contacts.params[0].name, "chat_id");
    assert_eq!(get_contacts.params[0].param_type, ParamType::Integer);
    assert_eq!(get_contacts.params[0].description, Some("The Telegram chat ID of the user."));
    let insert_order = &schema[4];
    assert!(insert_order.params.iter().any(|p| p.name == "status" && p.param_type == ParamType::StatusChoice));
    assert!(schema[2].params.is_empty());
    for t in schema.iter() {
        for r in t.required.iter() {
            assert!(t.params.iter().any(|p| p.name == *r));
        }
    }
    assert_eq!(status_choices(), vec!["pending", "paid", "shipped", "cancelled"]);
}

#[test]
fn test_tool_names_round_trip() {
    for t in tool_definitions().iter() {
        assert_eq!(ToolName::parse(t.tool.as_str()), Some(t.tool));
        assert_eq!(resolve_tool(t.tool.as_str()), Ok(t.tool));
    }
    assert_eq!(ToolName::parse("calculator"), None);
    assert_eq!(resolve_tool("calculator"), Err(AppError::UnknownTool("calculator".to_string())));
}

fn text_message(role: &str, content: &str) -> ChatMessage {
    ChatMessage {
        role: role.to_string(),
        content: Some(content.to_string()),
        tool_calls: None,
        tool_call_id: None,
        name: None,
    }
}

#[test]
fn test_dialog_turn_with_tool_call() {
    let mut turn = DialogTurn::start(None, "Какие духи есть?");
    assert_eq!(turn.history.len(), 2);
    assert_eq!(turn.history[0].role, "system");
    assert_eq!(turn.history[0].content.as_deref(), Some(SYSTEM_PROMPT));
    assert_eq!(turn.history[1].role, "user");
    assert_eq!(turn.history[1].content.as_deref(), Some("Какие духи есть?"));

    assert!(turn.begin_round().is_ok());
    let call = ToolCall {
        id: "call_1".to_string(),
        call_type: "function".to_string(),
        function: FunctionCall { name: "get_catalog".to_string(), arguments: "{}".to_string() },
    };
    let reply = CompletionResponse {
        choices: Some(vec![CompletionChoice {
            message: Some(ChatMessage {
                role: "assistant".to_string(),
                content: None,
                tool_calls: Some(vec![call]),
                tool_call_id: None,
                name: None,
            }),
            finish_reason: Some("tool_calls".to_string()),
        }]),
    };
    assert_eq!(turn.on_response("MiniMax", reply), Ok(true));
    let calls = turn.pending_calls();
    assert_eq!(calls.len(), 1);
    assert_eq!(calls[0].function.name, "get_catalog");
    turn.on_tool_result(&calls[0], "[]".to_string());
    let last = &turn.history[turn.history.len() - 1];
    assert_eq!(last.role, "tool");
    assert_eq!(last.tool_call_id.as_deref(), Some("call_1"));
    assert_eq!(last.name.as_deref(), Some("get_catalog"));
    assert_eq!(last.content.as_deref(), Some("[]"));

    assert!(turn.begin_round().is_ok());
    let answer = CompletionResponse {
        choices: Some(vec![CompletionChoice {
            message: Some(text_message("assistant", "Сейчас в наличии три аромата. [REACTION: 😊]")),
            finish_reason: Some("stop".to_string()),
        }]),
    };
    assert_eq!(turn.on_response("MiniMax", answer), Ok(false));
    let outcome = turn.finish();
    assert_eq!(outcome.reply, "Сейчас в наличии три аромата.");
    assert_eq!(outcome.reaction, Some("😊".to_string()));
    assert_eq!(outcome.history.len(), 5);
}

#[test]
fn test_dialog_turn_errors() {
    let mut turn = DialogTurn::start(Some(vec![text_message("system", "s")]), "hi");
    assert_eq!(turn.history.len(), 2);
    assert_eq!(
        turn.on_response("DeepSeek", CompletionResponse { choices: None }),
        Err(AppError::AiApi("DeepSeek API choices structure was empty".to_string()))
    );
    assert_eq!(
        turn.on_response("DeepSeek", CompletionResponse { choices: Some(Vec::new()) }),
        Err(AppError::AiApi("DeepSeek API choices structure was empty".to_string()))
    );
    assert_eq!(
        turn.on_response(
            "MiniMax",
            CompletionResponse {
                choices: Some(vec![CompletionChoice { message: None, finish_reason: None }])
            }
        ),
        Err(AppError::AiApi("MiniMax API response message was empty".to_string()))
    );
    for _ in 0..MAX_ROUNDS {
        assert!(turn.begin_round().is_ok());
    }
    assert_eq!(turn.begin_round(), Err(AppError::AiApi("Too many sequential tool calls".to_string())));
    assert_eq!(turn.rounds, MAX_ROUNDS);
}

#[test]
fn test_trim_history_keeps_first_and_latest() {
    let short: Vec<u32> = (0..21).collect();
    assert_eq!(trim_history(short.clone()), short);
    let long: Vec<u32> = (0..30).collect();
    let kept = trim_history(long);
    assert_eq!(kept.len(), 21);
    assert_eq!(kept[0], 0);
    assert_eq!(kept[1], 10);
    assert_eq!(kept[20], 29);
}

#[test]
fn test_reaction_marker_round_trip() {
    let text = "  Заказ оформлен, спасибо!  ";
    let marked = format!("{}\n[REACTION: {}]", text, " ❤️ ");
    let (cleaned, emoji) = parse_reaction_marker(&marked);
    assert_eq!(cleaned, "Заказ оформлен, спасибо!");
    assert_eq!(emoji, Some("❤️".to_string()));
}

fn answer(text: &str) -> CompletionResponse {
    CompletionResponse {
        choices: Some(vec![CompletionChoice {
            message: Some(text_message("assistant", text)),
            finish_reason: Some("stop".to_string()),
        }]),
    }
}

#[test]
fn test_chat_histories_keep_each_chat() {
    let mut histories = ChatHistories::new();
    assert!(histories.history(7).is_none());

    // Twelve turns of one chat: each adds a user and an assistant message.
    for n in 0..12 {
        let mut turn = histories.start_turn(7, &format!("question {n}"));
        assert_eq!(turn.history[0].content.as_deref(), Some(SYSTEM_PROMPT));
        assert!(turn.begin_round().is_ok());
        assert_eq!(turn.on_response("DeepSeek", answer(&format!("answer {n} [REACTION: 👌]"))), Ok(false));
        assert!(turn.opens_with_instructions());
        let (reply, reaction) = histories.finish_turn(7, turn).unwrap();
        assert_eq!(reply, format!("answer {n}"));
        assert_eq!(reaction, Some("👌".to_string()));
    }
    let kept = histories.history(7).unwrap();
    assert_eq!(kept.len(), 21);
    assert_eq!(kept[0].role, "system");
    assert_eq!(kept[0].content.as_deref(), Some(SYSTEM_PROMPT));
    assert_eq!(kept[20].content.as_deref(), Some("answer 11 [REACTION: 👌]"));
    assert_eq!(kept[1].content.as_deref(), Some("question 2"));

    // Another chat starts afresh and leaves the first one as it was.
    let mut turn = histories.start_turn(8, "hello");
    assert_eq!(turn.history.len(), 2);
    assert!(turn.begin_round().is_ok());
    assert_eq!(turn.on_response("DeepSeek", answer("hi")), Ok(false));
    assert_eq!(histories.finish_turn(8, turn), Ok(("hi".to_string(), None)));
    assert_eq!(histories.history(8).unwrap().len(), 3);
    assert_eq!(histories.history(7).unwrap().len(), 21);
}

#[test]
fn test_chat_histories_empty_turn_is_refused() {
    let mut histories = ChatHistories::new();
    let turn = DialogTurn { history: Vec::new(), rounds: 0 };
    assert!(turn.opens_with_instructions());
    assert_eq!(
        histories.finish_turn(3, turn),
        Err(AppError::AiApi("Dialog history trace is unexpectedly empty".to_string()))
    );
    assert!(histories.history(3).is_none());

    let stray = DialogTurn::start(Some(vec![text_message("user", "no instructions")]), "hi");
    assert!(!stray.opens_with_instructions());
}
