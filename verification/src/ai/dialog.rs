//! One dialogue turn with a chat-completions model that may call tools: the messages
//! exchanged, the decisions taken after each reply, and the history kept between turns.
//!
//! The requests themselves are sent by the caller, which drives a [`DialogTurn`]:
//! `begin_round` before each request, `on_response` with each reply, `on_tool_result`
//! for each tool the reply asks for, and `finish` once a reply asks for none.

use std::collections::HashMap;
use vstd::prelude::*;
use crate::ai::reaction::{parse_reaction_marker, reaction_parts};
use crate::error::AppError;
use crate::text::{same_text, trim};

verus! {

broadcast use vstd::std_specs::hash::group_hash_axioms;

/// The instructions the sales assistant starts every conversation with.
pub const SYSTEM_PROMPT: &'static str = "\
Вы — опытный и вежливый персональный ассистент и продавец парфюмерии в Telegram. Ваша цель — помочь клиенту выбрать парфюм из каталога, оформить заказ, собрать контактные данные (имя, телефон, адрес доставки) и подтвердить оплату.
У вас есть доступ к локальной базе данных через инструменты (tools). Всегда используйте их для получения актуального каталога, проверки остатков на складе, сохранения контактов и создания заказов.

Правила работы:
1. Валидация числовых кодов (Правило 2 цифр): Если клиент присылает числовой код подтверждения (для скидки, оплаты или верификации), вы должны убедиться, что код состоит ровно из 2 цифр (двузначное число). Если код неверный или содержит другое количество цифр, вежливо укажите на ошибку и попросите прислать корректный двухзначный код.
2. Реакции (Лайки): Когда клиент совершает позитивное или успешное действие (подтверждает контакты, делает заказ, успешно оплачивает товар или оставляет приятный отзыв), вы можете поставить реакцию на его сообщение. Для этого добавьте в самом конце вашего ответа (на отдельной строке) маркер вида:
[REACTION: 👍]
Вы можете использовать другие подходящие эмодзи, например: ❤️, 🔥, 👌. Наш бот автоматически считает этот маркер и отправит реакцию пользователю.
3. Общение: Общайтесь на русском языке, вежливо и дружелюбно. Будьте лаконичны и профессиональны.";

/// How many requests one turn may make before giving up.
pub const MAX_ROUNDS: u32 = 6;

/// How many of the latest messages are kept between turns, besides the first one.
pub const MAX_HISTORY_TURNS: usize = 20;

/// The function a tool call asks for, with its arguments as JSON text.
#[derive(Debug)]
pub struct FunctionCall {
    pub name: String,
    pub arguments: String,
}

/// A tool call in an assistant message.
#[derive(Debug)]
pub struct ToolCall {
    pub id: String,
    /// The kind of call; always `function`.
    pub call_type: String,
    pub function: FunctionCall,
}

/// A message of the conversation.
#[derive(Debug)]
pub struct ChatMessage {
    pub role: String,
    pub content: Option<String>,
    pub tool_calls: Option<Vec<ToolCall>>,
    pub tool_call_id: Option<String>,
    pub name: Option<String>,
}

/// A reply of the model.
#[derive(Debug)]
pub struct CompletionResponse {
    pub choices: Option<Vec<CompletionChoice>>,
}

/// One choice of a reply.
#[derive(Debug)]
pub struct CompletionChoice {
    pub message: Option<ChatMessage>,
    pub finish_reason: Option<String>,
}

fn clone_text(o: &Option<String>) -> (r: Option<String>)
    ensures
        r == *o,
{
    match o {
        Some(s) => Some(s.clone()),
        None => None,
    }
}

impl Clone for FunctionCall {
    fn clone(&self) -> (r: Self)
        ensures
            r == *self,
    {
        FunctionCall { name: self.name.clone(), arguments: self.arguments.clone() }
    }
}

impl Clone for ToolCall {
    fn clone(&self) -> (r: Self)
        ensures
            r == *self,
    {
        ToolCall { id: self.id.clone(), call_type: self.call_type.clone(), function: self.function.clone() }
    }
}

/// Two messages say the same: same role, content, calls, call id and name.
pub open spec fn same_message(a: ChatMessage, b: ChatMessage) -> bool {
    &&& a.role == b.role
    &&& a.content == b.content
    &&& requested_calls(a) == requested_calls(b)
    &&& (a.tool_calls is Some <==> b.tool_calls is Some)
    &&& a.tool_call_id == b.tool_call_id
    &&& a.name == b.name
}

impl Clone for ChatMessage {
    fn clone(&self) -> (r: Self)
        ensures
            same_message(r, *self),
    {
        let tool_calls = match &self.tool_calls {
            Some(calls) => {
                let c = calls.clone();
                assert(c@ =~= calls@);
                Some(c)
            },
            None => None,
        };
        ChatMessage {
            role: self.role.clone(),
            content: clone_text(&self.content),
            tool_calls,
            tool_call_id: clone_text(&self.tool_call_id),
            name: clone_text(&self.name),
        }
    }
}

/// `o` holds a text equal to `t`.
pub open spec fn text_is(o: Option<String>, t: Seq<char>) -> bool {
    o matches Some(s) && s@ == t
}

/// A plain message of `role` saying `content`.
pub open spec fn plain_message(m: ChatMessage, role: Seq<char>, content: Seq<char>) -> bool {
    &&& m.role@ == role
    &&& text_is(m.content, content)
    &&& m.tool_calls is None
    &&& m.tool_call_id is None
    &&& m.name is None
}

/// The message that reports the result of a tool call.
pub open spec fn tool_result_message(m: ChatMessage, call: ToolCall, result: Seq<char>) -> bool {
    &&& m.role@ == "tool"@
    &&& text_is(m.content, result)
    &&& m.tool_calls is None
    &&& text_is(m.tool_call_id, call.id@)
    &&& text_is(m.name, call.function.name@)
}

/// The tool calls a message asks for.
pub open spec fn requested_calls(m: ChatMessage) -> Seq<ToolCall> {
    match m.tool_calls {
        Some(calls) => calls@,
        None => Seq::empty(),
    }
}

/// The history kept between turns: the first message and the latest
/// `MAX_HISTORY_TURNS` after it, once the history grows longer than that.
pub open spec fn kept_history<T>(h: Seq<T>) -> Seq<T> {
    if h.len() > MAX_HISTORY_TURNS {
        seq![h[0]] + h.subrange(h.len() - MAX_HISTORY_TURNS, h.len() as int)
    } else {
        h
    }
}

/// Cuts a history down to what is kept between turns.
pub fn trim_history<T>(history: Vec<T>) -> (r: Vec<T>)
    ensures
        r@ == kept_history(history@),
{
    let mut history = history;
    let n = history.len();
    if n <= MAX_HISTORY_TURNS {
        return history;
    }
    let ghost h = history@;
    let mut latest = history.split_off(n - MAX_HISTORY_TURNS);
    let first = history.remove(0);
    latest.insert(0, first);
    assert(latest@ =~= kept_history(h));
    latest
}

/// Law: a kept history never holds more than one message beyond the limit, starts with
/// the message the history started with, and ends with the latest message.
pub proof fn law_kept_history_bounded<T>(h: Seq<T>)
    requires
        h.len() > 0,
    ensures
        kept_history(h).len() <= MAX_HISTORY_TURNS + 1,
        kept_history(h).len() <= h.len(),
        kept_history(h)[0] == h[0],
        kept_history(h).last() == h.last(),
{
}

/// The text the model ends a turn with: the content of the last message, or nothing.
pub open spec fn final_text(h: Seq<ChatMessage>) -> Seq<char> {
    match h.last().content {
        Some(c) => c@,
        None => Seq::empty(),
    }
}

/// The state of one dialogue turn.
pub struct DialogTurn {
    /// The conversation so far, this turn's messages included.
    pub history: Vec<ChatMessage>,
    /// How many requests the turn has made.
    pub rounds: u32,
}

/// What `finish` hands back: the reply, the reaction its marker asks for, and the history
/// to keep for the next turn.
pub struct TurnOutcome {
    pub reply: String,
    pub reaction: Option<String>,
    pub history: Vec<ChatMessage>,
}

fn text_message(role: &str, content: &str) -> (m: ChatMessage)
    ensures
        plain_message(m, role@, content@),
{
    ChatMessage {
        role: String::from_str(role),
        content: Some(String::from_str(content)),
        tool_calls: None,
        tool_call_id: None,
        name: None,
    }
}

impl DialogTurn {
    /// Starts a turn with the user's text, continuing the stored conversation, or a new
    /// one that opens with the assistant's instructions.
    pub fn start(stored: Option<Vec<ChatMessage>>, user_text: &str) -> (t: Self)
        ensures
            t.rounds == 0,
            t.history@.len() >= 1,
            plain_message(t.history@.last(), "user"@, user_text@),
            match stored {
                Some(h) => t.history@.drop_last() == h@,
                None => t.history@.len() == 2 && plain_message(t.history@[0], "system"@, SYSTEM_PROMPT@),
            },
    {
        let mut history = match stored {
            Some(h) => h,
            None => {
                let mut h: Vec<ChatMessage> = Vec::new();
                h.push(text_message("system", SYSTEM_PROMPT));
                h
            },
        };
        let ghost before = history@;
        history.push(text_message("user", user_text));
        assert(history@.drop_last() =~= before);
        DialogTurn { history, rounds: 0 }
    }

    /// Counts a new request; a turn that has already made `MAX_ROUNDS` requests gives up.
    pub fn begin_round(&mut self) -> (r: Result<(), AppError>)
        ensures
            final(self).history@ == old(self).history@,
            old(self).rounds < MAX_ROUNDS ==> r is Ok && final(self).rounds == old(self).rounds + 1,
            old(self).rounds >= MAX_ROUNDS ==> (r matches Err(AppError::AiApi(m)) && m@
                == "Too many sequential tool calls"@ && final(self).rounds == old(self).rounds),
    {
        if self.rounds >= MAX_ROUNDS {
            return Err(AppError::AiApi(String::from_str("Too many sequential tool calls")));
        }
        self.rounds = self.rounds + 1;
        Ok(())
    }

    /// Takes a reply of the model (`provider` names the model in error messages): its
    /// first choice's message joins the history. Answers whether that message asks for
    /// tools; a reply with no choice, or whose first choice has no message, is an error.
    pub fn on_response(&mut self, provider: &str, response: CompletionResponse) -> (r: Result<bool, AppError>)
        ensures
            final(self).rounds == old(self).rounds,
            match response.choices {
                Some(cs) if cs@.len() > 0 => match cs@[0].message {
                    Some(m) => r == Ok::<bool, AppError>(requested_calls(m).len() > 0)
                        && final(self).history@ == old(self).history@.push(m),
                    None => r matches Err(AppError::AiApi(e)) && e@ == provider@
                        + " API response message was empty"@ && final(self).history@ == old(self).history@,
                },
                _ => r matches Err(AppError::AiApi(e)) && e@ == provider@ + " API choices structure was empty"@
                    && final(self).history@ == old(self).history@,
            },
    {
        let mut choices = match response.choices {
            Some(cs) => cs,
            None => {
                let mut e = String::from_str(provider);
                e.append(" API choices structure was empty");
                return Err(AppError::AiApi(e));
            },
        };
        if choices.len() == 0 {
            let mut e = String::from_str(provider);
            e.append(" API choices structure was empty");
            return Err(AppError::AiApi(e));
        }
        let first = choices.remove(0);
        match first.message {
            None => {
                let mut e = String::from_str(provider);
                e.append(" API response message was empty");
                Err(AppError::AiApi(e))
            },
            Some(m) => {
                let asks = match &m.tool_calls {
                    Some(calls) => calls.len() > 0,
                    None => false,
                };
                self.history.push(m);
                Ok(asks)
            },
        }
    }

    /// The tool calls the latest message asks for.
    pub fn pending_calls(&self) -> (r: Vec<ToolCall>)
        requires
            self.history@.len() > 0,
        ensures
            r@ == requested_calls(self.history@.last()),
    {
        let last = &self.history[self.history.len() - 1];
        match &last.tool_calls {
            Some(calls) => {
                let c = calls.clone();
                assert(c@ =~= calls@);
                c
            },
            None => Vec::new(),
        }
    }

    /// Reports the result of a tool call to the model.
    pub fn on_tool_result(&mut self, call: &ToolCall, result: String)
        ensures
            final(self).rounds == old(self).rounds,
            final(self).history@.len() == old(self).history@.len() + 1,
            final(self).history@.drop_last() == old(self).history@,
            tool_result_message(final(self).history@.last(), *call, result@),
    {
        let ghost before = self.history@;
        self.history.push(
            ChatMessage {
                role: String::from_str("tool"),
                content: Some(result),
                tool_calls: None,
                tool_call_id: Some(call.id.clone()),
                name: Some(call.function.name.clone()),
            },
        );
        assert(self.history@.drop_last() =~= before);
    }

    /// Tests whether the turn's conversation is empty or opens with the assistant's
    /// instructions, as every turn started from kept conversations does.
    pub fn opens_with_instructions(&self) -> (r: bool)
        ensures
            r == (self.history@.len() > 0 ==> plain_message(self.history@[0], "system"@, SYSTEM_PROMPT@)),
    {
        if self.history.len() == 0 {
            return true;
        }
        let first = &self.history[0];
        let content_is_prompt = match &first.content {
            Some(c) => same_text(c.as_str(), SYSTEM_PROMPT),
            None => false,
        };
        same_text(first.role.as_str(), "system") && content_is_prompt && first.tool_calls.is_none()
            && first.tool_call_id.is_none() && first.name.is_none()
    }

    /// Ends the turn: the reply is the last message's text with its reaction marker taken
    /// out, and the history is cut down to what is kept.
    pub fn finish(self) -> (r: TurnOutcome)
        requires
            self.history@.len() > 0,
        ensures
            r.history@ == kept_history(self.history@),
            match reaction_parts(final_text(self.history@)) {
                Some((cleaned, emoji)) => r.reply@ == cleaned && r.reaction is Some && r.reaction->0@ == emoji,
                None => r.reply@ == trim(final_text(self.history@)) && r.reaction is None,
            },
    {
        let last = &self.history[self.history.len() - 1];
        let raw = match &last.content {
            Some(c) => c.clone(),
            None => String::new(),
        };
        assert(raw@ == final_text(self.history@));
        let (reply, reaction) = parse_reaction_marker(raw.as_str());
        let history = trim_history(self.history);
        TurnOutcome { reply, reaction, history }
    }
}

/// A conversation as it is kept between turns: it opens with the assistant's
/// instructions and holds at most `MAX_HISTORY_TURNS + 1` messages.
pub open spec fn well_kept(h: Seq<ChatMessage>) -> bool {
    &&& 1 <= h.len() <= MAX_HISTORY_TURNS + 1
    &&& plain_message(h[0], "system"@, SYSTEM_PROMPT@)
}

/// Every conversation of `m` is as it is kept between turns.
pub open spec fn all_well_kept(m: Map<i64, Seq<ChatMessage>>) -> bool {
    forall|c: i64| #[trigger] m.contains_key(c) ==> well_kept(m[c])
}

/// A copy of a conversation, message by message.
fn copy_history(h: &Vec<ChatMessage>) -> (r: Vec<ChatMessage>)
    ensures
        r@.len() == h@.len(),
        forall|i: int| 0 <= i < h@.len() ==> same_message(#[trigger] r@[i], h@[i]),
{
    let mut r: Vec<ChatMessage> = Vec::new();
    let mut i: usize = 0;
    while i < h.len()
        invariant
            i <= h@.len(),
            r@.len() == i,
            forall|j: int| 0 <= j < i ==> same_message(#[trigger] r@[j], h@[j]),
        decreases h@.len() - i,
    {
        r.push(h[i].clone());
        i += 1;
    }
    r
}

/// The conversation of each chat, kept from one turn to the next.
pub struct ChatHistories {
    chats: HashMap<i64, Vec<ChatMessage>>,
}

impl ChatHistories {
    /// The conversation kept for each chat.
    pub closed spec fn kept(&self) -> Map<i64, Seq<ChatMessage>> {
        Map::new(|c: i64| self.chats@.contains_key(c), |c: i64| self.chats@[c]@)
    }

    #[verifier::type_invariant]
    closed spec fn inv(&self) -> bool {
        forall|c: i64| #[trigger] self.chats@.contains_key(c) ==> well_kept(self.chats@[c]@)
    }

    /// No conversation kept yet.
    pub fn new() -> (r: Self)
        ensures
            r.kept() == Map::<i64, Seq<ChatMessage>>::empty(),
            all_well_kept(r.kept()),
    {
        let r = ChatHistories { chats: HashMap::new() };
        assert(r.kept() =~= Map::<i64, Seq<ChatMessage>>::empty());
        r
    }

    /// A copy of the conversation kept for `chat_id`, if any.
    pub fn history(&self, chat_id: i64) -> (r: Option<Vec<ChatMessage>>)
        ensures
            all_well_kept(self.kept()),
            r is Some <==> self.kept().contains_key(chat_id),
            r matches Some(h) ==> h@.len() == self.kept()[chat_id].len() && forall|i: int|
                0 <= i < h@.len() ==> same_message(#[trigger] h@[i], self.kept()[chat_id][i]),
    {
        proof {
            use_type_invariant(self);
        }
        match self.chats.get(&chat_id) {
            Some(h) => Some(copy_history(h)),
            None => None,
        }
    }

    /// Starts a turn of `chat_id` with the user's text, continuing the conversation kept
    /// for the chat, or a new one that opens with the assistant's instructions.
    pub fn start_turn(&self, chat_id: i64, user_text: &str) -> (t: DialogTurn)
        ensures
            t.rounds == 0,
            t.history@.len() >= 2,
            plain_message(t.history@[0], "system"@, SYSTEM_PROMPT@),
            plain_message(t.history@.last(), "user"@, user_text@),
            self.kept().contains_key(chat_id) ==> t.history@.len() == self.kept()[chat_id].len() + 1
                && forall|i: int|
                0 <= i < self.kept()[chat_id].len() ==> same_message(
                    #[trigger] t.history@[i],
                    self.kept()[chat_id][i],
                ),
            !self.kept().contains_key(chat_id) ==> t.history@.len() == 2,
    {
        proof {
            use_type_invariant(self);
        }
        let stored = self.history(chat_id);
        let ghost s = stored;
        let t = DialogTurn::start(stored, user_text);
        proof {
            if self.kept().contains_key(chat_id) {
                let h = s->0@;
                assert(t.history@[0] == h[0]);
                assert(same_message(h[0], self.kept()[chat_id][0]));
                assert forall|i: int| 0 <= i < self.kept()[chat_id].len() implies same_message(
                    #[trigger] t.history@[i],
                    self.kept()[chat_id][i],
                ) by {
                    assert(t.history@[i] == t.history@.drop_last()[i]);
                }
            }
        }
        t
    }

    /// Ends a turn of `chat_id`: keeps its conversation, cut down to what is kept, as the
    /// chat's, and hands back the reply and the reaction its marker asks for. A turn with
    /// no message at all is an error, and nothing is kept then.
    pub fn finish_turn(&mut self, chat_id: i64, turn: DialogTurn) -> (r: Result<(String, Option<String>), AppError>)
        requires
            turn.history@.len() > 0 ==> plain_message(turn.history@[0], "system"@, SYSTEM_PROMPT@),
        ensures
            turn.history@.len() == 0 ==> (r matches Err(AppError::AiApi(m)) && m@
                == "Dialog history trace is unexpectedly empty"@ && final(self).kept() == old(self).kept()),
            all_well_kept(final(self).kept()),
            turn.history@.len() > 0 ==> {
                &&& final(self).kept() == old(self).kept().insert(chat_id, kept_history(turn.history@))
                &&& final(self).kept()[chat_id].last() == turn.history@.last()
                &&& r matches Ok((reply, reaction)) && match reaction_parts(final_text(turn.history@)) {
                    Some((cleaned, emoji)) => reply@ == cleaned && reaction is Some && reaction->0@ == emoji,
                    None => reply@ == trim(final_text(turn.history@)) && reaction is None,
                }
            },
    {
        proof {
            use_type_invariant(&*self);
        }
        if turn.history.len() == 0 {
            return Err(AppError::AiApi(String::from_str("Dialog history trace is unexpectedly empty")));
        }
        let ghost h = turn.history@;
        let outcome = turn.finish();
        proof {
            law_kept_history_bounded(h);
        }
        let ghost k0 = self.kept();
        let mut chats: HashMap<i64, Vec<ChatMessage>> = HashMap::new();
        std::mem::swap(&mut chats, &mut self.chats);
        chats.insert(chat_id, outcome.history);
        assert(Map::new(|c: i64| chats@.contains_key(c), |c: i64| chats@[c]@) =~= k0.insert(chat_id, kept_history(h)));
        self.chats = chats;
        Ok((outcome.reply, outcome.reaction))
    }
}

/// The MiniMax key is usable: set, not blank, and not the placeholder.
pub open spec fn minimax_key_usable(key: Seq<char>) -> bool {
    trim(key).len() != 0 && key != "minimax_dummy_key"@
}

} // verus!
