//! Which model answers a dialogue turn, and what happens when it fails: the primary
//! model named in the settings is tried first, then the fallback model, unless the
//! fallback is disabled or the same as the primary.

use vstd::prelude::*;
use crate::ai::reaction::{extract_reaction, reaction_parts};
use crate::error::AppError;
use crate::text::same_text;

verus! {

/// A model provider the bot can hold a dialogue with.
#[derive(Debug, Clone, Copy, PartialEq, Eq, Structural)]
pub enum Provider {
    MiniMax,
    DeepSeek,
    Gemini,
}

/// The primary model used when the settings name none.
pub open spec fn default_primary() -> Seq<char> {
    "minimax"@
}

/// The fallback model used when the settings name none.
pub open spec fn default_fallback() -> Seq<char> {
    "deepseek"@
}

/// The provider a primary model name selects: `deepseek` and `gemini` by name, MiniMax
/// for anything else.
pub open spec fn primary_provider(name: Seq<char>) -> Provider {
    if name == "deepseek"@ {
        Provider::DeepSeek
    } else if name == "gemini"@ {
        Provider::Gemini
    } else {
        Provider::MiniMax
    }
}

/// What to do when the primary model failed.
#[derive(Debug, Clone, Copy, PartialEq, Eq, Structural)]
pub enum FallbackPlan {
    /// Report the primary model's error.
    GiveUp,
    /// Try this provider.
    Try(Provider),
    /// The fallback names no known model.
    Unknown,
}

/// The plan for a failed primary: none when the fallback is `none` or the primary
/// itself, `deepseek`, `gemini` or `minimax` by name, and an error for any other name.
pub open spec fn fallback_plan(primary: Seq<char>, fallback: Seq<char>) -> FallbackPlan {
    if fallback == "none"@ || fallback == primary {
        FallbackPlan::GiveUp
    } else if fallback == "deepseek"@ {
        FallbackPlan::Try(Provider::DeepSeek)
    } else if fallback == "gemini"@ {
        FallbackPlan::Try(Provider::Gemini)
    } else if fallback == "minimax"@ {
        FallbackPlan::Try(Provider::MiniMax)
    } else {
        FallbackPlan::Unknown
    }
}

/// The primary and fallback model names: those the settings hold, else the defaults.
pub fn model_names(primary: Option<String>, fallback: Option<String>) -> (r: (String, String))
    ensures
        r.0@ == (match primary {
            Some(p) => p@,
            None => default_primary(),
        }),
        r.1@ == (match fallback {
            Some(f) => f@,
            None => default_fallback(),
        }),
{
    let p = match primary {
        Some(p) => p,
        None => String::from_str("minimax"),
    };
    let f = match fallback {
        Some(f) => f,
        None => String::from_str("deepseek"),
    };
    (p, f)
}

/// The provider a primary model name selects.
pub fn select_primary(name: &str) -> (r: Provider)
    ensures
        r == primary_provider(name@),
{
    if same_text(name, "deepseek") {
        Provider::DeepSeek
    } else if same_text(name, "gemini") {
        Provider::Gemini
    } else {
        Provider::MiniMax
    }
}

/// The plan for a failed primary model.
pub fn plan_fallback(primary: &str, fallback: &str) -> (r: FallbackPlan)
    ensures
        r == fallback_plan(primary@, fallback@),
{
    if same_text(fallback, "none") || same_text(fallback, primary) {
        FallbackPlan::GiveUp
    } else if same_text(fallback, "deepseek") {
        FallbackPlan::Try(Provider::DeepSeek)
    } else if same_text(fallback, "gemini") {
        FallbackPlan::Try(Provider::Gemini)
    } else if same_text(fallback, "minimax") {
        FallbackPlan::Try(Provider::MiniMax)
    } else {
        FallbackPlan::Unknown
    }
}

/// The message an unknown fallback name is reported with.
pub open spec fn unknown_fallback_message(fallback: Seq<char>) -> Seq<char> {
    "Unknown fallback model configured: "@ + fallback
}

/// The error an unknown fallback name is reported with.
pub fn unknown_fallback_error(fallback: &str) -> (r: AppError)
    ensures
        r matches AppError::AiApi(m) && m@ == unknown_fallback_message(fallback@),
{
    let mut m = String::from_str("Unknown fallback model configured: ");
    m.append(fallback);
    AppError::AiApi(m)
}

/// What the router does next.
#[derive(Debug)]
pub enum RouterStep {
    /// Hold the dialogue with this provider.
    Call(Provider),
    /// The turn is over with this reply and reaction.
    Reply(String, Option<String>),
    /// The turn failed.
    Fail(AppError),
}

/// The step after the primary model answered: its reply stands; its failure leads to the
/// fallback plan.
pub fn after_primary(
    primary: &str,
    fallback: &str,
    outcome: Result<(String, Option<String>), AppError>,
) -> (r: RouterStep)
    ensures
        match outcome {
            Ok((text, reaction)) => r matches RouterStep::Reply(t, e) && t == text && e == reaction,
            Err(err) => match fallback_plan(primary@, fallback@) {
                FallbackPlan::GiveUp => r matches RouterStep::Fail(e) && e == err,
                FallbackPlan::Try(p) => r matches RouterStep::Call(q) && q == p,
                FallbackPlan::Unknown => r matches RouterStep::Fail(AppError::AiApi(m)) && m@
                    == unknown_fallback_message(fallback@),
            },
        },
{
    match outcome {
        Ok((text, reaction)) => RouterStep::Reply(text, reaction),
        Err(err) => match plan_fallback(primary, fallback) {
            FallbackPlan::GiveUp => RouterStep::Fail(err),
            FallbackPlan::Try(p) => RouterStep::Call(p),
            FallbackPlan::Unknown => RouterStep::Fail(unknown_fallback_error(fallback)),
        },
    }
}

/// The step after the fallback model answered: its reply or its error ends the turn.
pub fn after_fallback(outcome: Result<(String, Option<String>), AppError>) -> (r: RouterStep)
    ensures
        match outcome {
            Ok((text, reaction)) => r matches RouterStep::Reply(t, e) && t == text && e == reaction,
            Err(err) => r matches RouterStep::Fail(e) && e == err,
        },
{
    match outcome {
        Ok((text, reaction)) => RouterStep::Reply(text, reaction),
        Err(err) => RouterStep::Fail(err),
    }
}

/// A Gemini reply as a dialogue result: a reply carrying a reaction marker loses the
/// marker and is trimmed; any other reply stands as it is.
pub fn gemini_reply(text: String) -> (r: (String, Option<String>))
    ensures
        match reaction_parts(text@) {
            Some((cleaned, emoji)) => r.0@ == cleaned && r.1 is Some && r.1->0@ == emoji,
            None => r.0 == text && r.1 is None,
        },
{
    match extract_reaction(text.as_str()) {
        Some((cleaned, emoji)) => (cleaned, Some(emoji)),
        None => (text, None),
    }
}

/// Law: failing over always hands the turn to a model other than the primary, by name,
/// and to the provider that name selects as a primary; exactly the three known model
/// names, when neither disabled nor the primary, lead to a failover.
pub proof fn law_failover_switches_model(primary: Seq<char>, fallback: Seq<char>)
    ensures
        fallback_plan(primary, fallback) matches FallbackPlan::Try(p) ==> fallback != primary && fallback
            != "none"@ && p == primary_provider(fallback),
        (fallback_plan(primary, fallback) is Try) == (fallback != primary && fallback != "none"@ && (fallback
            == "deepseek"@ || fallback == "gemini"@ || fallback == "minimax"@)),
{
}

/// Law: a disabled fallback, or one equal to the primary, never leads to a second call.
pub proof fn law_no_failover_when_disabled(primary: Seq<char>)
    ensures
        fallback_plan(primary, "none"@) == FallbackPlan::GiveUp,
        fallback_plan(primary, primary) == FallbackPlan::GiveUp,
{
}

} // verus!
