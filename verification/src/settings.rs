//! Choices that the user makes in the settings: how to sign in, which model
//! to talk to, and what the model is asked to think aloud.

use vstd::prelude::*;
use crate::text::joined;

verus! {

/// What the settings view asks the application to do for it.
#[derive(Debug)]
pub enum RequestInfoType {
    LoadSettings,
    LoginGoogle,
    LogoutGoogle,
    SelectProject(String),
}

/// How the client signs in to the service.
#[derive(Debug, Clone, Copy, PartialEq, Eq, Structural)]
pub enum AuthMethod {
    ApiKey,
    CodeAssist,
}

/// The name under which a sign-in method is shown.
pub open spec fn auth_label(method: AuthMethod) -> Seq<char> {
    match method {
        AuthMethod::ApiKey => "API Key"@,
        AuthMethod::CodeAssist => "Google Code Assist"@,
    }
}

impl Default for AuthMethod {
    fn default() -> (method: Self)
        ensures
            method == AuthMethod::ApiKey,
    {
        AuthMethod::ApiKey
    }
}

impl AuthMethod {
    /// The name under which the method is shown.
    pub fn label(&self) -> (r: String)
        ensures
            r@ == auth_label(*self),
    {
        match self {
            AuthMethod::ApiKey => "API Key".to_owned(),
            AuthMethod::CodeAssist => "Google Code Assist".to_owned(),
        }
    }
}

/// The models that can be chosen.
#[derive(Debug, Clone, Copy, PartialEq, Eq, Structural)]
pub enum GeminiModel {
    Gemini30Flash,
    Gemini30Pro,
    Gemini20Flash,
    Gemini20FlashLite,
    Gemini25Pro,
    Gemini25Flash,
    Gemini15Flash,
    Gemini15Flash8b,
    Gemini25FlashPreview0520,
    Gemini20FlashThinkingExp0121,
    Gemini20FlashThinkingExp1219,
    Gemma31bIt,
    Gemma34bIt,
    Gemma312bIt,
    Gemma327bIt,
    Gemma3nE4bIt,
    Gemma3nE2bIt,
    Gemini15Pro,
    Gemini25ProPreview0325,
    Gemini25ProPreview0506,
    Gemini25ProPreview0605,
}

/// The identifier by which the service knows a model.
pub open spec fn model_id_of(model: GeminiModel) -> Seq<char> {
    match model {
        GeminiModel::Gemini30Flash => "gemini-3-flash-preview"@,
        GeminiModel::Gemini30Pro => "gemini-3-pro-preview"@,
        GeminiModel::Gemini20Flash => "gemini-2.0-flash"@,
        GeminiModel::Gemini20FlashLite => "gemini-2.0-flash-lite"@,
        GeminiModel::Gemini25Pro => "gemini-2.5-pro"@,
        GeminiModel::Gemini25Flash => "gemini-2.5-flash"@,
        GeminiModel::Gemini15Flash => "gemini-1.5-flash"@,
        GeminiModel::Gemini15Flash8b => "gemini-1.5-flash-8b"@,
        GeminiModel::Gemini25FlashPreview0520 => "gemini-2.5-flash-preview-05-20"@,
        GeminiModel::Gemini20FlashThinkingExp0121 => "gemini-2.0-flash-thinking-exp-01-21"@,
        GeminiModel::Gemini20FlashThinkingExp1219 => "gemini-2.0-flash-thinking-exp-1219"@,
        GeminiModel::Gemma31bIt => "gemma-3-1b-it"@,
        GeminiModel::Gemma34bIt => "gemma-3-4b-it"@,
        GeminiModel::Gemma312bIt => "gemma-3-12b-it"@,
        GeminiModel::Gemma327bIt => "gemma-3-27b-it"@,
        GeminiModel::Gemma3nE4bIt => "gemma-3n-e4b-it"@,
        GeminiModel::Gemma3nE2bIt => "gemma-3n-e2b-it"@,
        GeminiModel::Gemini15Pro => "gemini-1.5-pro"@,
        GeminiModel::Gemini25ProPreview0325 => "gemini-2.5-pro-preview-03-25"@,
        GeminiModel::Gemini25ProPreview0506 => "gemini-2.5-pro-preview-05-06"@,
        GeminiModel::Gemini25ProPreview0605 => "gemini-2.5-pro-preview-06-05"@,
    }
}

/// The models in the order in which they are offered.
pub open spec fn all_models() -> Seq<GeminiModel> {
    seq![
        GeminiModel::Gemini30Flash,
        GeminiModel::Gemini30Pro,
        GeminiModel::Gemini20Flash,
        GeminiModel::Gemini20FlashLite,
        GeminiModel::Gemini25Pro,
        GeminiModel::Gemini25Flash,
        GeminiModel::Gemini15Flash,
        GeminiModel::Gemini15Flash8b,
        GeminiModel::Gemini25FlashPreview0520,
        GeminiModel::Gemini20FlashThinkingExp0121,
        GeminiModel::Gemini20FlashThinkingExp1219,
        GeminiModel::Gemma31bIt,
        GeminiModel::Gemma34bIt,
        GeminiModel::Gemma312bIt,
        GeminiModel::Gemma327bIt,
        GeminiModel::Gemma3nE4bIt,
        GeminiModel::Gemma3nE2bIt,
        GeminiModel::Gemini15Pro,
        GeminiModel::Gemini25ProPreview0325,
        GeminiModel::Gemini25ProPreview0506,
        GeminiModel::Gemini25ProPreview0605,
    ]
}

impl Default for GeminiModel {
    fn default() -> (model: Self)
        ensures
            model == GeminiModel::Gemini30Flash,
    {
        GeminiModel::Gemini30Flash
    }
}

impl GeminiModel {
    /// The identifier by which the service knows the model; it is also the
    /// name under which the model is shown.
    pub fn model_id(&self) -> (r: &'static str)
        ensures
            r@ == model_id_of(*self),
    {
        match self {
            GeminiModel::Gemini30Flash => "gemini-3-flash-preview",
            GeminiModel::Gemini30Pro => "gemini-3-pro-preview",
            GeminiModel::Gemini20Flash => "gemini-2.0-flash",
            GeminiModel::Gemini20FlashLite => "gemini-2.0-flash-lite",
            GeminiModel::Gemini25Pro => "gemini-2.5-pro",
            GeminiModel::Gemini25Flash => "gemini-2.5-flash",
            GeminiModel::Gemini15Flash => "gemini-1.5-flash",
            GeminiModel::Gemini15Flash8b => "gemini-1.5-flash-8b",
            GeminiModel::Gemini25FlashPreview0520 => "gemini-2.5-flash-preview-05-20",
            GeminiModel::Gemini20FlashThinkingExp0121 => "gemini-2.0-flash-thinking-exp-01-21",
            GeminiModel::Gemini20FlashThinkingExp1219 => "gemini-2.0-flash-thinking-exp-1219",
            GeminiModel::Gemma31bIt => "gemma-3-1b-it",
            GeminiModel::Gemma34bIt => "gemma-3-4b-it",
            GeminiModel::Gemma312bIt => "gemma-3-12b-it",
            GeminiModel::Gemma327bIt => "gemma-3-27b-it",
            GeminiModel::Gemma3nE4bIt => "gemma-3n-e4b-it",
            GeminiModel::Gemma3nE2bIt => "gemma-3n-e2b-it",
            GeminiModel::Gemini15Pro => "gemini-1.5-pro",
            GeminiModel::Gemini25ProPreview0325 => "gemini-2.5-pro-preview-03-25",
            GeminiModel::Gemini25ProPreview0506 => "gemini-2.5-pro-preview-05-06",
            GeminiModel::Gemini25ProPreview0605 => "gemini-2.5-pro-preview-06-05",
        }
    }

    /// The name of the model's resource: its identifier under `models/`.
    pub fn resource_name(&self) -> (r: String)
        ensures
            r@ == "models/"@ + model_id_of(*self),
    {
        joined("models/", self.model_id())
    }

    /// Every model, in the order in which they are offered.
    pub fn all() -> (models: Vec<GeminiModel>)
        ensures
            models@ == all_models(),
    {
        let models = vec![
            GeminiModel::Gemini30Flash,
            GeminiModel::Gemini30Pro,
            GeminiModel::Gemini20Flash,
            GeminiModel::Gemini20FlashLite,
            GeminiModel::Gemini25Pro,
            GeminiModel::Gemini25Flash,
            GeminiModel::Gemini15Flash,
            GeminiModel::Gemini15Flash8b,
            GeminiModel::Gemini25FlashPreview0520,
            GeminiModel::Gemini20FlashThinkingExp0121,
            GeminiModel::Gemini20FlashThinkingExp1219,
            GeminiModel::Gemma31bIt,
            GeminiModel::Gemma34bIt,
            GeminiModel::Gemma312bIt,
            GeminiModel::Gemma327bIt,
            GeminiModel::Gemma3nE4bIt,
            GeminiModel::Gemma3nE2bIt,
            GeminiModel::Gemini15Pro,
            GeminiModel::Gemini25ProPreview0325,
            GeminiModel::Gemini25ProPreview0506,
            GeminiModel::Gemini25ProPreview0605,
        ];
        assert(models@ =~= all_models());
        models
    }
}

/// What the model is asked about its thinking.
#[derive(Debug, Clone, Copy, PartialEq, Eq)]
pub struct ThinkingChoice {
    /// `Some(true)` where summaries of the thoughts are wanted.
    pub include_thoughts: Option<bool>,
    /// The token budget for thinking, where one is set.
    pub thinking_budget: Option<i32>,
}

/// The thinking configuration for two settings: none where neither asks
/// for anything; otherwise the summaries where they are wanted, and the
/// budget where one is set.
pub open spec fn thinking_choice_for(include_thoughts: bool, thinking_budget: Option<i32>) -> Option<
    ThinkingChoice,
> {
    if include_thoughts || thinking_budget is Some {
        Some(
            ThinkingChoice {
                include_thoughts: if include_thoughts {
                    Some(true)
                } else {
                    None
                },
                thinking_budget,
            },
        )
    } else {
        None
    }
}

/// The thinking configuration that goes into a request.
pub fn thinking_choice(include_thoughts: bool, thinking_budget: Option<i32>) -> (r: Option<
    ThinkingChoice,
>)
    ensures
        r == thinking_choice_for(include_thoughts, thinking_budget),
{
    if include_thoughts || thinking_budget.is_some() {
        Some(
            ThinkingChoice {
                include_thoughts: if include_thoughts {
                    Some(true)
                } else {
                    None
                },
                thinking_budget,
            },
        )
    } else {
        None
    }
}

/// The proxy to use for a configured one: none where nothing or an empty
/// address is configured.
pub fn usable_proxy(proxy_path: Option<String>) -> (r: Option<String>)
    ensures
        match proxy_path {
            Some(p) => if p@.len() == 0 {
                r is None
            } else {
                r == Some(p)
            },
            None => r is None,
        },
{
    match proxy_path {
        Some(p) => if p.as_str().is_empty() {
            None
        } else {
            Some(p)
        },
        None => None,
    }
}

/// The months of winter, counted from 1: December, January and February.
pub open spec fn winter_month(month: int) -> bool {
    month == 12 || month == 1 || month == 2
}

/// Whether a month, counted from 1, belongs to winter: December, January
/// and February.
pub fn is_winter_month(month: u32) -> (r: bool)
    ensures
        r == winter_month(month as int),
{
    month == 12 || month == 1 || month == 2
}

/// `chrono::Local::now` followed by `Datelike::month`: the current month in
/// the local time zone, which chrono documents to lie between 1 and 12.
#[verifier::external_body]
fn current_month() -> (month: u32)
    ensures
        1 <= month <= 12,
{
    chrono::Datelike::month(&chrono::Local::now())
}

/// Whether it is winter by the system clock: the default for the snow. The
/// answer is that for the month which the clock gives, one of the twelve.
pub fn is_winter_now() -> (r: bool)
    ensures
        exists|month: int| 1 <= month <= 12 && r == #[trigger] winter_month(month),
{
    let month = current_month();
    let r = is_winter_month(month);
    assert(1 <= month as int <= 12 && r == winter_month(month as int));
    r
}

/// The text to be spoken for a message: the message as it is.
pub fn sanitize_text_for_tts(s: &str) -> (r: String)
    ensures
        r@ == s@,
{
    let mut result = String::new();
    result.push_str(s);
    assert(result@ =~= s@);
    result
}

} // verus!
