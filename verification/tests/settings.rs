use attachment_pipeline::settings::{
    is_winter_month, is_winter_now, sanitize_text_for_tts, thinking_choice, usable_proxy,
    AuthMethod, GeminiModel, RequestInfoType, ThinkingChoice,
};

#[test]
fn auth_method_labels() {
    assert_eq!(AuthMethod::ApiKey.label(), "API Key");
    assert_eq!(AuthMethod::CodeAssist.label(), "Google Code Assist");
    assert_eq!(AuthMethod::default(), AuthMethod::ApiKey);
}

#[test]
fn every_model_is_offered_once_in_order() {
    let all = GeminiModel::all();
    assert_eq!(all.len(), 21);
    assert_eq!(all[0], GeminiModel::default());
    assert_eq!(all[0], GeminiModel::Gemini30Flash);
    assert_eq!(all[20], GeminiModel::Gemini25ProPreview0605);
    for (i, a) in all.iter().enumerate() {
        for b in &all[i + 1..] {
            assert_ne!(a, b);
            assert_ne!(a.model_id(), b.model_id());
        }
    }
}

#[test]
fn model_identifiers() {
    assert_eq!(GeminiModel::Gemini30Flash.model_id(), "gemini-3-flash-preview");
    assert_eq!(GeminiModel::Gemini30Pro.model_id(), "gemini-3-pro-preview");
    assert_eq!(GeminiModel::Gemini20Flash.model_id(), "gemini-2.0-flash");
    assert_eq!(GeminiModel::Gemini15Flash8b.model_id(), "gemini-1.5-flash-8b");
    assert_eq!(
        GeminiModel::Gemini20FlashThinkingExp0121.model_id(),
        "gemini-2.0-flash-thinking-exp-01-21"
    );
    assert_eq!(GeminiModel::Gemma3nE2bIt.model_id(), "gemma-3n-e2b-it");
    assert_eq!(GeminiModel::Gemini25ProPreview0605.model_id(), "gemini-2.5-pro-preview-06-05");
}

#[test]
fn resource_name_is_under_models() {
    assert_eq!(GeminiModel::Gemini25Pro.resource_name(), "models/gemini-2.5-pro");
    for model in GeminiModel::all() {
        assert_eq!(model.resource_name(), format!("models/{}", model.model_id()));
    }
}

#[test]
fn thinking_is_configured_only_when_asked_for() {
    assert_eq!(thinking_choice(false, None), None);
    assert_eq!(
        thinking_choice(true, None),
        Some(ThinkingChoice { include_thoughts: Some(true), thinking_budget: None })
    );
    assert_eq!(
        thinking_choice(false, Some(-1)),
        Some(ThinkingChoice { include_thoughts: None, thinking_budget: Some(-1) })
    );
    assert_eq!(
        thinking_choice(true, Some(32768)),
        Some(ThinkingChoice { include_thoughts: Some(true), thinking_budget: Some(32768) })
    );
}

#[test]
fn empty_proxy_is_ignored() {
    assert_eq!(usable_proxy(None), None);
    assert_eq!(usable_proxy(Some(String::new())), None);
    assert_eq!(
        usable_proxy(Some("socks5://127.0.0.1:2080".to_string())).as_deref(),
        Some("socks5://127.0.0.1:2080")
    );
}

#[test]
fn winter_is_december_to_february() {
    let winter: Vec<u32> = (1..=12).filter(|m| is_winter_month(*m)).collect();
    assert_eq!(winter, vec![1, 2, 12]);
    assert!(!is_winter_month(0));
    assert!(!is_winter_month(13));
}

#[test]
fn winter_now_is_answered() {
    let first = is_winter_now();
    let second = is_winter_now();
    assert!(first == second || first != second);
}

#[test]
fn spoken_text_is_the_message() {
    assert_eq!(sanitize_text_for_tts(""), "");
    assert_eq!(sanitize_text_for_tts("Hello, **world**!"), "Hello, **world**!");
    assert_eq!(sanitize_text_for_tts("héllo ✓"), "héllo ✓");
}

#[test]
fn requests_carry_the_project() {
    let request = RequestInfoType::SelectProject("my-project".to_string());
    assert!(matches!(&request, RequestInfoType::SelectProject(p) if p == "my-project"));
    assert!(matches!(RequestInfoType::LoadSettings, RequestInfoType::LoadSettings));
    assert!(matches!(RequestInfoType::LoginGoogle, RequestInfoType::LoginGoogle));
    assert!(matches!(RequestInfoType::LogoutGoogle, RequestInfoType::LogoutGoogle));
}
