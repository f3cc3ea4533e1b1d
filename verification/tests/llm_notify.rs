use verba::{
    config::{AppConfig, Preset},
    llm::{
        client::{completion_content, LlmClient},
        errors::{LlmError, LlmErrorKind},
        prompt::build_system_prompt,
        schema::{ChatChoice, ChatCompletionResponse, ChatResponseMessage},
    },
    notify::{notify_send::NotifySend, Urgency},
};

#[test]
fn prompt_should_use_strict_translation_format() {
    let preset = Preset {
        id: "precise".to_string(),
        name: "Precise".to_string(),
        instruction: "Be exact.".to_string(),
    };

    let prompt = build_system_prompt("German", &preset);

    assert!(prompt.contains("Translate this text into German."));
    assert!(prompt.contains("Style and quality requirements:\nBe exact."));
    assert!(prompt.contains("- Return only the translated text."));
    assert!(prompt.contains("- Preserve markdown structure."));
}

#[test]
fn notify_send_should_build_required_arguments() {
    let args = NotifySend::args(
        "Translation failed",
        "Provider returned 403. Check API key and model permissions.",
        Urgency::Critical,
    );

    assert_eq!(
        args,
        [
            "--app-name=Verba",
            "--urgency=critical",
            "Translation failed",
            "Provider returned 403. Check API key and model permissions."
        ]
    );
}

#[test]
fn llm_error_mapping_should_cover_required_status_codes() {
    assert_eq!(
        LlmError::from_status(403, "forbidden").kind(),
        LlmErrorKind::UnauthorizedOrForbidden
    );
    assert_eq!(
        LlmError::from_status(404, "missing").kind(),
        LlmErrorKind::NotFound
    );
    assert_eq!(
        LlmError::from_status(429, "slow down").kind(),
        LlmErrorKind::RateLimited
    );
    assert_eq!(
        LlmError::from_status(529, "overloaded").kind(),
        LlmErrorKind::ProviderOverloaded
    );
    assert_eq!(
        LlmError::from_status(500, "server").kind(),
        LlmErrorKind::ServerError
    );
}

fn answer(content: Option<&str>) -> ChatCompletionResponse {
    ChatCompletionResponse {
        choices: vec![ChatChoice {
            message: ChatResponseMessage {
                content: content.map(|c| c.to_string()),
            },
        }],
    }
}

#[test]
fn llm_client_should_parse_successful_chat_completion_response() {
    let mut config = AppConfig::default();
    config.provider.base_url = "http://127.0.0.1:40123".to_string();
    config.provider.model_name = "test-model".to_string();
    let client = LlmClient::new(config.provider.clone()).expect("client should build");
    assert_eq!(client.endpoint(), "http://127.0.0.1:40123/v1/chat/completions");
    let request = client
        .translation_request("secret", "German", &config.presets[0], "Hello world")
        .expect("request should build");
    assert_eq!(request.model, "test-model");
    assert_eq!(request.messages[1].content, "Hello world");

    let translated = completion_content(&answer(Some("Hallo Welt"))).expect("translation should parse");
    assert_eq!(translated, "Hallo Welt");
}

#[test]
fn llm_client_should_reject_missing_message_content() {
    let mut config = AppConfig::default();
    config.provider.base_url = "http://127.0.0.1:40123".to_string();
    config.provider.model_name = "test-model".to_string();
    LlmClient::new(config.provider.clone()).expect("client should build");

    let err = completion_content(&answer(None)).expect_err("missing content should fail");
    assert_eq!(err.kind(), LlmErrorKind::InvalidResponse);
}
