use std::sync::Mutex;

use verba::{
    app_runtime::{AppRuntime, AppState, TranslationOutcome},
    config::AppConfig,
    llm::{
        client::{check_status, completion_content, LlmClient},
        schema::{ChatChoice, ChatCompletionResponse, ChatResponseMessage},
    },
    notify::{Notifier, Urgency},
};

/// What the provider answers in a scenario: a status and a body, or, for a
/// success, the parsed answer's content.
enum Reply {
    Status(u16, &'static str),
    Content(&'static str),
}

/// Runs the steps of a translation request as the application does: the
/// checks, the API key, the client and its request, the provider's reply,
/// and the end of the translation.
fn translate_text(
    runtime: &mut AppRuntime,
    api_key: Option<&str>,
    notifier: &RecordingNotifier,
    input: &str,
    language: &str,
    preset_id: &str,
    reply: Reply,
) -> TranslationOutcome {
    let request = match runtime.begin_translation(input, language, preset_id) {
        Ok(request) => request,
        Err(outcome) => return outcome,
    };
    let key = match runtime.accept_api_key(api_key.map(|k| k.to_string())) {
        Ok(key) => key,
        Err(outcome) => return outcome,
    };
    let result = LlmClient::new(request.provider.clone()).and_then(|client| {
        let body = client.translation_request(&key, &request.language, &request.preset, &request.input)?;
        assert_eq!(body.messages[1].content, request.input);
        match reply {
            Reply::Status(status, text) => {
                check_status(status, text)?;
                unreachable!("scenarios with a status reply fail")
            }
            Reply::Content(content) => completion_content(&ChatCompletionResponse {
                choices: vec![ChatChoice {
                    message: ChatResponseMessage {
                        content: Some(content.to_string()),
                    },
                }],
            }),
        }
    });
    let (outcome, notification) = runtime.complete_translation(result);
    if let Some(n) = notification {
        notifier.translation_failed(&n.title, &n.message, n.urgency);
    }
    outcome
}

fn config_with_model(base_url: &str) -> AppConfig {
    let mut config = AppConfig::default();
    config.provider.base_url = base_url.to_string();
    config.provider.model_name = "test-model".to_string();
    config
}

#[derive(Default)]
struct RecordingNotifier {
    calls: Mutex<Vec<(String, String, Urgency)>>,
}

impl RecordingNotifier {
    fn last_urgency(&self) -> Option<Urgency> {
        self.calls.lock().unwrap().last().map(|(_, _, urgency)| *urgency)
    }
}

impl Notifier for RecordingNotifier {
    fn translation_failed(&self, title: &str, message: &str, urgency: Urgency) {
        self.calls
            .lock()
            .unwrap()
            .push((title.to_string(), message.to_string(), urgency));
    }
}

#[test]
fn translation_should_reject_empty_input() {
    let mut runtime = AppRuntime::from_config(AppConfig::default());
    let outcome = translate_text(
        &mut runtime,
        Some("sk-test"),
        &RecordingNotifier::default(),
        "",
        "German",
        "precise",
        Reply::Content("unused"),
    );
    assert_eq!(
        outcome,
        TranslationOutcome::validation_error("Enter text to translate.")
    );
}

#[test]
fn translation_should_reject_empty_language() {
    let mut runtime = AppRuntime::from_config(AppConfig::default());
    let outcome = translate_text(
        &mut runtime,
        Some("sk-test"),
        &RecordingNotifier::default(),
        "Hello",
        " ",
        "precise",
        Reply::Content("unused"),
    );
    assert_eq!(
        outcome,
        TranslationOutcome::validation_error("Enter target language.")
    );
}

#[test]
fn translation_should_prompt_settings_when_model_is_missing() {
    let mut runtime = AppRuntime::from_config(AppConfig::default());
    let outcome = translate_text(
        &mut runtime,
        Some("sk-test"),
        &RecordingNotifier::default(),
        "Hello",
        "German",
        "precise",
        Reply::Content("unused"),
    );
    assert_eq!(
        outcome,
        TranslationOutcome::validation_error("Model name is not configured. Open Settings.")
    );
}

#[test]
fn translation_should_reject_missing_api_key() {
    let mut runtime = AppRuntime::from_config(config_with_model("http://127.0.0.1:9"));
    let outcome = translate_text(
        &mut runtime,
        None,
        &RecordingNotifier::default(),
        "Hello",
        "German",
        "precise",
        Reply::Content("unused"),
    );
    assert_eq!(
        outcome,
        TranslationOutcome::validation_error("API key is not configured.")
    );
    assert!(!runtime.busy());
}

#[test]
fn translation_should_parse_successful_response() {
    let mut runtime = AppRuntime::from_config(config_with_model("http://127.0.0.1:9"));
    let notifier = RecordingNotifier::default();
    let outcome = translate_text(
        &mut runtime,
        Some("sk-test"),
        &notifier,
        "Hello",
        "German",
        "precise",
        Reply::Content("Hallo"),
    );
    assert_eq!(outcome, TranslationOutcome::success("Hallo"));
    assert_eq!(notifier.last_urgency(), None);
    assert!(!runtime.busy());
    assert_eq!(runtime.state(), AppState::Hidden);
}

#[test]
fn translation_should_notify_critical_for_forbidden_provider_response() {
    let mut runtime = AppRuntime::from_config(config_with_model("http://127.0.0.1:9"));
    let notifier = RecordingNotifier::default();
    let outcome = translate_text(
        &mut runtime,
        Some("sk-test"),
        &notifier,
        "Hello",
        "German",
        "precise",
        Reply::Status(403, "forbidden"),
    );
    assert_eq!(
        outcome,
        TranslationOutcome::failure("Provider returned 403. Check API key and model permissions.")
    );
    assert_eq!(notifier.last_urgency(), Some(Urgency::Critical));
}

#[test]
fn translation_should_notify_critical_for_missing_provider_response() {
    let mut runtime = AppRuntime::from_config(config_with_model("http://127.0.0.1:9"));
    let notifier = RecordingNotifier::default();
    let outcome = translate_text(
        &mut runtime,
        Some("sk-test"),
        &notifier,
        "Hello",
        "German",
        "precise",
        Reply::Status(404, "missing"),
    );
    assert_eq!(
        outcome,
        TranslationOutcome::failure("Provider returned 404. Check base URL and model name.")
    );
    assert_eq!(notifier.last_urgency(), Some(Urgency::Critical));
}

#[test]
fn translation_should_notify_normal_for_provider_overload() {
    let mut runtime = AppRuntime::from_config(config_with_model("http://127.0.0.1:9"));
    let notifier = RecordingNotifier::default();
    let outcome = translate_text(
        &mut runtime,
        Some("sk-test"),
        &notifier,
        "Hello",
        "German",
        "precise",
        Reply::Status(529, "overloaded"),
    );
    assert_eq!(
        outcome,
        TranslationOutcome::failure("Provider returned 529. Try again later.")
    );
    assert_eq!(notifier.last_urgency(), Some(Urgency::Normal));
}
