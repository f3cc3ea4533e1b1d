use verba::{
    app_runtime::{
        failure_urgency, llm_to_outcome, notify_failure, provider_message, AppRuntime, AppState,
        Notification, TranslationOutcome,
    },
    config::AppConfig,
    llm::errors::{LlmError, LlmErrorKind},
    notify::Urgency,
};

fn config_with_model() -> AppConfig {
    let mut config = AppConfig::default();
    config.provider.model_name = "test-model".to_string();
    config
}

#[test]
fn toggle_twice_restores_each_state_but_settings() {
    let mut runtime = AppRuntime::new("precise");
    runtime.translate();
    assert_eq!(runtime.state(), AppState::HiddenTranslating);
    runtime.toggle_main_window();
    assert_eq!(runtime.state(), AppState::VisibleTranslating);
    runtime.toggle_main_window();
    assert_eq!(runtime.state(), AppState::HiddenTranslating);

    let mut runtime = AppRuntime::new("precise");
    runtime.open_settings();
    assert_eq!(runtime.state(), AppState::SettingsOpen);
    runtime.toggle_main_window();
    assert_eq!(runtime.state(), AppState::Hidden);
    runtime.toggle_main_window();
    assert_eq!(runtime.state(), AppState::VisibleIdle);
}

#[test]
fn exiting_runtime_ignores_window_commands() {
    let mut runtime = AppRuntime::new("precise");
    runtime.quit();
    runtime.toggle_main_window();
    runtime.show_main_window();
    runtime.open_settings();
    runtime.translate();
    assert_eq!(runtime.state(), AppState::Exiting);
    assert!(runtime.is_exiting());
    assert!(!runtime.main_window_visible());
}

#[test]
fn quit_during_translation_exits_when_it_finishes() {
    let mut runtime = AppRuntime::new("precise");
    runtime.show_main_window();
    runtime.translate();
    assert!(runtime.busy());
    runtime.quit();
    assert_eq!(runtime.state(), AppState::CancellingThenExit);
    assert!(runtime.is_exiting());
    runtime.finish_translation();
    assert_eq!(runtime.state(), AppState::Exiting);
    assert!(!runtime.busy());
}

#[test]
fn translation_round_trip_keeps_visibility() {
    let mut runtime = AppRuntime::new("precise");
    runtime.translate();
    runtime.finish_translation();
    assert_eq!(runtime.state(), AppState::Hidden);

    runtime.show_main_window();
    runtime.translate();
    assert_eq!(runtime.state(), AppState::VisibleTranslating);
    runtime.hide_main_window();
    assert_eq!(runtime.state(), AppState::HiddenTranslating);
    runtime.finish_translation();
    assert_eq!(runtime.state(), AppState::Hidden);
}

#[test]
fn update_config_takes_last_preset() {
    let mut runtime = AppRuntime::new("precise");
    let mut config = AppConfig::default();
    config.ui.last_preset_id = "natural".to_string();
    runtime.update_config(config);
    assert_eq!(runtime.current_preset(), "natural");
    assert_eq!(runtime.config().ui.last_preset_id, "natural");
    runtime.reload_config();
    assert_eq!(runtime.current_preset(), "natural");
}

#[test]
fn begin_translation_refuses_in_order() {
    let runtime = AppRuntime::from_config(AppConfig::default());
    assert_eq!(
        runtime.begin_translation(" ", "German", "precise").unwrap_err(),
        TranslationOutcome::validation_error("Enter text to translate.")
    );
    assert_eq!(
        runtime.begin_translation("Hello", "\t", "precise").unwrap_err(),
        TranslationOutcome::validation_error("Enter target language.")
    );
    assert_eq!(
        runtime.begin_translation("Hello", "German", "precise").unwrap_err(),
        TranslationOutcome::validation_error("Model name is not configured. Open Settings.")
    );
    let runtime = AppRuntime::from_config(config_with_model());
    assert_eq!(
        runtime.begin_translation("Hello", "German", "missing").unwrap_err(),
        TranslationOutcome::validation_error("Select a preset.")
    );
}

#[test]
fn begin_translation_trims_and_picks_preset() {
    let runtime = AppRuntime::from_config(config_with_model());
    let request = runtime
        .begin_translation("  Hello world \n", " German ", "natural")
        .expect("request should pass");
    assert_eq!(request.input, "Hello world");
    assert_eq!(request.language, "German");
    assert_eq!(request.preset.id, "natural");
    assert_eq!(request.provider.model_name, "test-model");
}

#[test]
fn accept_api_key_refuses_blank_and_marks_busy() {
    let mut runtime = AppRuntime::from_config(config_with_model());
    assert_eq!(
        runtime.accept_api_key(None).unwrap_err(),
        TranslationOutcome::validation_error("API key is not configured.")
    );
    assert_eq!(
        runtime.accept_api_key(Some("  ".to_string())).unwrap_err(),
        TranslationOutcome::validation_error("API key is not configured.")
    );
    assert!(!runtime.busy());
    assert_eq!(runtime.accept_api_key(Some("sk-test".to_string())).unwrap(), "sk-test");
    assert!(runtime.busy());
    assert_eq!(runtime.state(), AppState::HiddenTranslating);
}

#[test]
fn complete_translation_reports_success_without_notifying() {
    let mut runtime = AppRuntime::from_config(config_with_model());
    runtime.translate();
    let (outcome, notification) = runtime.complete_translation(Ok("Hallo".to_string()));
    assert_eq!(outcome, TranslationOutcome::success("Hallo"));
    assert!(notification.is_none());
    assert!(!runtime.busy());
    assert_eq!(runtime.state(), AppState::Hidden);
}

#[test]
fn complete_translation_notifies_critical_for_forbidden() {
    let mut runtime = AppRuntime::from_config(config_with_model());
    runtime.translate();
    let (outcome, notification) =
        runtime.complete_translation(Err(LlmError::from_status(403, "forbidden")));
    assert_eq!(
        outcome,
        TranslationOutcome::failure("Provider returned 403. Check API key and model permissions.")
    );
    assert_eq!(
        notification,
        Some(Notification {
            title: "Translation failed".to_string(),
            message: "Provider returned 403. Check API key and model permissions.".to_string(),
            urgency: Urgency::Critical,
        })
    );
}

#[test]
fn complete_translation_notifies_normal_for_overload() {
    let mut runtime = AppRuntime::from_config(config_with_model());
    runtime.translate();
    let (outcome, notification) = runtime.complete_translation(Err(LlmError::from_status(529, "")));
    assert_eq!(
        outcome,
        TranslationOutcome::failure("Provider returned 529. Try again later.")
    );
    assert_eq!(notification.map(|n| n.urgency), Some(Urgency::Normal));
}

#[test]
fn failure_notifications_follow_the_message() {
    assert_eq!(notify_failure(&TranslationOutcome::success("Hallo")), None);
    let n = notify_failure(&TranslationOutcome::failure("HTTP 404 here")).expect("a message notifies");
    assert_eq!(n.title, "Translation failed");
    assert_eq!(n.message, "HTTP 404 here");
    assert_eq!(n.urgency, Urgency::Critical);
    let n = notify_failure(&TranslationOutcome::validation_error("Enter target language."))
        .expect("a message notifies");
    assert_eq!(n.urgency, Urgency::Normal);
}

#[test]
fn provider_messages_and_urgency_match_kinds() {
    let kinds = [
        (LlmErrorKind::UnauthorizedOrForbidden, Urgency::Critical),
        (LlmErrorKind::NotFound, Urgency::Critical),
        (LlmErrorKind::RateLimited, Urgency::Normal),
        (LlmErrorKind::ProviderOverloaded, Urgency::Normal),
        (LlmErrorKind::ServerError, Urgency::Normal),
        (LlmErrorKind::Timeout, Urgency::Normal),
        (LlmErrorKind::Network, Urgency::Normal),
        (LlmErrorKind::InvalidResponse, Urgency::Normal),
        (LlmErrorKind::MissingConfiguration, Urgency::Normal),
    ];
    for (kind, urgency) in kinds {
        assert_eq!(failure_urgency(provider_message(kind)), urgency);
    }
    assert_eq!(
        provider_message(LlmErrorKind::Timeout),
        "Request timed out. Try again later."
    );
    let outcome = llm_to_outcome(&LlmError::new(LlmErrorKind::NotFound, "x"));
    assert_eq!(
        outcome.message.as_deref(),
        Some("Provider returned 404. Check base URL and model name.")
    );
}
