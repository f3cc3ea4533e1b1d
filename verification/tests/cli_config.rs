use verba::config::{AppConfig, Preset};

#[test]
fn default_config_should_include_required_presets_without_api_key() {
    let config = AppConfig::default();

    let names: Vec<_> = config
        .presets
        .iter()
        .map(|preset| preset.name.as_str())
        .collect();
    assert_eq!(names, ["Precise", "Natural", "Formal"]);

    let text = format!("{:?}", config);
    assert!(!text.to_ascii_lowercase().contains("api_key"));
}

#[test]
fn config_validation_should_reject_duplicate_preset_names() {
    let mut config = AppConfig::default();
    config.presets.push(Preset {
        id: "another-precise".to_string(),
        name: "Precise".to_string(),
        instruction: "Use exact wording.".to_string(),
    });

    let err = config
        .validate()
        .expect_err("duplicate preset names must be rejected");
    assert!(err.message().contains("duplicate preset name"));
}

#[test]
fn config_validation_should_normalize_provider_base_url() {
    let mut config = AppConfig::default();
    config.provider.base_url = "https://api.openai.com/".to_string();

    config.validate().expect("base URL should be valid");

    assert_eq!(config.provider.base_url, "https://api.openai.com");
}

#[test]
fn config_validation_should_reject_chat_completions_endpoint_as_base_url() {
    let mut config = AppConfig::default();
    config.provider.base_url = "https://api.openai.com/v1/chat/completions".to_string();

    let err = config
        .validate()
        .expect_err("full endpoint must be rejected");

    assert!(err.message().contains("/v1/chat/completions"));
}
