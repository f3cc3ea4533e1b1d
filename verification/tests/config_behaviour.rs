use verba::config::validation::check_parsed_provider;
use verba::{
    config::{AppConfig, ConfigStore, Preset},
    error::VerbaError,
};

fn invalid_base_url_message(err: VerbaError) -> String {
    match err {
        VerbaError::InvalidBaseUrl(m) => m,
        other => panic!("unexpected error {other:?}"),
    }
}

fn config_message(err: VerbaError) -> String {
    match err {
        VerbaError::Config(m) => m,
        other => panic!("unexpected error {other:?}"),
    }
}

#[test]
fn default_config_is_valid_and_unchanged_by_validation() {
    let mut config = AppConfig::default();
    let before = config.clone();
    config.validate().expect("default config should be valid");
    assert_eq!(config, before);
    assert_eq!(config.provider.temperature_bits, 0.2f32.to_bits());
    assert_eq!(config.provider.timeout_secs, 30);
    assert_eq!(config.ui.window_width, 960);
}

#[test]
fn validation_strips_query_fragment_and_whitespace() {
    let mut config = AppConfig::default();
    config.provider.base_url = "  https://example.com/api//?key=1#part ".to_string();
    config.validate().expect("URL should be valid");
    assert_eq!(config.provider.base_url, "https://example.com/api");
}

#[test]
fn validation_rejects_unsupported_scheme() {
    let mut config = AppConfig::default();
    config.provider.base_url = "ftp://example.com".to_string();
    let err = config.validate().unwrap_err();
    assert_eq!(invalid_base_url_message(err), "unsupported URL scheme `ftp`");
    assert_eq!(config.provider.base_url, "ftp://example.com");
}

#[test]
fn validation_rejects_endpoint_in_any_case() {
    let mut config = AppConfig::default();
    config.provider.base_url = "https://example.com/V1/Chat/Completions/".to_string();
    let err = config.validate().unwrap_err();
    assert_eq!(
        invalid_base_url_message(err),
        "base_url must not include /v1/chat/completions"
    );
}

#[test]
fn validation_rejects_unparsable_url() {
    let mut config = AppConfig::default();
    config.provider.base_url = "not a url".to_string();
    let err = config.validate().unwrap_err();
    assert!(err.message().starts_with("invalid provider base URL: "));
}

#[test]
fn validation_checks_timeout_and_temperature() {
    let mut config = AppConfig::default();
    config.provider.timeout_secs = 0;
    assert_eq!(
        config_message(config.validate().unwrap_err()),
        "provider.timeout_secs must be positive"
    );

    for bad in [2.5f32, -0.5f32, f32::NAN, f32::INFINITY] {
        let mut config = AppConfig::default();
        config.provider.temperature_bits = bad.to_bits();
        assert_eq!(
            config_message(config.validate().unwrap_err()),
            "provider.temperature must be between 0.0 and 2.0"
        );
    }
    for good in [0.0f32, -0.0f32, 1.0f32, 2.0f32] {
        let mut config = AppConfig::default();
        config.provider.temperature_bits = good.to_bits();
        assert!(config.validate().is_ok());
    }
}

#[test]
fn validation_checks_presets_in_order() {
    let mut config = AppConfig::default();
    config.presets.clear();
    assert_eq!(
        config_message(config.validate().unwrap_err()),
        "at least one preset is required"
    );

    let mut config = AppConfig::default();
    config.presets[1].id = " ".to_string();
    assert_eq!(config_message(config.validate().unwrap_err()), "preset id is required");

    let mut config = AppConfig::default();
    config.presets[2].name = "\n".to_string();
    assert_eq!(config_message(config.validate().unwrap_err()), "preset name is required");

    let mut config = AppConfig::default();
    config.presets[0].instruction = String::new();
    assert_eq!(
        config_message(config.validate().unwrap_err()),
        "preset instruction is required"
    );

    let mut config = AppConfig::default();
    config.presets.push(Preset {
        id: "x".to_string(),
        name: "  NATURAL ".to_string(),
        instruction: "i".to_string(),
    });
    assert_eq!(
        config_message(config.validate().unwrap_err()),
        "duplicate preset name `  NATURAL `"
    );
}

#[test]
fn provider_is_normalized_even_when_presets_fail() {
    let mut config = AppConfig::default();
    config.provider.base_url = "https://example.com/".to_string();
    config.presets.clear();
    assert!(config.validate().is_err());
    assert_eq!(config.provider.base_url, "https://example.com");
}

#[test]
fn error_messages_name_their_kind() {
    assert_eq!(
        VerbaError::Config("x".to_string()).message(),
        "configuration error: x"
    );
    assert_eq!(
        VerbaError::Secret("y".to_string()).message(),
        "Secret Service error: y"
    );
    assert_eq!(
        VerbaError::SystemdStart("z".to_string()).message(),
        "systemd user service start failed: z"
    );
    assert_eq!(VerbaError::Dbus("d".to_string()).message(), "D-Bus error: d");
    assert_eq!(VerbaError::Io("e".to_string()).message(), "I/O error: e");
}

#[test]
fn config_store_keeps_its_path() {
    let path = std::path::PathBuf::from("/tmp/verba/config.toml");
    let store = ConfigStore::new(path.clone());
    assert_eq!(store.path(), &path);
}

fn parts(scheme: &str, path: &str, through_path: &str) -> verba::urls::UrlParts {
    verba::urls::UrlParts {
        scheme: scheme.to_string(),
        path: path.to_string(),
        through_path: through_path.to_string(),
        serialized_len: through_path.len(),
    }
}

#[test]
fn parsed_provider_checks_follow_their_order() {
    let ok = check_parsed_provider(&parts("https", "/api//", "https://h.example/api//"), 30, 0)
        .expect("https with a plain path passes");
    assert_eq!(ok, "https://h.example/api");
    let err = check_parsed_provider(&parts("ftp", "/v1/chat/completions", "ftp://h/"), 0, 0)
        .unwrap_err();
    assert_eq!(invalid_base_url_message(err), "unsupported URL scheme `ftp`");
    let err = check_parsed_provider(&parts("http", "/V1/Chat/Completions/", "http://h/"), 0, 0)
        .unwrap_err();
    assert_eq!(
        invalid_base_url_message(err),
        "base_url must not include /v1/chat/completions"
    );
    let err = check_parsed_provider(&parts("http", "/", "http://h/"), 0, 3.0f32.to_bits())
        .unwrap_err();
    assert_eq!(config_message(err), "provider.timeout_secs must be positive");
    let err = check_parsed_provider(&parts("http", "/", "http://h/"), 5, 3.0f32.to_bits())
        .unwrap_err();
    assert_eq!(
        config_message(err),
        "provider.temperature must be between 0.0 and 2.0"
    );
    let ok = check_parsed_provider(&parts("http", "/", "http://h/"), 5, (-0.0f32).to_bits())
        .expect("negative zero is in range");
    assert_eq!(ok, "http://h");
}
