use rust_agent::config::{AppConfig, ConfigError, ModelConfig, ProviderConfig, SessionConfig};
use rust_agent::llm::{
    ClientChoice, LlmError, LlmService, MockLlmClient, ModelRegistry, OpenAiCompatibleClient,
};
use rust_agent::provider::ModelProvider;
use rust_agent::state::AppState;
use rust_agent::str_map::StrMap;

fn values(pairs: &[(&str, &str)]) -> StrMap<String> {
    StrMap::from_pairs(pairs.iter().map(|(k, v)| (k.to_string(), v.to_string())).collect())
}

#[test]
fn loads_server_config_from_values() {
    let values = values(&[("APP_HOST", "127.0.0.1"), ("APP_PORT", "7001")]);

    let config = AppConfig::from_values(&values).expect("config should load");

    assert_eq!(config.server.host, "127.0.0.1");
    assert_eq!(config.server.port, 7001);
}

#[test]
fn ignores_empty_items_when_parsing_lists() {
    let values = values(&[("CORS_ALLOWED_ORIGINS", "http://localhost:3000, ,http://localhost:5173")]);

    let config = AppConfig::from_values(&values).expect("config should load");

    assert_eq!(config.cors.allowed_origins, vec!["http://localhost:3000", "http://localhost:5173"]);
}

#[test]
fn app_config_defaults() {
    let config = AppConfig::from_values(&StrMap::new()).expect("defaults should load");
    assert_eq!(config.server.host, "127.0.0.1");
    assert_eq!(config.server.port, 7001);
    assert_eq!(config.server.bind_addr(), "127.0.0.1:7001");
    assert_eq!(config.cors.allowed_origins, vec!["http://localhost:3000"]);
    assert_eq!(
        config.cors.allowed_methods,
        vec!["GET", "POST", "PUT", "DELETE", "PATCH", "OPTIONS"]
    );
    assert_eq!(config.cors.allowed_headers, vec!["Content-Type", "Authorization", "Accept"]);
    assert!(config.cors.allow_credentials);
    assert_eq!(config.cors.max_age, 3600);
    assert_eq!(config.model.main_provider, ModelProvider::Mock);
}

#[test]
fn app_config_reads_cors_overrides() {
    let config = AppConfig::from_values(&values(&[
        ("CORS_ALLOW_CREDENTIALS", "FALSE"),
        ("CORS_MAX_AGE", "60"),
        ("CORS_ALLOWED_METHODS", "GET"),
    ]))
    .expect("config should load");
    assert!(!config.cors.allow_credentials);
    assert_eq!(config.cors.max_age, 60);
    assert_eq!(config.cors.allowed_methods, vec!["GET"]);
}

#[test]
fn rejects_invalid_port() {
    match AppConfig::from_values(&values(&[("APP_PORT", "70000")])) {
        Err(ConfigError::InvalidPort { value }) => assert_eq!(value, "70000"),
        other => panic!("unexpected: {:?}", other),
    }
}

#[test]
fn rejects_unknown_provider_in_app_config() {
    match AppConfig::from_values(&values(&[("MAIN_MODEL_PROVIDER", "openai")])) {
        Err(ConfigError::UnknownProvider(e)) => assert_eq!(e.message(), "Unknown model provider: openai"),
        other => panic!("unexpected: {:?}", other),
    }
}

#[test]
fn parses_model_provider_names() {
    assert_eq!("mock".parse::<ModelProvider>().unwrap(), ModelProvider::Mock);
    assert_eq!("deepseek".parse::<ModelProvider>().unwrap(), ModelProvider::DeepSeek);
    assert_eq!("glm".parse::<ModelProvider>().unwrap(), ModelProvider::Glm);
    assert_eq!("qwen".parse::<ModelProvider>().unwrap(), ModelProvider::Qwen);
}

#[test]
fn provider_names_ignore_case() {
    assert_eq!("DeepSeek".parse::<ModelProvider>().unwrap(), ModelProvider::DeepSeek);
    assert_eq!("QWEN".parse::<ModelProvider>().unwrap(), ModelProvider::Qwen);
}

#[test]
fn rejects_unknown_model_provider() {
    assert!("unknown".parse::<ModelProvider>().is_err());
}

#[test]
fn returns_none_for_mock_main_config() {
    let config = ModelConfig::from_values(&StrMap::new()).expect("config should load");
    let registry = ModelRegistry::new(config);

    assert_eq!(registry.main_provider(), ModelProvider::Mock);
    assert!(registry.main_config().is_none());
}

#[test]
fn returns_selected_deepseek_main_config() {
    let values = values(&[("MAIN_MODEL_PROVIDER", "deepseek"), ("DEEPSEEK_API_KEY", "test-key")]);
    let config = ModelConfig::from_values(&values).expect("config should load");
    let registry = ModelRegistry::new(config);

    assert_eq!(registry.main_provider(), ModelProvider::DeepSeek);
    assert_eq!(registry.main_config().unwrap().model, "deepseek-chat");
}

#[test]
fn provider_defaults_and_overrides() {
    let config = ModelConfig::from_values(&values(&[
        ("GLM_MODEL", "glm-4-plus"),
        ("QWEN_BASE_URL", "http://localhost:9000"),
        ("VISION_MODEL_PROVIDER", "qwen"),
    ]))
    .expect("config should load");
    assert_eq!(config.glm.model, "glm-4-plus");
    assert_eq!(config.glm.base_url, "https://open.bigmodel.cn/api/paas/v4");
    assert_eq!(config.qwen.base_url, "http://localhost:9000");
    assert_eq!(config.qwen.model, "qwen-plus");
    assert_eq!(config.deepseek.base_url, "https://api.deepseek.com");
    assert_eq!(config.deepseek.max_tokens, 8192);
    assert!(config.deepseek.api_key.is_none());
    assert_eq!(config.vision_provider, ModelProvider::Qwen);
    let registry = ModelRegistry::new(config);
    assert_eq!(registry.vision_config().unwrap().model, "qwen-plus");
}

#[test]
fn creates_real_provider_client() {
    let values = values(&[("MAIN_MODEL_PROVIDER", "deepseek"), ("DEEPSEEK_API_KEY", "test-key")]);
    let config = ModelConfig::from_values(&values).expect("config should load");
    let registry = ModelRegistry::new(config);

    let service = LlmService::from_registry(&registry);

    assert!(service.is_ok());
}

#[test]
fn real_provider_without_key_is_refused() {
    let config = ModelConfig::from_values(&values(&[("MAIN_MODEL_PROVIDER", "glm")]))
        .expect("config should load");
    let error = LlmService::from_registry(&ModelRegistry::new(config)).expect_err("no key");
    assert_eq!(error, LlmError::MissingApiKey(ModelProvider::Glm));
    assert_eq!(error.message(), "api key is required for Glm");
}

#[test]
fn mock_service_answers_with_the_default_analysis() {
    let config = ModelConfig::from_values(&StrMap::new()).expect("config should load");
    let service = LlmService::from_registry(&ModelRegistry::new(config)).expect("service");
    match service.main_client() {
        ClientChoice::Mock(client) => {
            let response = client.respond(&[]);
            assert!(serde_json::from_str::<serde_json::Value>(&response.content).is_ok());
        }
        other => panic!("unexpected client: {:?}", other),
    }
}

fn provider_config(api_key: Option<&str>) -> ProviderConfig {
    ProviderConfig {
        api_key: api_key.map(ToString::to_string),
        base_url: "https://api.deepseek.com".to_string(),
        model: "deepseek-chat".to_string(),
        max_tokens: 8192,
    }
}

#[test]
fn requires_api_key() {
    let error = match OpenAiCompatibleClient::new(ModelProvider::DeepSeek, provider_config(None)) {
        Ok(_) => panic!("client should require api key"),
        Err(error) => error,
    };

    assert!(error.message().contains("api key"));
}

#[test]
fn blank_api_key_is_refused() {
    assert!(OpenAiCompatibleClient::new(ModelProvider::DeepSeek, provider_config(Some("  "))).is_err());
}

#[test]
fn creates_client_with_api_key() {
    let client = OpenAiCompatibleClient::new(ModelProvider::DeepSeek, provider_config(Some("test-key")))
        .expect("client should build");

    assert_eq!(client.provider(), ModelProvider::DeepSeek);
    assert_eq!(client.api_key(), "test-key");
}

#[test]
fn mock_client_returns_configured_response() {
    let client = MockLlmClient::new("mocked");
    assert_eq!(client.respond(&[]).content, "mocked");
}

#[test]
fn app_state_builds_for_the_mock_provider() {
    let config = AppConfig::from_values(&StrMap::new()).expect("mock app config should load");
    let state = AppState::new(config).expect("app state should build");
    assert_eq!(state.model_registry.main_provider(), ModelProvider::Mock);
    assert_eq!(state.config.server.port, 7001);
}

#[test]
fn uses_defaults_when_env_missing() {
    let cfg = SessionConfig::from_values(&StrMap::new());
    assert_eq!(cfg.per_project_cap, 20);
    assert_eq!(cfg.global_cap, 100);
}

#[test]
fn reads_env_overrides() {
    let mut v = StrMap::new();
    v.insert("SESSION_PER_PROJECT_CAP".into(), "5".into());
    v.insert("SESSION_GLOBAL_CAP".into(), "50".into());
    let cfg = SessionConfig::from_values(&v);
    assert_eq!(cfg.per_project_cap, 5);
    assert_eq!(cfg.global_cap, 50);
}

#[test]
fn zero_values_fall_back_to_defaults() {
    let mut v = StrMap::new();
    v.insert("SESSION_PER_PROJECT_CAP".into(), "0".into());
    let cfg = SessionConfig::from_values(&v);
    assert_eq!(cfg.per_project_cap, 20);
}

#[test]
fn malformed_caps_fall_back_to_defaults() {
    let cfg = SessionConfig::from_values(&values(&[("SESSION_GLOBAL_CAP", "many")]));
    assert_eq!(cfg.global_cap, 100);
    let d = SessionConfig::default();
    assert_eq!((d.per_project_cap, d.global_cap), (20, 100));
}

fn cors(origins: &[&str], methods: &[&str], headers: &[&str]) -> rust_agent::config::CorsConfig {
    rust_agent::config::CorsConfig {
        allowed_origins: origins.iter().map(|s| s.to_string()).collect(),
        allowed_methods: methods.iter().map(|s| s.to_string()).collect(),
        allowed_headers: headers.iter().map(|s| s.to_string()).collect(),
        allow_credentials: true,
        max_age: 3600,
    }
}

fn cors_error(config: &rust_agent::config::CorsConfig) -> Option<rust_agent::cors::CorsError> {
    match rust_agent::cors::build_cors_layer(config) {
        Ok(_) => None,
        Err(e) => Some(e),
    }
}

#[test]
fn returns_error_for_invalid_cors_method() {
    let config = cors(&["http://localhost:3000"], &["INVALID METHOD"], &["Content-Type"]);
    let error = cors_error(&config).expect("invalid method should fail");
    assert_eq!(
        error,
        rust_agent::cors::CorsError::InvalidMethod { value: "INVALID METHOD".to_string() }
    );
    assert_eq!(error.message(), "invalid HTTP method");
}

#[test]
fn builds_cors_layer_for_default_settings() {
    let config = AppConfig::from_values(&StrMap::new()).expect("defaults should load");
    assert!(cors_error(&config.cors).is_none());
}

#[test]
fn rejects_origin_with_control_character() {
    let error = cors_error(&cors(&["http://localhost\n"], &["GET"], &["Accept"])).expect("should fail");
    assert_eq!(error.message(), "failed to parse header value");
    assert!(matches!(error, rust_agent::cors::CorsError::InvalidOrigin { .. }));
}

#[test]
fn rejects_header_name_with_space() {
    let error = cors_error(&cors(&["http://localhost:3000"], &["GET"], &["Bad Header"])).expect("should fail");
    assert_eq!(error, rust_agent::cors::CorsError::InvalidHeader { value: "Bad Header".to_string() });
    assert_eq!(error.message(), "invalid HTTP header name");
}

#[test]
fn origin_errors_come_before_method_errors() {
    let error = cors_error(&cors(&["ok", "bad\u{7f}"], &["BAD METHOD"], &[])).expect("should fail");
    assert_eq!(error, rust_agent::cors::CorsError::InvalidOrigin { value: "bad\u{7f}".to_string() });
}

#[test]
fn parse_error_comes_before_the_wildcard_origin() {
    let error = cors_error(&cors(&["*"], &["BAD METHOD"], &[])).expect("should fail");
    assert_eq!(error, rust_agent::cors::CorsError::InvalidMethod { value: "BAD METHOD".to_string() });
}

#[test]
fn parses_cors_settings_in_order() {
    let settings = rust_agent::cors::parse_cors_settings(&cors(&["http://a", "http://b"], &["GET", "POST"], &["Content-Type"]))
        .expect("settings should parse");
    assert_eq!(settings.origins.len(), 2);
    assert_eq!(settings.origins[1], "http://b");
    assert_eq!(settings.methods[1].as_str(), "POST");
    assert_eq!(settings.headers[0].as_str(), "content-type");
}
