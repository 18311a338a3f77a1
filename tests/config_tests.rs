use untrace::config::{Config, Interval};
use untrace::error::UntraceError;
use untrace::string_map::StringMap;
use untrace::types::Float64;

fn rate(x: f64) -> Float64 {
    Float64::from_bits(x.to_bits())
}

fn env(pairs: &[(&str, &str)]) -> StringMap {
    let mut vars = StringMap::new();
    for (k, v) in pairs {
        vars.insert(k.to_string(), v.to_string());
    }
    vars
}

fn validation_message(config: &Config) -> Option<String> {
    match config.validate() {
        Ok(()) => None,
        Err(UntraceError::Validation { message }) => Some(message),
        Err(other) => panic!("unexpected error kind: {:?}", other),
    }
}

#[test]
fn defaults_of_new_config() {
    let config = Config::new("key".to_string());
    assert_eq!(config.base_url, "https://untrace.dev");
    assert_eq!(config.service_version, "0.1.0");
    assert_eq!(config.environment, "production");
    assert!(!config.debug);
    assert_eq!(config.max_batch_size, 512);
    assert_eq!(config.export_interval.as_secs(), 5);
    assert_eq!(config.export_interval.subsec_nanos(), 0);
    assert!(config.capture_body);
    assert!(config.capture_errors);
    assert!(!config.disable_auto_instrumentation);
    assert_eq!(config.providers, vec!["all".to_string()]);
    assert_eq!(config.headers.len(), 0);
    assert_eq!(config.resource_attributes.len(), 0);
}

#[test]
fn valid_settings_pass_validation() {
    for r in [0.0, 0.25, 0.5, 1.0] {
        let config = Config::new("k".to_string()).with_sampling_rate(rate(r));
        assert!(config.validate().is_ok(), "rate {}", r);
    }
    let mut config = Config::new("another-key".to_string());
    config.max_batch_size = 1;
    config.export_interval = Interval::new(0, 1);
    assert!(config.validate().is_ok());
}

#[test]
fn empty_api_key_is_a_validation_error() {
    let config = Config::new(String::new());
    assert_eq!(validation_message(&config), Some("API key cannot be empty".to_string()));
}

#[test]
fn sampling_rate_bounds_are_inclusive() {
    for bad in [-0.1, 1.1, f64::NAN, f64::INFINITY, -1.0] {
        let config = Config::new("k".to_string()).with_sampling_rate(rate(bad));
        assert_eq!(
            validation_message(&config),
            Some("Sampling rate must be between 0.0 and 1.0".to_string()),
            "rate {}",
            bad
        );
    }
    for good in [0.0, -0.0, 1.0, f64::MIN_POSITIVE] {
        let config = Config::new("k".to_string()).with_sampling_rate(rate(good));
        assert!(config.validate().is_ok(), "rate {}", good);
    }
}

#[test]
fn zero_batch_size_and_interval_fail_validation() {
    let mut config = Config::new("k".to_string());
    config.max_batch_size = 0;
    assert_eq!(
        validation_message(&config),
        Some("Max batch size must be greater than 0".to_string())
    );
    let mut config = Config::new("k".to_string());
    config.export_interval = Interval::from_secs(0);
    assert_eq!(
        validation_message(&config),
        Some("Export interval must be greater than 0".to_string())
    );
}

#[test]
fn first_broken_rule_is_reported() {
    let mut config = Config::new(String::new()).with_sampling_rate(rate(2.0));
    config.max_batch_size = 0;
    assert_eq!(validation_message(&config), Some("API key cannot be empty".to_string()));
}

#[test]
fn builders_set_one_field() {
    let config = Config::new("k".to_string())
        .with_service_name("svc".to_string())
        .with_service_version("2.0".to_string())
        .with_environment("dev".to_string())
        .with_debug(true)
        .with_base_url("http://localhost".to_string())
        .with_header("a".to_string(), "1".to_string())
        .with_header("a".to_string(), "2".to_string())
        .with_resource_attribute("team".to_string(), "x".to_string())
        .with_providers(vec!["openai".to_string()]);
    assert_eq!(config.service_name, "svc");
    assert_eq!(config.service_version, "2.0");
    assert_eq!(config.environment, "dev");
    assert!(config.debug);
    assert_eq!(config.base_url, "http://localhost");
    assert_eq!(config.headers.len(), 1);
    assert_eq!(config.headers.get("a").map(|s| s.as_str()), Some("2"));
    assert_eq!(config.resource_attributes.get("team").map(|s| s.as_str()), Some("x"));
    assert_eq!(config.providers, vec!["openai".to_string()]);
    assert_eq!(config.api_key, "k");
}

#[test]
fn env_sampling_rate_round_trip() {
    let vars = env(&[("UNTRACE_API_KEY", "k"), ("UNTRACE_SAMPLING_RATE", "0.5")]);
    let parsed = "0.5".parse::<f64>().ok().map(rate);
    let config = Config::from_env(&vars, parsed).unwrap();
    assert_eq!(f64::from_bits(config.sampling_rate.to_bits()), 0.5);
}

#[test]
fn env_unparsable_sampling_rate_falls_back_to_one() {
    let vars = env(&[("UNTRACE_API_KEY", "k"), ("UNTRACE_SAMPLING_RATE", "notanumber")]);
    let parsed = "notanumber".parse::<f64>().ok().map(rate);
    assert!(parsed.is_none());
    let config = Config::from_env(&vars, parsed).unwrap();
    assert_eq!(f64::from_bits(config.sampling_rate.to_bits()), 1.0);
}

#[test]
fn env_without_api_key_is_a_config_error() {
    let vars = env(&[("UNTRACE_SERVICE_NAME", "svc")]);
    match Config::from_env(&vars, None) {
        Err(UntraceError::Config { message }) => {
            assert_eq!(message, "UNTRACE_API_KEY environment variable is required")
        }
        other => panic!("unexpected result: {:?}", other),
    }
}

#[test]
fn env_overrides_each_setting() {
    let vars = env(&[
        ("UNTRACE_API_KEY", "secret-key"),
        ("UNTRACE_BASE_URL", "http://collector"),
        ("UNTRACE_SERVICE_NAME", "svc"),
        ("UNTRACE_SERVICE_VERSION", "9.9"),
        ("UNTRACE_ENVIRONMENT", "staging"),
        ("UNTRACE_DEBUG", "true"),
        ("UNTRACE_MAX_BATCH_SIZE", "+64"),
        ("UNTRACE_EXPORT_INTERVAL", "30"),
        ("UNTRACE_CAPTURE_BODY", "false"),
        ("UNTRACE_CAPTURE_ERRORS", "false"),
        ("UNTRACE_DISABLE_AUTO_INSTRUMENTATION", "true"),
        ("UNTRACE_PROVIDERS", " openai , anthropic,,cohere "),
    ]);
    let config = Config::from_env(&vars, None).unwrap();
    assert_eq!(config.api_key, "secret-key");
    assert_eq!(config.base_url, "http://collector");
    assert_eq!(config.service_name, "svc");
    assert_eq!(config.service_version, "9.9");
    assert_eq!(config.environment, "staging");
    assert!(config.debug);
    assert_eq!(config.max_batch_size, 64);
    assert_eq!(config.export_interval.as_secs(), 30);
    assert!(!config.capture_body);
    assert!(!config.capture_errors);
    assert!(config.disable_auto_instrumentation);
    assert_eq!(config.providers, vec!["openai", "anthropic", "", "cohere"]);
    assert_eq!(f64::from_bits(config.sampling_rate.to_bits()), 1.0);
}

#[test]
fn env_unreadable_values_fall_back_to_defaults() {
    let vars = env(&[
        ("UNTRACE_API_KEY", "k"),
        ("UNTRACE_DEBUG", "yes"),
        ("UNTRACE_MAX_BATCH_SIZE", "-5"),
        ("UNTRACE_EXPORT_INTERVAL", "99999999999999999999"),
        ("UNTRACE_CAPTURE_BODY", "TRUE"),
        ("UNTRACE_CAPTURE_ERRORS", ""),
        ("UNTRACE_DISABLE_AUTO_INSTRUMENTATION", "1"),
    ]);
    let config = Config::from_env(&vars, None).unwrap();
    assert!(!config.debug);
    assert_eq!(config.max_batch_size, 512);
    assert_eq!(config.export_interval.as_secs(), 5);
    assert!(config.capture_body);
    assert!(config.capture_errors);
    assert!(!config.disable_auto_instrumentation);
    assert_eq!(config.providers, vec!["all".to_string()]);
}

#[test]
fn env_largest_export_interval() {
    let vars = env(&[("UNTRACE_API_KEY", "k"), ("UNTRACE_EXPORT_INTERVAL", "18446744073709551615")]);
    let config = Config::from_env(&vars, None).unwrap();
    assert_eq!(config.export_interval.as_secs(), u64::MAX);
}

#[test]
fn env_zero_batch_size_is_read_then_rejected() {
    let vars = env(&[("UNTRACE_API_KEY", "k"), ("UNTRACE_MAX_BATCH_SIZE", "0")]);
    let config = Config::from_env(&vars, None).unwrap();
    assert_eq!(config.max_batch_size, 0);
    assert!(config.validate().is_err());
}
