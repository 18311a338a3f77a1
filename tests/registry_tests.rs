use untrace::error::UntraceError;
use untrace::instrumentation::{new_instrumentation, Instrumentation};
use untrace::provider::{get_default_providers, register_default_providers, ProviderRegistry};
use untrace::types::{InstrumentationConfig, Provider};

fn provider(name: &str, version: &str, enabled: bool) -> Provider {
    Provider { name: name.to_string(), version: version.to_string(), enabled }
}

#[test]
fn register_disable_and_unknown_names() {
    let mut registry = ProviderRegistry::new();
    registry.register(provider("openai", "1.0.0", true));
    assert!(registry.is_enabled("openai"));
    assert!(registry.disable("openai").is_ok());
    assert!(!registry.is_enabled("openai"));
    match registry.disable("nonexistent") {
        Err(UntraceError::Instrumentation { message }) => {
            assert_eq!(message, "Provider 'nonexistent' not found")
        }
        other => panic!("unexpected result: {:?}", other),
    }
    assert!(matches!(registry.enable("missing"), Err(UntraceError::Instrumentation { .. })));
    assert!(registry.enable("openai").is_ok());
    assert!(registry.is_enabled("openai"));
    assert!(registry.enable("openai").is_ok());
    assert!(registry.is_enabled("openai"));
}

#[test]
fn register_replaces_same_name() {
    let mut registry = ProviderRegistry::default();
    registry.register(provider("a", "1", true));
    registry.register(provider("b", "1", false));
    registry.register(provider("a", "2", false));
    let all = registry.get_all();
    assert_eq!(all.len(), 2);
    assert_eq!(all[0].name, "a");
    assert_eq!(all[0].version, "2");
    assert!(!all[0].enabled);
    assert_eq!(all[1].name, "b");
    assert_eq!(registry.get("a").unwrap().version, "2");
    assert!(registry.get("c").is_none());
    assert!(!registry.is_enabled("c"));
}

#[test]
fn enabled_providers_keep_order() {
    let mut registry = ProviderRegistry::new();
    registry.register(provider("x", "1", true));
    registry.register(provider("y", "1", false));
    registry.register(provider("z", "1", true));
    let names: Vec<&str> = registry.get_enabled().iter().map(|p| p.name.as_str()).collect();
    assert_eq!(names, vec!["x", "z"]);
    assert!(ProviderRegistry::new().get_enabled().is_empty());
}

#[test]
fn default_providers_are_registered_enabled() {
    let defaults = get_default_providers();
    let names: Vec<&str> = defaults.iter().map(|p| p.name.as_str()).collect();
    assert_eq!(names, vec!["openai", "anthropic", "google", "microsoft", "aws", "cohere"]);
    assert!(defaults.iter().all(|p| p.version == "1.0.0" && p.enabled));

    let mut registry = ProviderRegistry::new();
    registry.register(provider("google", "0.1", false));
    registry.register(provider("local", "0.1", true));
    register_default_providers(&mut registry);
    assert_eq!(registry.get_all().len(), 7);
    assert!(registry.is_enabled("google"));
    assert_eq!(registry.get("google").unwrap().version, "1.0.0");
    assert!(registry.is_enabled("local"));
    assert!(registry.is_enabled("cohere"));
}

#[test]
fn instrumentation_switch() {
    let mut instrumentation = new_instrumentation();
    assert!(!instrumentation.is_enabled());
    assert!(instrumentation.config().auto_instrument);
    assert!(instrumentation.config().capture_body);
    assert!(instrumentation.config().capture_errors);
    assert!(instrumentation.config().providers.is_empty());
    assert!(instrumentation.enable().is_ok());
    assert!(instrumentation.enable().is_ok());
    assert!(instrumentation.is_enabled());
    assert!(instrumentation.disable().is_ok());
    assert!(instrumentation.disable().is_ok());
    assert!(!instrumentation.is_enabled());

    let mut other = Instrumentation::new(InstrumentationConfig {
        providers: vec![provider("openai", "1.0.0", true)],
        auto_instrument: false,
        capture_body: false,
        capture_errors: true,
    });
    assert_eq!(other.config().providers.len(), 1);
    other.enable().unwrap();
    other.update_config(InstrumentationConfig::default());
    assert!(other.is_enabled());
    assert!(other.config().auto_instrument);
    assert!(other.config().providers.is_empty());
}
