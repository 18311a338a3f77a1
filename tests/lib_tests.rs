use untrace::attributes::helpers;
use untrace::config::Config;
use untrace::error::UntraceError;
use untrace::provider::ProviderRegistry;
use untrace::types::{LLMOperationType, Provider, Workflow, WorkflowOptions};

#[test]
fn test_config_creation() {
    let config = Config::new("test-api-key".to_string());
    assert_eq!(config.api_key, "test-api-key");
    assert_eq!(config.service_name, "untrace-app");
    assert_eq!(f64::from_bits(config.sampling_rate.to_bits()), 1.0);
}

#[test]
fn test_config_validation() {
    let config = Config::new("".to_string());
    assert!(config.validate().is_err());

    let config = Config::new("valid-key".to_string());
    assert!(config.validate().is_ok());
}

#[test]
fn test_llm_operation_type_display() {
    assert_eq!(LLMOperationType::Chat.to_string(), "chat");
    assert_eq!(LLMOperationType::Completion.to_string(), "completion");
    assert_eq!(LLMOperationType::Embedding.to_string(), "embedding");
}

#[test]
fn test_workflow_creation() {
    let options = WorkflowOptions::default();
    let workflow = Workflow::new("test-workflow".to_string(), "run-123".to_string(), options);

    assert_eq!(workflow.name, "test-workflow");
    assert_eq!(workflow.run_id, "run-123");
    assert!(!workflow.id.is_empty());
}

#[test]
fn test_provider_registry() {
    let mut registry = ProviderRegistry::new();
    let provider = Provider {
        name: "test-provider".to_string(),
        version: "1.0.0".to_string(),
        enabled: true,
    };

    registry.register(provider);
    assert!(registry.get("test-provider").is_some());
    assert!(registry.is_enabled("test-provider"));
}

#[test]
fn test_attributes_helpers() {
    let string_attr = helpers::string("test_key", "test_value");
    assert_eq!(string_attr.key.as_str(), "test_key");

    let int_attr = helpers::integer("test_int", 42);
    assert_eq!(int_attr.key.as_str(), "test_int");

    let bool_attr = helpers::bool("test_bool", true);
    assert_eq!(bool_attr.key.as_str(), "test_bool");
}

#[test]
fn test_error_types() {
    let config_error = UntraceError::config("test error");
    assert!(matches!(config_error, UntraceError::Config { .. }));

    let validation_error = UntraceError::validation("test error");
    assert!(matches!(validation_error, UntraceError::Validation { .. }));

    let api_error = UntraceError::api("test error");
    assert!(matches!(api_error, UntraceError::Api { .. }));
}
