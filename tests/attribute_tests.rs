use untrace::attributes::{
    create_framework_attributes, create_llm_attributes, create_vector_db_attributes,
    create_workflow_attributes, helpers, llm, merge_attributes, sanitize_attributes, workflow,
    Attribute, AttributeValue,
};
use untrace::metrics::{cost_attributes, error_attributes, latency_attributes, token_usage_amount, token_usage_attributes};
use untrace::string_map::StringMap;
use untrace::tracer::{llm_span_attributes, span_attributes, workflow_span_attributes};
use untrace::types::{
    Cost, Float64, LLMOperationType, LLMSpanOptions, SpanKind, SpanOptions, TokenUsage, Workflow,
    WorkflowOptions,
};
use untrace::untrace::{resource_attributes, UntraceCore};
use untrace::config::Config;

fn map(pairs: &[(&str, &str)]) -> StringMap {
    let mut m = StringMap::new();
    for (k, v) in pairs {
        m.insert(k.to_string(), v.to_string());
    }
    m
}

fn as_text(attrs: &[Attribute]) -> Vec<String> {
    attrs
        .iter()
        .map(|a| match &a.value {
            AttributeValue::Str(s) => format!("{}={}", a.key, s),
            AttributeValue::Int(i) => format!("{}={}i", a.key, i),
            AttributeValue::Bool(b) => format!("{}={}b", a.key, b),
            AttributeValue::Float(f) => format!("{}={}f", a.key, f64::from_bits(f.to_bits())),
        })
        .collect()
}

#[test]
fn key_constants() {
    assert_eq!(llm::PROVIDER, "llm.provider");
    assert_eq!(llm::USAGE_REASON, "llm.usage_reason");
    assert_eq!(workflow::METADATA, "workflow.metadata");
    assert_eq!(untrace::attributes::vector_db::SIMILARITY_THRESHOLD, "vector_db.similarity_threshold");
    assert_eq!(untrace::attributes::framework::STATUS_CODE, "framework.status_code");
}

#[test]
fn string_map_keeps_insertion_order_and_replaces_in_place() {
    let mut m = map(&[("b", "1"), ("a", "2")]);
    m.insert("b".to_string(), "3".to_string());
    let keys: Vec<&str> = m.entries().iter().map(|e| e.0.as_str()).collect();
    assert_eq!(keys, vec!["b", "a"]);
    assert_eq!(m.get("b").map(|s| s.as_str()), Some("3"));
    assert!(m.contains_key("a"));
    assert!(!m.contains_key("c"));
    assert!(m.get("c").is_none());
    let copy = m.clone();
    assert_eq!(copy.len(), 2);
    assert_eq!(copy.get("a").map(|s| s.as_str()), Some("2"));
}

#[test]
fn sanitize_redacts_sensitive_keys_only() {
    let mut attrs = map(&[("password", "hunter2"), ("user", "bob"), ("api_key", "abc"), ("Token", "t")]);
    sanitize_attributes(&mut attrs);
    assert_eq!(attrs.get("password").map(|s| s.as_str()), Some("[REDACTED]"));
    assert_eq!(attrs.get("api_key").map(|s| s.as_str()), Some("[REDACTED]"));
    assert_eq!(attrs.get("user").map(|s| s.as_str()), Some("bob"));
    assert_eq!(attrs.get("Token").map(|s| s.as_str()), Some("t"));
    assert!(!attrs.contains_key("secret"));
    assert_eq!(attrs.len(), 4);
}

#[test]
fn merge_prefers_other() {
    let merged = merge_attributes(map(&[("a", "1"), ("b", "2")]), map(&[("b", "3"), ("c", "4")]));
    assert_eq!(merged.len(), 3);
    assert_eq!(merged.get("a").map(|s| s.as_str()), Some("1"));
    assert_eq!(merged.get("b").map(|s| s.as_str()), Some("3"));
    assert_eq!(merged.get("c").map(|s| s.as_str()), Some("4"));
    let empty = merge_attributes(StringMap::new(), StringMap::new());
    assert_eq!(empty.len(), 0);
}

#[test]
fn helpers_build_values() {
    assert_eq!(as_text(&[helpers::string("k", "v")]), vec!["k=v"]);
    assert_eq!(as_text(&[helpers::integer("n", -7)]), vec!["n=-7i"]);
    assert_eq!(as_text(&[helpers::bool("b", false)]), vec!["b=falseb"]);
    assert_eq!(as_text(&[helpers::float("f", Float64::from_bits(0.25f64.to_bits()))]), vec!["f=0.25f"]);
    assert_eq!(
        as_text(&[helpers::string_slice("s", vec!["x".to_string(), "".to_string(), "y".to_string()])]),
        vec!["s=x,,y"]
    );
    assert_eq!(as_text(&[helpers::string_slice("s", vec![])]), vec!["s="]);
    assert_eq!(
        as_text(&[helpers::int_slice("i", vec![1, -20, 0, i64::MIN, i64::MAX])]),
        vec!["i=1,-20,0,-9223372036854775808,9223372036854775807"]
    );
}

#[test]
fn map_attribute_builders() {
    let attrs = map(&[("x", "1"), ("y", "2")]);
    for built in [
        create_llm_attributes(&attrs),
        create_vector_db_attributes(&attrs),
        create_framework_attributes(&attrs),
        create_workflow_attributes(&attrs),
    ] {
        assert_eq!(as_text(&built), vec!["x=1", "y=2"]);
    }
}

#[test]
fn llm_span_attributes_in_order() {
    let mut options = LLMSpanOptions::default();
    options.provider = "openai".to_string();
    options.model = "gpt".to_string();
    options.operation = LLMOperationType::Embedding;
    options.prompt_tokens = Some(10);
    options.total_tokens = Some(15);
    options.temperature = Some(Float64::from_bits(0.5f64.to_bits()));
    options.stream = Some(true);
    options.duration_ms = Some(u64::MAX);
    options.error = Some("boom".to_string());
    options.attributes = map(&[("custom", "c")]);
    assert_eq!(
        as_text(&llm_span_attributes(&options)),
        vec![
            "llm.provider=openai",
            "llm.model=gpt",
            "llm.operation=embedding",
            "llm.prompt_tokens=10i",
            "llm.total_tokens=15i",
            "llm.temperature=0.5f",
            "llm.stream=trueb",
            "llm.duration_ms=-1i",
            "llm.error=boom",
            "custom=c",
        ]
    );
    assert_eq!(
        as_text(&llm_span_attributes(&LLMSpanOptions::default())),
        vec!["llm.provider=", "llm.model=", "llm.operation=chat"]
    );
}

#[test]
fn workflow_span_attributes_prefix_metadata() {
    let options = WorkflowOptions {
        user_id: Some("u".to_string()),
        session_id: None,
        version: Some("v1".to_string()),
        parent_id: None,
        metadata: map(&[("team", "core")]),
    };
    let w = Workflow::new("name".to_string(), "run".to_string(), options);
    let text = as_text(&workflow_span_attributes(&w));
    assert_eq!(text[0], format!("workflow.id={}", w.id));
    assert_eq!(
        text[1..].to_vec(),
        vec![
            "workflow.name=name",
            "workflow.run_id=run",
            "workflow.user_id=u",
            "workflow.version=v1",
            "workflow.metadata.team=core",
        ]
    );
}

#[test]
fn generic_span_attributes() {
    let options = SpanOptions::default();
    assert_eq!(options.kind, SpanKind::Internal);
    assert!(span_attributes(&options).is_empty());
    let options = SpanOptions { name: "n".to_string(), kind: SpanKind::Client, attributes: map(&[("a", "b")]) };
    assert_eq!(as_text(&span_attributes(&options)), vec!["a=b"]);
}

#[test]
fn metric_attributes() {
    let usage = TokenUsage {
        prompt_tokens: 1,
        completion_tokens: 2,
        total_tokens: 3,
        model: "m".to_string(),
        provider: "p".to_string(),
    };
    assert_eq!(as_text(&token_usage_attributes(&usage)), vec!["provider=p", "model=m"]);
    assert_eq!(token_usage_amount(&usage), 3);
    let cost = Cost {
        prompt: Float64::zero(),
        completion: Float64::zero(),
        total: Float64::one(),
        currency: "USD".to_string(),
        model: "m".to_string(),
        provider: "p".to_string(),
    };
    assert_eq!(as_text(&cost_attributes(&cost)), vec!["provider=p", "model=m", "currency=USD"]);
    assert_eq!(
        as_text(&error_attributes("timeout", &map(&[("route", "/x")]))),
        vec!["error_type=timeout", "route=/x"]
    );
    assert_eq!(as_text(&latency_attributes(&map(&[("op", "chat")]))), vec!["op=chat"]);
}

#[test]
fn resource_attributes_and_core() {
    let config = Config::new("k".to_string())
        .with_service_name("svc".to_string())
        .with_resource_attribute("region".to_string(), "eu".to_string());
    assert_eq!(
        as_text(&resource_attributes(&config)),
        vec!["service.name=svc", "service.version=0.1.0", "service.environment=production", "region=eu"]
    );
    let core = UntraceCore::new(config).unwrap();
    assert!(core.instrumentation().is_enabled());
    assert_eq!(core.provider_registry().get_all().len(), 6);
    assert!(core.provider_registry().is_enabled("openai"));
    assert_eq!(core.resource_attributes().len(), 4);
    assert_eq!(core.config().service_name, "svc");

    let mut off = Config::new("k".to_string());
    off.disable_auto_instrumentation = true;
    assert!(!UntraceCore::new(off).unwrap().instrumentation().is_enabled());
    assert!(UntraceCore::new(Config::new(String::new())).is_err());
}
