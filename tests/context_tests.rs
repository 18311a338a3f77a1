use untrace::context::UntraceContext;
use untrace::string_map::StringMap;
use untrace::types::{Timestamp, WorkflowOptions};

#[test]
fn start_then_get_returns_started_workflow() {
    let mut context = UntraceContext::new();
    assert!(context.get_current_workflow().is_none());
    let started = context
        .start_workflow("w1".to_string(), "r1".to_string(), WorkflowOptions::default())
        .unwrap();
    let current = context.get_current_workflow().unwrap();
    assert_eq!(current.name, "w1");
    assert_eq!(current.run_id, "r1");
    assert!(!current.id.is_empty());
    assert_eq!(current.id, started.id);
    assert_eq!(current.id.len(), 36);
}

#[test]
fn second_start_replaces_first() {
    let mut context = UntraceContext::new();
    let first = context
        .start_workflow("w1".to_string(), "r1".to_string(), WorkflowOptions::default())
        .unwrap();
    let second = context
        .start_workflow("w2".to_string(), "r2".to_string(), WorkflowOptions::default())
        .unwrap();
    let current = context.get_current_workflow().unwrap();
    assert_eq!(current.name, "w2");
    assert_eq!(current.run_id, "r2");
    assert_eq!(current.id, second.id);
    assert_ne!(first.id, second.id);
}

#[test]
fn end_clears_and_is_idempotent() {
    let mut context = UntraceContext::new();
    context
        .start_workflow("w".to_string(), "r".to_string(), WorkflowOptions::default())
        .unwrap();
    assert!(context.end_current_workflow().is_ok());
    assert!(context.get_current_workflow().is_none());
    assert!(context.end_current_workflow().is_ok());
    assert!(context.get_current_workflow().is_none());
}

#[test]
fn options_are_carried_into_the_workflow() {
    let mut metadata = StringMap::new();
    metadata.insert("tier".to_string(), "gold".to_string());
    let options = WorkflowOptions {
        user_id: Some("u".to_string()),
        session_id: Some("s".to_string()),
        version: None,
        parent_id: Some("p".to_string()),
        metadata,
    };
    let mut context = UntraceContext::new();
    let workflow = context.start_workflow("w".to_string(), "r".to_string(), options).unwrap();
    assert_eq!(workflow.user_id.as_deref(), Some("u"));
    assert_eq!(workflow.session_id.as_deref(), Some("s"));
    assert_eq!(workflow.version, None);
    assert_eq!(workflow.parent_id.as_deref(), Some("p"));
    assert_eq!(workflow.metadata.get("tier").map(|s| s.as_str()), Some("gold"));
    assert!(workflow.start_time.unix_micros > 1_500_000_000_000_000);
}

#[test]
fn attributes_are_set_on_the_current_workflow() {
    let mut context = UntraceContext::new();
    assert!(context.set_attribute("k".to_string(), "v".to_string()).is_ok());
    assert!(context.get_current_workflow().is_none());

    context
        .start_workflow("w".to_string(), "r".to_string(), WorkflowOptions::default())
        .unwrap();
    context.set_attribute("k".to_string(), "v".to_string()).unwrap();
    let mut more = StringMap::new();
    more.insert("k".to_string(), "v2".to_string());
    more.insert("other".to_string(), "x".to_string());
    context.set_attributes(more).unwrap();
    let current = context.get_current_workflow().unwrap();
    assert_eq!(current.metadata.get("k").map(|s| s.as_str()), Some("v2"));
    assert_eq!(current.metadata.get("other").map(|s| s.as_str()), Some("x"));
    assert_eq!(current.metadata.len(), 2);
    assert_eq!(current.name, "w");
}

#[test]
fn run_ids_are_fresh() {
    let context = UntraceContext::new();
    let a = context.generate_run_id();
    let b = context.generate_run_id();
    assert_eq!(a.len(), 36);
    assert_ne!(a, b);
}

#[test]
fn workflow_duration() {
    let mut context = UntraceContext::new();
    let workflow = context
        .start_workflow("w".to_string(), "r".to_string(), WorkflowOptions::default())
        .unwrap();
    let later = Timestamp { unix_micros: workflow.start_time.unix_micros + 2_500 };
    assert_eq!(workflow.duration_until(later), 2_500);
    assert!(workflow.duration() >= 0);
}
