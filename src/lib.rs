//! LLM observability SDK: configuration, provider registry, workflow context and
//! the attribute lists that span and metric descriptions turn into.

pub mod attributes;
pub mod config;
pub mod context;
pub mod error;
pub mod instrumentation;
pub mod metrics;
mod platform;
pub mod provider;
pub mod string_map;
pub mod text;
pub mod tracer;
pub mod types;
pub mod untrace;
