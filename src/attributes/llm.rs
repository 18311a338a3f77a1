//! Keys of LLM call attributes.

use vstd::prelude::*;

verus! {

pub const PROVIDER: &'static str = "llm.provider";
pub const MODEL: &'static str = "llm.model";
pub const OPERATION: &'static str = "llm.operation";
pub const PROMPT_TOKENS: &'static str = "llm.prompt_tokens";
pub const COMPLETION_TOKENS: &'static str = "llm.completion_tokens";
pub const TOTAL_TOKENS: &'static str = "llm.total_tokens";
pub const TEMPERATURE: &'static str = "llm.temperature";
pub const TOP_P: &'static str = "llm.top_p";
pub const MAX_TOKENS: &'static str = "llm.max_tokens";
pub const STREAM: &'static str = "llm.stream";
pub const TOOLS: &'static str = "llm.tools";
pub const TOOL_CALLS: &'static str = "llm.tool_calls";
pub const DURATION_MS: &'static str = "llm.duration_ms";
pub const COST_PROMPT: &'static str = "llm.cost_prompt";
pub const COST_COMPLETION: &'static str = "llm.cost_completion";
pub const COST_TOTAL: &'static str = "llm.cost_total";
pub const ERROR: &'static str = "llm.error";
pub const ERROR_TYPE: &'static str = "llm.error_type";
pub const REQUEST_ID: &'static str = "llm.request_id";
pub const USAGE_REASON: &'static str = "llm.usage_reason";

} // verus!
