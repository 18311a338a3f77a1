//! The attributes of the spans that the SDK starts.

use crate::attributes::helpers;
use crate::attributes::{
    attribute_views, entry_attributes, llm, opt_bool_attribute, opt_float_attribute,
    opt_integer_attribute, opt_string_attribute, prefixed_entry_attributes, push_attribute,
    push_entry_attributes, push_opt_bool, push_opt_float, push_opt_integer, push_opt_string,
    push_prefixed_entry_attributes, workflow, Attribute, ValueModel,
};
use crate::types::{opt_view, LLMSpanOptions, SpanOptions, Workflow};
use vstd::prelude::*;

verus! {

/// A count as a signed 64-bit integer.
pub open spec fn widen_u32(o: Option<u32>) -> Option<i64> {
    match o {
        Some(v) => Some(v as i64),
        None => None,
    }
}

/// A duration as a signed 64-bit integer, wrapping above `i64::MAX`.
pub open spec fn wrap_u64(o: Option<u64>) -> Option<i64> {
    match o {
        Some(v) => Some(v as i64),
        None => None,
    }
}

fn widen(o: Option<u32>) -> (r: Option<i64>)
    ensures
        r == widen_u32(o),
{
    match o {
        Some(v) => Some(v as i64),
        None => None,
    }
}

fn wrap(o: Option<u64>) -> (r: Option<i64>)
    ensures
        r == wrap_u64(o),
{
    match o {
        Some(v) => Some(#[verifier::truncate] (v as i64)),
        None => None,
    }
}

/// The attributes of an LLM span: provider, model and operation, then one for
/// each optional field that is present, then the custom attributes.
pub open spec fn llm_span_attribute_model(o: LLMSpanOptions) -> Seq<(Seq<char>, ValueModel)> {
    seq![
        ("llm.provider"@, ValueModel::Str(o.provider@)),
        ("llm.model"@, ValueModel::Str(o.model@)),
        ("llm.operation"@, ValueModel::Str(o.operation.spec_name())),
    ] + opt_integer_attribute("llm.prompt_tokens"@, widen_u32(o.prompt_tokens))
        + opt_integer_attribute("llm.completion_tokens"@, widen_u32(o.completion_tokens))
        + opt_integer_attribute("llm.total_tokens"@, widen_u32(o.total_tokens))
        + opt_float_attribute("llm.temperature"@, o.temperature) + opt_float_attribute(
        "llm.top_p"@,
        o.top_p,
    ) + opt_integer_attribute("llm.max_tokens"@, widen_u32(o.max_tokens)) + opt_bool_attribute(
        "llm.stream"@,
        o.stream,
    ) + opt_string_attribute("llm.tools"@, opt_view(o.tools)) + opt_string_attribute(
        "llm.tool_calls"@,
        opt_view(o.tool_calls),
    ) + opt_integer_attribute("llm.duration_ms"@, wrap_u64(o.duration_ms)) + opt_float_attribute(
        "llm.cost_prompt"@,
        o.cost_prompt,
    ) + opt_float_attribute("llm.cost_completion"@, o.cost_completion) + opt_float_attribute(
        "llm.cost_total"@,
        o.cost_total,
    ) + opt_string_attribute("llm.error"@, opt_view(o.error)) + opt_string_attribute(
        "llm.error_type"@,
        opt_view(o.error_type),
    ) + opt_string_attribute("llm.request_id"@, opt_view(o.request_id)) + opt_string_attribute(
        "llm.usage_reason"@,
        opt_view(o.usage_reason),
    ) + entry_attributes(o.attributes.spec_entries())
}

/// The attributes of an LLM span.
pub fn llm_span_attributes(options: &LLMSpanOptions) -> (r: Vec<Attribute>)
    ensures
        attribute_views(r@) == llm_span_attribute_model(*options),
{
    let mut out: Vec<Attribute> = Vec::new();
    let operation = options.operation.to_string();
    push_attribute(&mut out, helpers::string(llm::PROVIDER, options.provider.as_str()));
    push_attribute(&mut out, helpers::string(llm::MODEL, options.model.as_str()));
    push_attribute(&mut out, helpers::string(llm::OPERATION, operation.as_str()));
    assert(attribute_views(out@) =~= seq![
        ("llm.provider"@, ValueModel::Str(options.provider@)),
        ("llm.model"@, ValueModel::Str(options.model@)),
        ("llm.operation"@, ValueModel::Str(options.operation.spec_name())),
    ]);
    push_opt_integer(&mut out, llm::PROMPT_TOKENS, widen(options.prompt_tokens));
    push_opt_integer(&mut out, llm::COMPLETION_TOKENS, widen(options.completion_tokens));
    push_opt_integer(&mut out, llm::TOTAL_TOKENS, widen(options.total_tokens));
    push_opt_float(&mut out, llm::TEMPERATURE, options.temperature);
    push_opt_float(&mut out, llm::TOP_P, options.top_p);
    push_opt_integer(&mut out, llm::MAX_TOKENS, widen(options.max_tokens));
    push_opt_bool(&mut out, llm::STREAM, options.stream);
    push_opt_string(&mut out, llm::TOOLS, &options.tools);
    push_opt_string(&mut out, llm::TOOL_CALLS, &options.tool_calls);
    push_opt_integer(&mut out, llm::DURATION_MS, wrap(options.duration_ms));
    push_opt_float(&mut out, llm::COST_PROMPT, options.cost_prompt);
    push_opt_float(&mut out, llm::COST_COMPLETION, options.cost_completion);
    push_opt_float(&mut out, llm::COST_TOTAL, options.cost_total);
    push_opt_string(&mut out, llm::ERROR, &options.error);
    push_opt_string(&mut out, llm::ERROR_TYPE, &options.error_type);
    push_opt_string(&mut out, llm::REQUEST_ID, &options.request_id);
    push_opt_string(&mut out, llm::USAGE_REASON, &options.usage_reason);
    push_entry_attributes(&mut out, &options.attributes);
    out
}

/// The attributes of a workflow span: identity, then each optional identifier
/// that is present, then one `workflow.metadata.<key>` attribute per metadata
/// entry.
pub open spec fn workflow_span_attribute_model(w: Workflow) -> Seq<(Seq<char>, ValueModel)> {
    seq![
        ("workflow.id"@, ValueModel::Str(w.id@)),
        ("workflow.name"@, ValueModel::Str(w.name@)),
        ("workflow.run_id"@, ValueModel::Str(w.run_id@)),
    ] + opt_string_attribute("workflow.user_id"@, opt_view(w.user_id)) + opt_string_attribute(
        "workflow.session_id"@,
        opt_view(w.session_id),
    ) + opt_string_attribute("workflow.version"@, opt_view(w.version)) + opt_string_attribute(
        "workflow.parent_id"@,
        opt_view(w.parent_id),
    ) + prefixed_entry_attributes("workflow.metadata."@, w.metadata.spec_entries())
}

/// The attributes of a workflow span.
pub fn workflow_span_attributes(workflow: &Workflow) -> (r: Vec<Attribute>)
    ensures
        attribute_views(r@) == workflow_span_attribute_model(*workflow),
{
    let mut out: Vec<Attribute> = Vec::new();
    push_attribute(&mut out, helpers::string(workflow::ID, workflow.id.as_str()));
    push_attribute(&mut out, helpers::string(workflow::NAME, workflow.name.as_str()));
    push_attribute(&mut out, helpers::string(workflow::RUN_ID, workflow.run_id.as_str()));
    assert(attribute_views(out@) =~= seq![
        ("workflow.id"@, ValueModel::Str(workflow.id@)),
        ("workflow.name"@, ValueModel::Str(workflow.name@)),
        ("workflow.run_id"@, ValueModel::Str(workflow.run_id@)),
    ]);
    push_opt_string(&mut out, workflow::USER_ID, &workflow.user_id);
    push_opt_string(&mut out, workflow::SESSION_ID, &workflow.session_id);
    push_opt_string(&mut out, workflow::VERSION, &workflow.version);
    push_opt_string(&mut out, workflow::PARENT_ID, &workflow.parent_id);
    push_prefixed_entry_attributes(&mut out, "workflow.metadata.", &workflow.metadata);
    out
}

/// The attributes of a generic span: one for each custom attribute.
pub fn span_attributes(options: &SpanOptions) -> (r: Vec<Attribute>)
    ensures
        attribute_views(r@) == entry_attributes(options.attributes.spec_entries()),
{
    crate::attributes::map_attributes(&options.attributes)
}

} // verus!
