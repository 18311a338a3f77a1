//! The data that callers hand to the SDK: span and workflow descriptions,
//! usage and cost records, providers and instrumentation settings.

use crate::platform::{now_unix_micros, random_uuid};
use crate::string_map::StringMap;
use vstd::prelude::*;

verus! {

/// A binary64 floating-point number, held as its IEEE-754 bit pattern.
#[derive(Clone, Copy, Debug, PartialEq, Eq, Hash, Structural)]
pub struct Float64 {
    pub bits: u64,
}

/// The bit pattern of `1.0`.
pub const ONE_BITS: u64 = 0x3FF0_0000_0000_0000;

/// The bit pattern of `-0.0`.
pub const NEGATIVE_ZERO_BITS: u64 = 0x8000_0000_0000_0000;

impl Float64 {
    /// The number with the given bit pattern.
    pub fn from_bits(bits: u64) -> (r: Float64)
        ensures
            r.bits == bits,
    {
        Float64 { bits }
    }

    /// The bit pattern of the number.
    pub fn to_bits(&self) -> (r: u64)
        ensures
            r == self.bits,
    {
        self.bits
    }

    /// The number `0.0`.
    pub fn zero() -> (r: Float64)
        ensures
            r.bits == 0,
    {
        Float64 { bits: 0 }
    }

    /// The number `1.0`.
    pub fn one() -> (r: Float64)
        ensures
            r.bits == ONE_BITS,
    {
        Float64 { bits: ONE_BITS }
    }

    /// `0.0 <= x <= 1.0` for the number `x`. Non-negative numbers are ordered
    /// as their bit patterns, `-0.0` equals `0.0`, and NaN compares with
    /// nothing.
    pub open spec fn spec_in_unit_interval(&self) -> bool {
        self.bits <= ONE_BITS || self.bits == NEGATIVE_ZERO_BITS
    }

    /// Whether `0.0 <= x <= 1.0` for the number `x`.
    pub fn in_unit_interval(&self) -> (r: bool)
        ensures
            r == self.spec_in_unit_interval(),
    {
        self.bits <= ONE_BITS || self.bits == NEGATIVE_ZERO_BITS
    }
}

/// A point in time, in microseconds since the Unix epoch.
#[derive(Clone, Copy, Debug, PartialEq, Eq, Hash, Structural)]
pub struct Timestamp {
    pub unix_micros: i64,
}

/// The view of an optional string.
pub open spec fn opt_view(o: Option<String>) -> Option<Seq<char>> {
    match o {
        Some(s) => Some(s@),
        None => None,
    }
}

/// A copy of an optional string.
pub fn clone_opt(o: &Option<String>) -> (r: Option<String>)
    ensures
        opt_view(r) == opt_view(*o),
{
    match o {
        Some(s) => Some(s.clone()),
        None => None,
    }
}

/// The kinds of operation an LLM span can describe.
#[derive(Debug, Clone, Copy, PartialEq, Eq, Hash, Structural)]
pub enum LLMOperationType {
    Completion,
    Chat,
    Embedding,
    FineTune,
    ImageGeneration,
    AudioTranscription,
    AudioGeneration,
    Moderation,
    ToolUse,
}

impl LLMOperationType {
    /// The name under which the operation is reported.
    pub open spec fn spec_name(&self) -> Seq<char> {
        match self {
            LLMOperationType::Completion => "completion"@,
            LLMOperationType::Chat => "chat"@,
            LLMOperationType::Embedding => "embedding"@,
            LLMOperationType::FineTune => "fine_tune"@,
            LLMOperationType::ImageGeneration => "image_generation"@,
            LLMOperationType::AudioTranscription => "audio_transcription"@,
            LLMOperationType::AudioGeneration => "audio_generation"@,
            LLMOperationType::Moderation => "moderation"@,
            LLMOperationType::ToolUse => "tool_use"@,
        }
    }

    /// The name under which the operation is reported.
    pub fn to_string(&self) -> (r: String)
        ensures
            r@ == self.spec_name(),
    {
        let name = match self {
            LLMOperationType::Completion => "completion",
            LLMOperationType::Chat => "chat",
            LLMOperationType::Embedding => "embedding",
            LLMOperationType::FineTune => "fine_tune",
            LLMOperationType::ImageGeneration => "image_generation",
            LLMOperationType::AudioTranscription => "audio_transcription",
            LLMOperationType::AudioGeneration => "audio_generation",
            LLMOperationType::Moderation => "moderation",
            LLMOperationType::ToolUse => "tool_use",
        };
        name.to_owned()
    }
}

/// The description of an LLM call, turned into span attributes.
#[derive(Debug, Clone)]
pub struct LLMSpanOptions {
    pub provider: String,
    pub model: String,
    pub operation: LLMOperationType,
    pub prompt_tokens: Option<u32>,
    pub completion_tokens: Option<u32>,
    pub total_tokens: Option<u32>,
    pub temperature: Option<Float64>,
    pub top_p: Option<Float64>,
    pub max_tokens: Option<u32>,
    pub stream: Option<bool>,
    pub tools: Option<String>,
    pub tool_calls: Option<String>,
    pub duration_ms: Option<u64>,
    pub cost_prompt: Option<Float64>,
    pub cost_completion: Option<Float64>,
    pub cost_total: Option<Float64>,
    pub error: Option<String>,
    pub error_type: Option<String>,
    pub request_id: Option<String>,
    pub usage_reason: Option<String>,
    pub attributes: StringMap,
}

impl Default for LLMSpanOptions {
    fn default() -> (r: Self)
        ensures
            r.provider@ == Seq::<char>::empty(),
            r.model@ == Seq::<char>::empty(),
            r.operation == LLMOperationType::Chat,
            r.prompt_tokens is None,
            r.completion_tokens is None,
            r.total_tokens is None,
            r.temperature is None,
            r.top_p is None,
            r.max_tokens is None,
            r.stream is None,
            r.tools is None,
            r.tool_calls is None,
            r.duration_ms is None,
            r.cost_prompt is None,
            r.cost_completion is None,
            r.cost_total is None,
            r.error is None,
            r.error_type is None,
            r.request_id is None,
            r.usage_reason is None,
            r.attributes.spec_entries().len() == 0,
            r.attributes@ == Map::<Seq<char>, Seq<char>>::empty(),
    {
        LLMSpanOptions {
            provider: String::new(),
            model: String::new(),
            operation: LLMOperationType::Chat,
            prompt_tokens: None,
            completion_tokens: None,
            total_tokens: None,
            temperature: None,
            top_p: None,
            max_tokens: None,
            stream: None,
            tools: None,
            tool_calls: None,
            duration_ms: None,
            cost_prompt: None,
            cost_completion: None,
            cost_total: None,
            error: None,
            error_type: None,
            request_id: None,
            usage_reason: None,
            attributes: StringMap::new(),
        }
    }
}

/// The caller-supplied part of a new workflow.
#[derive(Debug, Clone)]
pub struct WorkflowOptions {
    pub user_id: Option<String>,
    pub session_id: Option<String>,
    pub version: Option<String>,
    pub parent_id: Option<String>,
    pub metadata: StringMap,
}

impl Default for WorkflowOptions {
    fn default() -> (r: Self)
        ensures
            r.user_id is None,
            r.session_id is None,
            r.version is None,
            r.parent_id is None,
            r.metadata.spec_entries().len() == 0,
            r.metadata@ == Map::<Seq<char>, Seq<char>>::empty(),
    {
        WorkflowOptions {
            user_id: None,
            session_id: None,
            version: None,
            parent_id: None,
            metadata: StringMap::new(),
        }
    }
}

/// Token usage of one LLM call.
#[derive(Debug, Clone)]
pub struct TokenUsage {
    pub prompt_tokens: u32,
    pub completion_tokens: u32,
    pub total_tokens: u32,
    pub model: String,
    pub provider: String,
}

/// The cost of one LLM call.
#[derive(Debug, Clone)]
pub struct Cost {
    pub prompt: Float64,
    pub completion: Float64,
    pub total: Float64,
    pub currency: String,
    pub model: String,
    pub provider: String,
}

/// The role of a span in a trace.
#[derive(Debug, Clone, Copy, PartialEq, Eq, Hash, Structural)]
pub enum SpanKind {
    Client,
    Server,
    Producer,
    Consumer,
    Internal,
}

/// The description of a generic span.
#[derive(Debug, Clone)]
pub struct SpanOptions {
    pub name: String,
    pub kind: SpanKind,
    pub attributes: StringMap,
}

impl Default for SpanOptions {
    fn default() -> (r: Self)
        ensures
            r.name@ == Seq::<char>::empty(),
            r.kind == SpanKind::Internal,
            r.attributes.spec_entries().len() == 0,
            r.attributes@ == Map::<Seq<char>, Seq<char>>::empty(),
    {
        SpanOptions { name: String::new(), kind: SpanKind::Internal, attributes: StringMap::new() }
    }
}

/// A unit of correlated work: identity fixed at creation, metadata and start
/// time.
#[derive(Debug)]
pub struct Workflow {
    pub id: String,
    pub name: String,
    pub run_id: String,
    pub user_id: Option<String>,
    pub session_id: Option<String>,
    pub version: Option<String>,
    pub parent_id: Option<String>,
    pub metadata: StringMap,
    pub start_time: Timestamp,
}

/// What a workflow holds, as mathematical values.
pub struct WorkflowModel {
    pub id: Seq<char>,
    pub name: Seq<char>,
    pub run_id: Seq<char>,
    pub user_id: Option<Seq<char>>,
    pub session_id: Option<Seq<char>>,
    pub version: Option<Seq<char>>,
    pub parent_id: Option<Seq<char>>,
    pub metadata: Map<Seq<char>, Seq<char>>,
    pub start_time: Timestamp,
}

impl View for Workflow {
    type V = WorkflowModel;

    open spec fn view(&self) -> WorkflowModel {
        WorkflowModel {
            id: self.id@,
            name: self.name@,
            run_id: self.run_id@,
            user_id: opt_view(self.user_id),
            session_id: opt_view(self.session_id),
            version: opt_view(self.version),
            parent_id: opt_view(self.parent_id),
            metadata: self.metadata@,
            start_time: self.start_time,
        }
    }
}

impl Workflow {
    /// A workflow with a fresh random identifier, started now.
    pub fn new(name: String, run_id: String, options: WorkflowOptions) -> (r: Workflow)
        ensures
            r.id@.len() == 36,
            r.name == name,
            r.run_id == run_id,
            r.user_id == options.user_id,
            r.session_id == options.session_id,
            r.version == options.version,
            r.parent_id == options.parent_id,
            r.metadata == options.metadata,
            r.start_time.unix_micros >= 0,
    {
        Workflow {
            id: random_uuid(),
            name,
            run_id,
            user_id: options.user_id,
            session_id: options.session_id,
            version: options.version,
            parent_id: options.parent_id,
            metadata: options.metadata,
            start_time: Timestamp { unix_micros: now_unix_micros() },
        }
    }

    /// The time in microseconds from the start of the workflow to `now`.
    pub fn duration_until(&self, now: Timestamp) -> (r: i128)
        ensures
            r == now.unix_micros - self.start_time.unix_micros,
    {
        now.unix_micros as i128 - self.start_time.unix_micros as i128
    }

    /// The time in microseconds since the workflow started.
    pub fn duration(&self) -> (r: i128)
        ensures
            r >= -self.start_time.unix_micros,
    {
        self.duration_until(Timestamp { unix_micros: now_unix_micros() })
    }
}

impl Clone for Workflow {
    fn clone(&self) -> (r: Self)
        ensures
            r@ == self@,
            r.metadata.spec_entries() == self.metadata.spec_entries(),
    {
        Workflow {
            id: self.id.clone(),
            name: self.name.clone(),
            run_id: self.run_id.clone(),
            user_id: clone_opt(&self.user_id),
            session_id: clone_opt(&self.session_id),
            version: clone_opt(&self.version),
            parent_id: clone_opt(&self.parent_id),
            metadata: self.metadata.clone(),
            start_time: self.start_time,
        }
    }
}

/// An LLM provider integration and whether it is enabled.
#[derive(Debug)]
pub struct Provider {
    pub name: String,
    pub version: String,
    pub enabled: bool,
}

impl View for Provider {
    type V = (Seq<char>, Seq<char>, bool);

    open spec fn view(&self) -> (Seq<char>, Seq<char>, bool) {
        (self.name@, self.version@, self.enabled)
    }
}

impl Clone for Provider {
    fn clone(&self) -> (r: Self)
        ensures
            r@ == self@,
    {
        Provider { name: self.name.clone(), version: self.version.clone(), enabled: self.enabled }
    }
}

/// Settings of the automatic instrumentation.
#[derive(Debug, Clone)]
pub struct InstrumentationConfig {
    pub providers: Vec<Provider>,
    pub auto_instrument: bool,
    pub capture_body: bool,
    pub capture_errors: bool,
}

impl Default for InstrumentationConfig {
    fn default() -> (r: Self)
        ensures
            r.providers@.len() == 0,
            r.auto_instrument,
            r.capture_body,
            r.capture_errors,
    {
        InstrumentationConfig {
            providers: Vec::new(),
            auto_instrument: true,
            capture_body: true,
            capture_errors: true,
        }
    }
}

} // verus!
