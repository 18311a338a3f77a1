//! The attributes of the metric records that the SDK emits.

use crate::attributes::helpers;
use crate::attributes::{
    attribute_views, entry_attributes, push_attribute, push_entry_attributes, Attribute,
    ValueModel,
};
use crate::string_map::StringMap;
use crate::types::{Cost, TokenUsage};
use vstd::prelude::*;

verus! {

pub const TOKEN_USAGE_METRIC: &'static str = "untrace.token_usage";
pub const COST_METRIC: &'static str = "untrace.cost";
pub const LATENCY_METRIC: &'static str = "untrace.latency";
pub const ERRORS_METRIC: &'static str = "untrace.errors";

/// The attributes of a token usage record: provider and model.
pub fn token_usage_attributes(usage: &TokenUsage) -> (r: Vec<Attribute>)
    ensures
        attribute_views(r@) == seq![
            ("provider"@, ValueModel::Str(usage.provider@)),
            ("model"@, ValueModel::Str(usage.model@)),
        ],
{
    let mut out: Vec<Attribute> = Vec::new();
    push_attribute(&mut out, helpers::string("provider", usage.provider.as_str()));
    push_attribute(&mut out, helpers::string("model", usage.model.as_str()));
    assert(attribute_views(out@) =~= seq![
        ("provider"@, ValueModel::Str(usage.provider@)),
        ("model"@, ValueModel::Str(usage.model@)),
    ]);
    out
}

/// The amount a token usage record adds: its total token count.
pub fn token_usage_amount(usage: &TokenUsage) -> (r: u64)
    ensures
        r == usage.total_tokens,
{
    usage.total_tokens as u64
}

/// The attributes of a cost record: provider, model and currency.
pub fn cost_attributes(cost: &Cost) -> (r: Vec<Attribute>)
    ensures
        attribute_views(r@) == seq![
            ("provider"@, ValueModel::Str(cost.provider@)),
            ("model"@, ValueModel::Str(cost.model@)),
            ("currency"@, ValueModel::Str(cost.currency@)),
        ],
{
    let mut out: Vec<Attribute> = Vec::new();
    push_attribute(&mut out, helpers::string("provider", cost.provider.as_str()));
    push_attribute(&mut out, helpers::string("model", cost.model.as_str()));
    push_attribute(&mut out, helpers::string("currency", cost.currency.as_str()));
    assert(attribute_views(out@) =~= seq![
        ("provider"@, ValueModel::Str(cost.provider@)),
        ("model"@, ValueModel::Str(cost.model@)),
        ("currency"@, ValueModel::Str(cost.currency@)),
    ]);
    out
}

/// The attributes of an error record: its type, then the custom attributes.
pub fn error_attributes(error_type: &str, attributes: &StringMap) -> (r: Vec<Attribute>)
    ensures
        attribute_views(r@) == seq![("error_type"@, ValueModel::Str(error_type@))]
            + entry_attributes(attributes.spec_entries()),
{
    let mut out: Vec<Attribute> = Vec::new();
    push_attribute(&mut out, helpers::string("error_type", error_type));
    assert(attribute_views(out@) =~= seq![("error_type"@, ValueModel::Str(error_type@))]);
    push_entry_attributes(&mut out, attributes);
    out
}

/// The amount an error record adds.
pub const ERROR_INCREMENT: u64 = 1;

/// The attributes of a latency record: the custom attributes.
pub fn latency_attributes(attributes: &StringMap) -> (r: Vec<Attribute>)
    ensures
        attribute_views(r@) == entry_attributes(attributes.spec_entries()),
{
    crate::attributes::map_attributes(attributes)
}

} // verus!
