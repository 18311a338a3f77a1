//! Constructors of single attributes.

use super::{Attribute, AttributeValue, ValueModel};
use crate::text::{comma_joined, decimal, join_decimals, join_with_commas, string_views};
use crate::types::Float64;
use vstd::prelude::*;

verus! {

/// A string attribute.
pub fn string(key: &str, value: &str) -> (r: Attribute)
    ensures
        r@ == (key@, ValueModel::Str(value@)),
{
    Attribute { key: key.to_owned(), value: AttributeValue::Str(value.to_owned()) }
}

/// An integer attribute.
pub fn integer(key: &str, value: i64) -> (r: Attribute)
    ensures
        r@ == (key@, ValueModel::Int(value)),
{
    Attribute { key: key.to_owned(), value: AttributeValue::Int(value) }
}

/// A floating-point attribute.
pub fn float(key: &str, value: Float64) -> (r: Attribute)
    ensures
        r@ == (key@, ValueModel::Float(value)),
{
    Attribute { key: key.to_owned(), value: AttributeValue::Float(value) }
}

/// A boolean attribute.
pub fn bool(key: &str, value: bool) -> (r: Attribute)
    ensures
        r@ == (key@, ValueModel::Bool(value)),
{
    Attribute { key: key.to_owned(), value: AttributeValue::Bool(value) }
}

/// A string attribute holding the strings joined with commas.
pub fn string_slice(key: &str, value: Vec<String>) -> (r: Attribute)
    ensures
        r@ == (key@, ValueModel::Str(comma_joined(string_views(value@)))),
{
    Attribute { key: key.to_owned(), value: AttributeValue::Str(join_with_commas(&value)) }
}

/// A string attribute holding the decimal forms of the integers joined with
/// commas.
pub fn int_slice(key: &str, value: Vec<i64>) -> (r: Attribute)
    ensures
        r@ == (key@, ValueModel::Str(
            comma_joined(value@.map_values(|v: i64| decimal(v as int))),
        )),
{
    Attribute { key: key.to_owned(), value: AttributeValue::Str(join_decimals(&value)) }
}

} // verus!
