//! Attributes: the key/value pairs that spans, metrics and resources carry.

pub mod framework;
pub mod helpers;
pub mod llm;
pub mod vector_db;
pub mod workflow;

use crate::string_map::StringMap;
use crate::types::Float64;
use vstd::prelude::*;

verus! {

/// The value of an attribute.
#[derive(Debug, Clone)]
pub enum AttributeValue {
    Str(String),
    Int(i64),
    Bool(bool),
    Float(Float64),
}

/// The value of an attribute as a mathematical value.
pub enum ValueModel {
    Str(Seq<char>),
    Int(i64),
    Bool(bool),
    Float(Float64),
}

impl View for AttributeValue {
    type V = ValueModel;

    open spec fn view(&self) -> ValueModel {
        match self {
            AttributeValue::Str(s) => ValueModel::Str(s@),
            AttributeValue::Int(v) => ValueModel::Int(*v),
            AttributeValue::Bool(b) => ValueModel::Bool(*b),
            AttributeValue::Float(f) => ValueModel::Float(*f),
        }
    }
}

/// A key with its value.
#[derive(Debug, Clone)]
pub struct Attribute {
    pub key: String,
    pub value: AttributeValue,
}

impl View for Attribute {
    type V = (Seq<char>, ValueModel);

    open spec fn view(&self) -> (Seq<char>, ValueModel) {
        (self.key@, self.value@)
    }
}

/// The views of a sequence of attributes.
pub open spec fn attribute_views(attrs: Seq<Attribute>) -> Seq<(Seq<char>, ValueModel)> {
    attrs.map_values(|a: Attribute| a@)
}

/// One string attribute for each entry, in order.
pub open spec fn entry_attributes(entries: Seq<(Seq<char>, Seq<char>)>) -> Seq<
    (Seq<char>, ValueModel),
> {
    entries.map_values(|e: (Seq<char>, Seq<char>)| (e.0, ValueModel::Str(e.1)))
}

/// One string attribute for each entry, in order, its key after `prefix`.
pub open spec fn prefixed_entry_attributes(
    prefix: Seq<char>,
    entries: Seq<(Seq<char>, Seq<char>)>,
) -> Seq<(Seq<char>, ValueModel)> {
    entries.map_values(|e: (Seq<char>, Seq<char>)| (prefix + e.0, ValueModel::Str(e.1)))
}

/// Appends one string attribute for each entry of `map`, in order.
pub fn push_entry_attributes(out: &mut Vec<Attribute>, map: &StringMap)
    ensures
        attribute_views(final(out)@) == attribute_views(old(out)@) + entry_attributes(
            map.spec_entries(),
        ),
{
    let entries = map.entries();
    let ghost start = attribute_views(out@);
    let mut i: usize = 0;
    while i < entries.len()
        invariant
            i <= entries@.len(),
            entries@.len() == map.spec_entries().len(),
            forall|j: int|
                0 <= j < entries@.len() ==> (#[trigger] entries@[j].0@, entries@[j].1@)
                    == map.spec_entries()[j],
            attribute_views(out@) == start + entry_attributes(map.spec_entries()).take(i as int),
        decreases entries@.len() - i,
    {
        let key = entries[i].0.clone();
        let value = entries[i].1.clone();
        let ghost before = attribute_views(out@);
        out.push(Attribute { key, value: AttributeValue::Str(value) });
        assert(attribute_views(out@) =~= before.push(
            (map.spec_entries()[i as int].0, ValueModel::Str(map.spec_entries()[i as int].1)),
        ));
        assert(entry_attributes(map.spec_entries()).take(i + 1) =~= entry_attributes(
            map.spec_entries(),
        ).take(i as int).push(entry_attributes(map.spec_entries())[i as int]));
        i = i + 1;
    }
    assert(entry_attributes(map.spec_entries()).take(entries@.len() as int) =~= entry_attributes(
        map.spec_entries(),
    ));
}

/// Appends one string attribute for each entry of `map`, in order, its key
/// after `prefix`.
pub fn push_prefixed_entry_attributes(out: &mut Vec<Attribute>, prefix: &str, map: &StringMap)
    ensures
        attribute_views(final(out)@) == attribute_views(old(out)@) + prefixed_entry_attributes(
            prefix@,
            map.spec_entries(),
        ),
{
    let entries = map.entries();
    let ghost start = attribute_views(out@);
    let ghost expected = prefixed_entry_attributes(prefix@, map.spec_entries());
    let mut i: usize = 0;
    while i < entries.len()
        invariant
            i <= entries@.len(),
            entries@.len() == map.spec_entries().len(),
            expected == prefixed_entry_attributes(prefix@, map.spec_entries()),
            forall|j: int|
                0 <= j < entries@.len() ==> (#[trigger] entries@[j].0@, entries@[j].1@)
                    == map.spec_entries()[j],
            attribute_views(out@) == start + expected.take(i as int),
        decreases entries@.len() - i,
    {
        let key = prefix.to_owned().concat(entries[i].0.as_str());
        let value = entries[i].1.clone();
        let ghost before = attribute_views(out@);
        out.push(Attribute { key, value: AttributeValue::Str(value) });
        assert(attribute_views(out@) =~= before.push(expected[i as int]));
        assert(expected.take(i + 1) =~= expected.take(i as int).push(expected[i as int]));
        i = i + 1;
    }
    assert(expected.take(entries@.len() as int) =~= expected);
}

/// A string attribute when the value is present.
pub open spec fn opt_string_attribute(key: Seq<char>, value: Option<Seq<char>>) -> Seq<
    (Seq<char>, ValueModel),
> {
    match value {
        Some(v) => seq![(key, ValueModel::Str(v))],
        None => Seq::empty(),
    }
}

/// An integer attribute when the value is present.
pub open spec fn opt_integer_attribute(key: Seq<char>, value: Option<i64>) -> Seq<
    (Seq<char>, ValueModel),
> {
    match value {
        Some(v) => seq![(key, ValueModel::Int(v))],
        None => Seq::empty(),
    }
}

/// A floating-point attribute when the value is present.
pub open spec fn opt_float_attribute(key: Seq<char>, value: Option<Float64>) -> Seq<
    (Seq<char>, ValueModel),
> {
    match value {
        Some(v) => seq![(key, ValueModel::Float(v))],
        None => Seq::empty(),
    }
}

/// A boolean attribute when the value is present.
pub open spec fn opt_bool_attribute(key: Seq<char>, value: Option<bool>) -> Seq<
    (Seq<char>, ValueModel),
> {
    match value {
        Some(v) => seq![(key, ValueModel::Bool(v))],
        None => Seq::empty(),
    }
}

/// Appends an attribute.
pub fn push_attribute(out: &mut Vec<Attribute>, attr: Attribute)
    ensures
        attribute_views(final(out)@) == attribute_views(old(out)@).push(attr@),
{
    out.push(attr);
    assert(attribute_views(out@) =~= attribute_views(old(out)@).push(attr@));
}

/// Appends a string attribute when the value is present.
pub fn push_opt_string(out: &mut Vec<Attribute>, key: &str, value: &Option<String>)
    ensures
        attribute_views(final(out)@) == attribute_views(old(out)@) + opt_string_attribute(
            key@,
            crate::types::opt_view(*value),
        ),
{
    match value {
        Some(v) => {
            push_attribute(out, Attribute { key: key.to_owned(), value: AttributeValue::Str(v.clone()) });
        },
        None => {},
    }
    assert(attribute_views(out@) =~= attribute_views(old(out)@) + opt_string_attribute(
        key@,
        crate::types::opt_view(*value),
    ));
}

/// Appends an integer attribute when the value is present.
pub fn push_opt_integer(out: &mut Vec<Attribute>, key: &str, value: Option<i64>)
    ensures
        attribute_views(final(out)@) == attribute_views(old(out)@) + opt_integer_attribute(
            key@,
            value,
        ),
{
    match value {
        Some(v) => {
            push_attribute(out, Attribute { key: key.to_owned(), value: AttributeValue::Int(v) });
        },
        None => {},
    }
    assert(attribute_views(out@) =~= attribute_views(old(out)@) + opt_integer_attribute(key@, value));
}

/// Appends a floating-point attribute when the value is present.
pub fn push_opt_float(out: &mut Vec<Attribute>, key: &str, value: Option<Float64>)
    ensures
        attribute_views(final(out)@) == attribute_views(old(out)@) + opt_float_attribute(
            key@,
            value,
        ),
{
    match value {
        Some(v) => {
            push_attribute(out, Attribute { key: key.to_owned(), value: AttributeValue::Float(v) });
        },
        None => {},
    }
    assert(attribute_views(out@) =~= attribute_views(old(out)@) + opt_float_attribute(key@, value));
}

/// Appends a boolean attribute when the value is present.
pub fn push_opt_bool(out: &mut Vec<Attribute>, key: &str, value: Option<bool>)
    ensures
        attribute_views(final(out)@) == attribute_views(old(out)@) + opt_bool_attribute(
            key@,
            value,
        ),
{
    match value {
        Some(v) => {
            push_attribute(out, Attribute { key: key.to_owned(), value: AttributeValue::Bool(v) });
        },
        None => {},
    }
    assert(attribute_views(out@) =~= attribute_views(old(out)@) + opt_bool_attribute(key@, value));
}

/// One string attribute for each entry of `attrs`, in order.
pub fn map_attributes(attrs: &StringMap) -> (r: Vec<Attribute>)
    ensures
        attribute_views(r@) == entry_attributes(attrs.spec_entries()),
{
    let mut out: Vec<Attribute> = Vec::new();
    assert(attribute_views(out@) =~= Seq::<(Seq<char>, ValueModel)>::empty());
    push_entry_attributes(&mut out, attrs);
    assert(attribute_views(out@) =~= entry_attributes(attrs.spec_entries()));
    out
}

/// LLM attributes from a map, one for each entry.
pub fn create_llm_attributes(attrs: &StringMap) -> (r: Vec<Attribute>)
    ensures
        attribute_views(r@) == entry_attributes(attrs.spec_entries()),
{
    map_attributes(attrs)
}

/// Vector database attributes from a map, one for each entry.
pub fn create_vector_db_attributes(attrs: &StringMap) -> (r: Vec<Attribute>)
    ensures
        attribute_views(r@) == entry_attributes(attrs.spec_entries()),
{
    map_attributes(attrs)
}

/// Framework attributes from a map, one for each entry.
pub fn create_framework_attributes(attrs: &StringMap) -> (r: Vec<Attribute>)
    ensures
        attribute_views(r@) == entry_attributes(attrs.spec_entries()),
{
    map_attributes(attrs)
}

/// Workflow attributes from a map, one for each entry.
pub fn create_workflow_attributes(attrs: &StringMap) -> (r: Vec<Attribute>)
    ensures
        attribute_views(r@) == entry_attributes(attrs.spec_entries()),
{
    map_attributes(attrs)
}

/// The value that replaces a sensitive one.
pub open spec fn redacted() -> Seq<char> {
    "[REDACTED]"@
}

/// Keys whose values are never reported.
pub open spec fn is_sensitive_key(k: Seq<char>) -> bool {
    ||| k == "password"@
    ||| k == "secret"@
    ||| k == "token"@
    ||| k == "key"@
    ||| k == "auth"@
    ||| k == "credential"@
    ||| k == "api_key"@
    ||| k == "access_token"@
    ||| k == "refresh_token"@
}

/// The map with the value of each sensitive key replaced.
pub open spec fn sanitized(m: Map<Seq<char>, Seq<char>>) -> Map<Seq<char>, Seq<char>> {
    Map::new(
        |k: Seq<char>| m.contains_key(k),
        |k: Seq<char>|
            if is_sensitive_key(k) {
                redacted()
            } else {
                m[k]
            },
    )
}

/// `start` with the value of each key in `done` replaced.
spec fn redacted_keys(start: Map<Seq<char>, Seq<char>>, done: Seq<Seq<char>>) -> Map<
    Seq<char>,
    Seq<char>,
> {
    Map::new(
        |k: Seq<char>| start.contains_key(k),
        |k: Seq<char>|
            if done.contains(k) {
                redacted()
            } else {
                start[k]
            },
    )
}

/// Replaces the value of `key` when present.
fn redact(
    attrs: &mut StringMap,
    key: &str,
    Ghost(start): Ghost<Map<Seq<char>, Seq<char>>>,
    Ghost(done): Ghost<Seq<Seq<char>>>,
)
    requires
        old(attrs)@ == redacted_keys(start, done),
    ensures
        final(attrs)@ == redacted_keys(start, done.push(key@)),
{
    proof {
        assert forall|k: Seq<char>| done.push(key@).contains(k) <==> (done.contains(k) || k == key@) by {
            if done.push(key@).contains(k) {
                let j = choose|j: int| 0 <= j < done.push(key@).len() && done.push(key@)[j] == k;
                if j < done.len() {
                    assert(done[j] == k);
                }
            }
            if done.contains(k) {
                let j = choose|j: int| 0 <= j < done.len() && done[j] == k;
                assert(done.push(key@)[j] == k);
            }
            if k == key@ {
                assert(done.push(key@)[done.len() as int] == k);
            }
        }
    }
    if attrs.contains_key(key) {
        let ghost before = attrs@;
        attrs.insert(key.to_owned(), "[REDACTED]".to_owned());
        let ghost after = redacted_keys(start, done.push(key@));
        assert forall|k: Seq<char>| #[trigger] after.contains_key(k) implies attrs@.contains_key(k)
            && attrs@[k] == after[k] by {
            assert(done.push(key@).contains(k) <==> (done.contains(k) || k == key@));
            if k != key@ {
                assert(before.contains_key(k));
                assert(attrs@[k] == before[k]);
            }
        }
        assert(attrs@ =~= redacted_keys(start, done.push(key@)));
    } else {
        assert(attrs@ =~= redacted_keys(start, done.push(key@)));
    }
}

/// Replaces the values of sensitive keys with a placeholder.
pub fn sanitize_attributes(attrs: &mut StringMap)
    ensures
        final(attrs)@ == sanitized(old(attrs)@),
{
    let ghost start = attrs@;
    let ghost done = Seq::<Seq<char>>::empty();
    assert(attrs@ =~= redacted_keys(start, done));
    redact(attrs, "password", Ghost(start), Ghost(done));
    let ghost done = done.push("password"@);
    redact(attrs, "secret", Ghost(start), Ghost(done));
    let ghost done = done.push("secret"@);
    redact(attrs, "token", Ghost(start), Ghost(done));
    let ghost done = done.push("token"@);
    redact(attrs, "key", Ghost(start), Ghost(done));
    let ghost done = done.push("key"@);
    redact(attrs, "auth", Ghost(start), Ghost(done));
    let ghost done = done.push("auth"@);
    redact(attrs, "credential", Ghost(start), Ghost(done));
    let ghost done = done.push("credential"@);
    redact(attrs, "api_key", Ghost(start), Ghost(done));
    let ghost done = done.push("api_key"@);
    redact(attrs, "access_token", Ghost(start), Ghost(done));
    let ghost done = done.push("access_token"@);
    redact(attrs, "refresh_token", Ghost(start), Ghost(done));
    let ghost done = done.push("refresh_token"@);
    proof {
        assert forall|k: Seq<char>| done.contains(k) <==> is_sensitive_key(k) by {
            if is_sensitive_key(k) {
                if k == "password"@ {
                    assert(done[0] == k);
                } else if k == "secret"@ {
                    assert(done[1] == k);
                } else if k == "token"@ {
                    assert(done[2] == k);
                } else if k == "key"@ {
                    assert(done[3] == k);
                } else if k == "auth"@ {
                    assert(done[4] == k);
                } else if k == "credential"@ {
                    assert(done[5] == k);
                } else if k == "api_key"@ {
                    assert(done[6] == k);
                } else if k == "access_token"@ {
                    assert(done[7] == k);
                } else {
                    assert(done[8] == k);
                }
            }
        }
    }
    assert(attrs@ =~= sanitized(start));
}

/// The entries of `base`, overridden and extended by those of `other`.
pub fn merge_attributes(base: StringMap, other: StringMap) -> (r: StringMap)
    ensures
        r@ == base@.union_prefer_right(other@),
{
    let mut merged = base;
    let entries = other.entries();
    let ghost all = other.spec_entries();
    let mut i: usize = 0;
    while i < entries.len()
        invariant
            i <= entries@.len(),
            entries@.len() == all.len(),
            all == other.spec_entries(),
            forall|j: int| 0 <= j < entries@.len() ==> (#[trigger] entries@[j].0@, entries@[j].1@) == all[j],
            merged@ == base@.union_prefer_right(crate::string_map::map_of(all.take(i as int))),
        decreases entries@.len() - i,
    {
        let key = entries[i].0.clone();
        let value = entries[i].1.clone();
        merged.insert(key, value);
        proof {
            assert(all.take(i + 1).drop_last() =~= all.take(i as int));
            assert(merged@ =~= base@.union_prefer_right(crate::string_map::map_of(all.take(i + 1))));
        }
        i = i + 1;
    }
    assert(all.take(entries@.len() as int) =~= all);
    merged
}

} // verus!
