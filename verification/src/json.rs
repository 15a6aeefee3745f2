//! JSON documents as read from the language model and from OpenSearch.
//!
//! A `serde_json::Value` is held opaquely; what it contains is described by
//! `json_tree`, a map from paths (keys and array positions) to the kind of
//! value found there.

use vstd::prelude::*;

verus! {

#[verifier::external_type_specification]
#[verifier::external_body]
pub struct ExJsonValue(serde_json::Value);

/// One step down into a JSON value: an object member or an array element.
pub enum JsonStep {
    Key(Seq<char>),
    At(nat),
}

/// What stands at one position of a JSON document.
pub enum JsonLeaf {
    Null,
    Bool(bool),
    /// A number; `Some(n)` when it is held as the non-negative integer `n`
    /// (what `Value::as_u64` returns), `None` for negative and fractional numbers.
    Number(Option<u64>),
    Text(Seq<char>),
    /// An array with this many elements.
    Array(nat),
    Object,
}

/// What a `serde_json::Value` contains: the empty path maps to the kind of the
/// value itself; `[Key(k)] + p` maps to what stands at `p` in the member `k` of an
/// object, and `[At(i)] + p` to what stands at `p` in element `i` of an array.
/// No other path is present.
pub uninterp spec fn json_tree(v: serde_json::Value) -> Map<Seq<JsonStep>, JsonLeaf>;

/// What `serde_json::from_str::<Value>` makes of a text: the contents of the value
/// it returns, or `None` where it returns an error.
pub uninterp spec fn parsed_json(text: Seq<char>) -> Option<Map<Seq<JsonStep>, JsonLeaf>>;

/// The contents of `Value::Null`.
pub open spec fn json_null() -> Map<Seq<JsonStep>, JsonLeaf> {
    Map::empty().insert(Seq::empty(), JsonLeaf::Null)
}

/// The kind of value at the top of a document.
pub open spec fn json_root(t: Map<Seq<JsonStep>, JsonLeaf>) -> JsonLeaf {
    if t.contains_key(Seq::empty()) {
        t[Seq::empty()]
    } else {
        JsonLeaf::Null
    }
}

/// What indexing with one step gives (`value[key]` or `value[i]`): the member or
/// element where it exists, and `Null` otherwise.
pub open spec fn json_child(t: Map<Seq<JsonStep>, JsonLeaf>, step: JsonStep) -> Map<
    Seq<JsonStep>,
    JsonLeaf,
> {
    if t.contains_key(seq![step]) {
        Map::new(|p: Seq<JsonStep>| t.contains_key(seq![step] + p), |p: Seq<JsonStep>| t[seq![step] + p])
    } else {
        json_null()
    }
}

/// What indexing with each step of a path in turn gives.
pub open spec fn json_at(t: Map<Seq<JsonStep>, JsonLeaf>, path: Seq<JsonStep>) -> Map<
    Seq<JsonStep>,
    JsonLeaf,
>
    decreases path.len(),
{
    if path.len() == 0 {
        t
    } else {
        json_at(json_child(t, path[0]), path.drop_first())
    }
}

/// The string of a document that is a JSON string (`Value::as_str`).
pub open spec fn json_text(t: Map<Seq<JsonStep>, JsonLeaf>) -> Option<Seq<char>> {
    match json_root(t) {
        JsonLeaf::Text(s) => Some(s),
        _ => None,
    }
}

/// The boolean of a document that is a JSON boolean (`Value::as_bool`).
pub open spec fn json_bool(t: Map<Seq<JsonStep>, JsonLeaf>) -> Option<bool> {
    match json_root(t) {
        JsonLeaf::Bool(b) => Some(b),
        _ => None,
    }
}

/// The non-negative integer of a document that holds one (`Value::as_u64`).
pub open spec fn json_u64(t: Map<Seq<JsonStep>, JsonLeaf>) -> Option<u64> {
    match json_root(t) {
        JsonLeaf::Number(n) => n,
        _ => None,
    }
}

/// The length of a document that is a JSON array (`Value::as_array`).
pub open spec fn json_array_len(t: Map<Seq<JsonStep>, JsonLeaf>) -> Option<nat> {
    match json_root(t) {
        JsonLeaf::Array(n) => Some(n),
        _ => None,
    }
}

/// Parses a JSON text with `serde_json::from_str::<Value>`; `None` where it fails.
#[verifier::external_body]
pub(crate) fn parse_json(text: &str) -> (r: Option<serde_json::Value>)
    ensures
        match r {
            Some(v) => parsed_json(text@) == Some(json_tree(v)),
            None => parsed_json(text@) is None,
        },
{
    serde_json::from_str::<serde_json::Value>(text).ok()
}

/// `value[key]` (`Index<&str>` of `serde_json::Value`): the member `key` of an
/// object, `Null` where there is none.
#[verifier::external_body]
pub(crate) fn json_member<'a>(v: &'a serde_json::Value, key: &str) -> (r: &'a serde_json::Value)
    ensures
        json_tree(*r) == json_child(json_tree(*v), JsonStep::Key(key@)),
{
    &v[key]
}

/// `value[i]` (`Index<usize>` of `serde_json::Value`): element `i` of an array,
/// `Null` where there is none.
#[verifier::external_body]
pub(crate) fn json_element<'a>(v: &'a serde_json::Value, i: usize) -> (r: &'a serde_json::Value)
    ensures
        json_tree(*r) == json_child(json_tree(*v), JsonStep::At(i as nat)),
{
    &v[i]
}

/// `Value::as_str`.
#[verifier::external_body]
pub(crate) fn json_as_str<'a>(v: &'a serde_json::Value) -> (r: Option<&'a str>)
    ensures
        match r {
            Some(s) => json_text(json_tree(*v)) == Some(s@),
            None => json_text(json_tree(*v)) is None,
        },
{
    v.as_str()
}

/// `Value::as_bool`.
#[verifier::external_body]
pub(crate) fn json_as_bool(v: &serde_json::Value) -> (r: Option<bool>)
    ensures
        r == json_bool(json_tree(*v)),
{
    v.as_bool()
}

/// `Value::as_u64`.
#[verifier::external_body]
pub(crate) fn json_as_u64(v: &serde_json::Value) -> (r: Option<u64>)
    ensures
        r == json_u64(json_tree(*v)),
{
    v.as_u64()
}

/// `Value::is_number`.
#[verifier::external_body]
pub(crate) fn json_is_number(v: &serde_json::Value) -> (r: bool)
    ensures
        r == json_root(json_tree(*v)) is Number,
{
    v.is_number()
}

/// `Value::as_array`: the elements of an array, in order.
#[verifier::external_body]
pub(crate) fn json_as_array<'a>(v: &'a serde_json::Value) -> (r: Option<&'a Vec<serde_json::Value>>)
    ensures
        match r {
            Some(a) => {
                &&& json_array_len(json_tree(*v)) == Some(a.len() as nat)
                &&& forall|i: int|
                    0 <= i < a.len() ==> json_tree(#[trigger] a@[i]) == json_child(
                        json_tree(*v),
                        JsonStep::At(i as nat),
                    )
            },
            None => json_array_len(json_tree(*v)) is None,
        },
{
    v.as_array()
}

} // verus!
