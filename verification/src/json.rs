//! JSON documents, built and printed by `serde_json`.
//!
//! The encoders build `serde_json::Value`s through the functions below, and
//! speak of them by the tree that a value stands for. The contracts of the
//! functions that call `serde_json` are not proved: each restates what
//! `serde_json` does. The helpers at the end are proved from them.

use vstd::prelude::*;

verus! {

/// `serde_json::Value`, carried through as an opaque value.
#[verifier::external_type_specification]
#[verifier::external_body]
pub struct ExValue(serde_json::Value);

/// `serde_json::Map`, the map behind a JSON object.
#[verifier::external_type_specification]
#[verifier::external_body]
#[verifier::reject_recursive_types(K)]
#[verifier::reject_recursive_types(V)]
pub struct ExJsonMap<K, V>(serde_json::Map<K, V>);

/// `serde_json::Error`.
#[verifier::external_type_specification]
#[verifier::external_body]
pub struct ExJsonError(serde_json::Error);

/// A JSON document as a mathematical tree, with one variant for each kind
/// of `serde_json::Value`. A number stands by its JSON text. An object is a
/// map from keys to trees: it has no order of its own and holds a key once.
/// The encoders build nulls, strings, lists and objects only.
pub enum JsonTree {
    Null,
    Bool(bool),
    Number(Seq<char>),
    Text(Seq<char>),
    List(Seq<JsonTree>),
    Object(Map<Seq<char>, JsonTree>),
}

/// The tree that a `serde_json::Value` stands for.
pub uninterp spec fn json_tree(v: serde_json::Value) -> JsonTree;

/// The entries of a `serde_json::Map`, each value as its tree.
pub uninterp spec fn json_entries(m: serde_json::Map<String, serde_json::Value>) -> Map<
    Seq<char>,
    JsonTree,
>;

/// The text that `serde_json::to_string_pretty` prints for a tree. This
/// holds while the crate's feature `preserve_order` is off, as it is here:
/// the map then keeps its keys sorted, and the text depends on the entries
/// of an object and not on the order in which they were set. With that
/// feature on, the text would follow the order of insertion.
pub uninterp spec fn pretty_json(t: JsonTree) -> Seq<char>;

/// The entries of an object without keys.
pub open spec fn no_entries() -> Map<Seq<char>, JsonTree> {
    Map::empty()
}

/// The trees of a sequence of values, in order.
pub open spec fn json_trees(items: Seq<serde_json::Value>) -> Seq<JsonTree> {
    Seq::new(items.len(), |i: int| json_tree(items[i]))
}

/// `serde_json::Value::Null`: the null value.
#[verifier::external_body]
pub(crate) fn json_null() -> (res: serde_json::Value)
    ensures
        json_tree(res) == JsonTree::Null,
{
    serde_json::Value::Null
}

/// `serde_json::Value::String`: the JSON string with the characters of `s`.
#[verifier::external_body]
pub(crate) fn json_text(s: &str) -> (res: serde_json::Value)
    ensures
        json_tree(res) == JsonTree::Text(s@),
{
    serde_json::Value::String(s.to_owned())
}

/// `serde_json::Value::Array`: the JSON array of `items`, in their order.
#[verifier::external_body]
pub(crate) fn json_list(items: Vec<serde_json::Value>) -> (res: serde_json::Value)
    ensures
        json_tree(res) == JsonTree::List(json_trees(items@)),
{
    serde_json::Value::Array(items)
}

/// `serde_json::Map::new`: the map without entries.
#[verifier::external_body]
pub(crate) fn object_new() -> (res: serde_json::Map<String, serde_json::Value>)
    ensures
        json_entries(res) == no_entries(),
{
    serde_json::Map::new()
}

/// `serde_json::Map::insert`: sets the value under `key`, in place of an
/// earlier one under the same key, and leaves the other entries.
#[verifier::external_body]
pub(crate) fn object_insert(
    m: &mut serde_json::Map<String, serde_json::Value>,
    key: &str,
    value: serde_json::Value,
)
    ensures
        json_entries(*final(m)) == json_entries(*old(m)).insert(key@, json_tree(value)),
{
    m.insert(key.to_owned(), value);
}

/// `serde_json::Value::Object`: the JSON object with the entries of `m`.
#[verifier::external_body]
pub(crate) fn json_object(
    m: serde_json::Map<String, serde_json::Value>,
) -> (res: serde_json::Value)
    ensures
        json_tree(res) == JsonTree::Object(json_entries(m)),
{
    serde_json::Value::Object(m)
}

/// `serde_json::to_string_pretty` on a value: it succeeds, and the text is
/// the pretty form of the value's tree. It cannot fail on a
/// `serde_json::Value`: the keys of its maps are strings, and the only
/// errors left on that path are those of the sink, which is a `Vec<u8>`.
#[verifier::external_body]
pub(crate) fn to_pretty(v: &serde_json::Value) -> (res: Result<String, serde_json::Error>)
    ensures
        res is Ok,
        res->Ok_0@ == pretty_json(json_tree(*v)),
{
    serde_json::to_string_pretty(v)
}

/// The list of two strings.
pub open spec fn text_pair_tree(a: Seq<char>, b: Seq<char>) -> JsonTree {
    JsonTree::List(seq![JsonTree::Text(a), JsonTree::Text(b)])
}

/// The list of three strings.
pub open spec fn text_triple_tree(a: Seq<char>, b: Seq<char>, c: Seq<char>) -> JsonTree {
    JsonTree::List(seq![JsonTree::Text(a), JsonTree::Text(b), JsonTree::Text(c)])
}

/// Sets a string under `key`.
pub(crate) fn put_text(m: &mut serde_json::Map<String, serde_json::Value>, key: &str, value: &str)
    ensures
        json_entries(*final(m)) == json_entries(*old(m)).insert(key@, JsonTree::Text(value@)),
{
    object_insert(m, key, json_text(value));
}

/// The JSON array of two strings.
pub(crate) fn text_pair(a: &str, b: &str) -> (res: serde_json::Value)
    ensures
        json_tree(res) == text_pair_tree(a@, b@),
{
    let mut items: Vec<serde_json::Value> = Vec::new();
    items.push(json_text(a));
    items.push(json_text(b));
    assert(json_trees(items@) =~= seq![JsonTree::Text(a@), JsonTree::Text(b@)]);
    json_list(items)
}

/// The JSON array of three strings.
pub(crate) fn text_triple(a: &str, b: &str, c: &str) -> (res: serde_json::Value)
    ensures
        json_tree(res) == text_triple_tree(a@, b@, c@),
{
    let mut items: Vec<serde_json::Value> = Vec::new();
    items.push(json_text(a));
    items.push(json_text(b));
    items.push(json_text(c));
    assert(json_trees(items@) =~= seq![JsonTree::Text(a@), JsonTree::Text(b@), JsonTree::Text(c@)]);
    json_list(items)
}

} // verus!
