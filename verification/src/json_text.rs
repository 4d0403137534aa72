//! JSON text, read and written by `serde_json`.
//!
//! `serde_json` reads a text into a tree of its own and writes one from
//! such a tree. What is trusted of it is stated here one call at a time;
//! walking a tree, and building one, is verified against those statements.

use vstd::prelude::*;
use serde_json::Value;
use crate::error::ClientError;
use crate::json::{
    items_model, lemma_members_model_lookup, members_model, reads_back, Decimal, JsonModel,
    JsonValue, Member,
};

verus! {

/// `serde_json::Value`, a JSON document as `serde_json` holds it. Nothing is
/// known of one but the document it holds, `tree_model`.
#[verifier::external_type_specification]
#[verifier::external_body]
pub struct ExTree(serde_json::Value);

/// `serde_json::Error`, carried from where it arises to where its message
/// is taken.
#[verifier::external_type_specification]
#[verifier::external_body]
pub struct ExTextError(serde_json::Error);

/// The document that a `serde_json` tree holds.
pub uninterp spec fn tree_model(tree: serde_json::Value) -> JsonModel;

/// The document that `serde_json::from_str` reads from a text, if it reads one.
pub uninterp spec fn json_parsed(text: Seq<char>) -> Option<JsonModel>;

/// The text that `serde_json::to_string` writes for a document.
pub uninterp spec fn json_text(document: JsonModel) -> Seq<char>;

/// The documents that a sequence of trees holds.
pub open spec fn trees_model(trees: Seq<serde_json::Value>) -> Seq<JsonModel> {
    Seq::new(trees.len(), |i: int| tree_model(trees[i]))
}

/// `serde_json::from_str` at `serde_json::Value`: whether a text parses, and
/// the document it then holds, depend on the text alone.
#[verifier::external_body]
fn parse_tree(text: &str) -> (r: Result<serde_json::Value, serde_json::Error>)
    ensures
        r is Ok <==> json_parsed(text@) is Some,
        r matches Ok(tree) ==> json_parsed(text@) == Some(tree_model(tree)),
{
    serde_json::from_str::<serde_json::Value>(text)
}

/// `serde_json::to_string` on a `serde_json::Value`: the text written
/// depends on the document alone. Writing fails only where a `Serialize`
/// impl chooses to fail or a map has a key that is not a string, and neither
/// is the case of a `serde_json::Value`. The text is in the compact form,
/// which has no white space between tokens, and a line feed or a carriage
/// return inside a string is written as an escape: so the text holds
/// neither.
#[verifier::external_body]
fn render_tree(tree: &serde_json::Value) -> (r: Result<String, serde_json::Error>)
    ensures
        r is Ok,
        r matches Ok(text) ==> text@ == json_text(tree_model(*tree)),
        r matches Ok(text) ==> !text@.contains('\n'),
        r matches Ok(text) ==> !text@.contains('\r'),
{
    serde_json::to_string(tree)
}

/// The message of a `serde_json::Error`, as its `Display` writes it.
#[verifier::external_body]
fn describe(error: &serde_json::Error) -> String {
    error.to_string()
}

/// `Value::as_bool`: the truth value of a tree that is one.
#[verifier::external_body]
fn tree_bool(tree: &serde_json::Value) -> (r: Option<bool>)
    ensures
        match r {
            Some(b) => tree_model(*tree) == JsonModel::Bool(b),
            None => !(tree_model(*tree) is Bool),
        },
{
    tree.as_bool()
}

/// `Value::as_i64`: the integer of a tree that is one, where it fits in
/// `i64`. An integer that does not fit is larger than every `i64`.
#[verifier::external_body]
fn tree_i64(tree: &serde_json::Value) -> (r: Option<i64>)
    ensures
        match r {
            Some(i) => tree_model(*tree) == JsonModel::Integer(i as int),
            None => !(tree_model(*tree) matches JsonModel::Integer(n) && n <= i64::MAX),
        },
{
    tree.as_i64()
}

/// `Value::as_u64`: the integer of a tree that is one, where it is not
/// negative. `serde_json` holds no integer above `u64::MAX`.
#[verifier::external_body]
fn tree_u64(tree: &serde_json::Value) -> (r: Option<u64>)
    ensures
        match r {
            Some(u) => tree_model(*tree) == JsonModel::Integer(u as int),
            None => !(tree_model(*tree) matches JsonModel::Integer(n) && n >= 0),
        },
{
    tree.as_u64()
}

/// `Value::is_f64` and `Value::to_string`: the digits of a tree that is a
/// number and no integer, as `serde_json` writes them. With its feature
/// `float_roundtrip`, which this crate turns on, `serde_json` reads from
/// the digits it wrote for a number that same number: so the digits read
/// back as the decimal they are.
#[verifier::external_body]
fn tree_digits(tree: &serde_json::Value) -> (r: Option<Decimal>)
    ensures
        match r {
            Some(d) => tree_model(*tree) == JsonModel::Decimal(d@),
            None => !(tree_model(*tree) is Decimal),
        },
        r matches Some(d) ==> reads_back(d@),
{
    if tree.is_f64() {
        Some(Decimal { digits: tree.to_string() })
    } else {
        None
    }
}

/// `Value::as_str`: the string of a tree that is one.
#[verifier::external_body]
fn tree_text(tree: &serde_json::Value) -> (r: Option<&str>)
    ensures
        match r {
            Some(s) => tree_model(*tree) == JsonModel::Text(s@),
            None => !(tree_model(*tree) is Text),
        },
{
    tree.as_str()
}

/// `Value::as_array`: the items of a tree that is an array, in order.
#[verifier::external_body]
fn tree_items(tree: &serde_json::Value) -> (r: Option<&Vec<serde_json::Value>>)
    ensures
        match r {
            Some(items) => tree_model(*tree) == JsonModel::Array(trees_model(items@)),
            None => !(tree_model(*tree) is Array),
        },
{
    tree.as_array()
}

/// `Value::as_object` and `Map::keys`: the keys of a tree that is an
/// object. Every key of the object is among them, and nothing else.
#[verifier::external_body]
fn tree_keys(tree: &serde_json::Value) -> (r: Option<Vec<String>>)
    ensures
        match r {
            Some(keys) => tree_model(*tree) matches JsonModel::Object(fields)
                && fields.dom().finite() && forall|k: Seq<char>|
                fields.contains_key(k) <==> exists|i: int|
                    0 <= i < keys@.len() && #[trigger] keys@[i]@ == k,
            None => !(tree_model(*tree) is Object),
        },
{
    tree.as_object().map(|object| object.keys().cloned().collect())
}

/// `Value::get` with a string: the value under a key of a tree that is an
/// object with that key.
#[verifier::external_body]
fn tree_member<'a>(tree: &'a serde_json::Value, key: &str) -> (r: Option<&'a serde_json::Value>)
    ensures
        match r {
            Some(value) => tree_model(*tree).member(key@) == Some(tree_model(*value)),
            None => tree_model(*tree).member(key@) is None,
        },
{
    tree.get(key)
}

/// `Value::Null`.
#[verifier::external_body]
fn null_tree() -> (r: serde_json::Value)
    ensures
        tree_model(r) == JsonModel::Null,
{
    Value::Null
}

/// `Value::Bool`.
#[verifier::external_body]
fn bool_tree(b: bool) -> (r: serde_json::Value)
    ensures
        tree_model(r) == JsonModel::Bool(b),
{
    Value::Bool(b)
}

/// `Value::from` an `i64`: the tree of that integer.
#[verifier::external_body]
fn i64_tree(i: i64) -> (r: serde_json::Value)
    ensures
        tree_model(r) == JsonModel::Integer(i as int),
{
    Value::from(i)
}

/// `Value::from` a `u64`: the tree of that integer.
#[verifier::external_body]
fn u64_tree(u: u64) -> (r: serde_json::Value)
    ensures
        tree_model(r) == JsonModel::Integer(u as int),
{
    Value::from(u)
}

/// `Value::String`.
#[verifier::external_body]
fn text_tree(text: &str) -> (r: serde_json::Value)
    ensures
        tree_model(r) == JsonModel::Text(text@),
{
    Value::String(text.to_owned())
}

/// `Value::Array`: the tree of an array of the given items.
#[verifier::external_body]
fn array_tree(items: Vec<serde_json::Value>) -> (r: serde_json::Value)
    ensures
        tree_model(r) == JsonModel::Array(trees_model(items@)),
{
    Value::Array(items)
}

/// `Value::Object` of `Map::new`: the tree of the object without entries.
#[verifier::external_body]
fn empty_object_tree() -> (r: serde_json::Value)
    ensures
        tree_model(r) == JsonModel::Object(Map::empty()),
{
    Value::Object(serde_json::Map::new())
}

/// `Value::as_object_mut` and `Map::insert`: puts a value under a key of a
/// tree that is an object, in place of what was there under that key; any
/// other tree is left as it is.
#[verifier::external_body]
fn insert_member(object: &mut serde_json::Value, key: &str, value: serde_json::Value)
    ensures
        tree_model(*final(object)) == match tree_model(*old(object)) {
            JsonModel::Object(fields) => JsonModel::Object(
                fields.insert(key@, tree_model(value)),
            ),
            other => other,
        },
{
    object.as_object_mut().map(|fields| fields.insert(key.to_owned(), value));
}

/// Where every one of the first `n` members with a key holds one document,
/// and one of them has the key, the object holds that document under it.
proof fn lemma_members_model_value(
    members: Seq<Member>,
    n: nat,
    key: Seq<char>,
    document: JsonModel,
)
    requires
        n <= members.len(),
        members_model(members, n).contains_key(key),
        forall|j: int| 0 <= j < n && #[trigger] members[j].key@ == key ==> members[j].value@
            == document,
    ensures
        members_model(members, n)[key] == document,
    decreases n,
{
    if n > 0 && members[n - 1].key@ != key {
        lemma_members_model_value(members, (n - 1) as nat, key, document);
    }
}

/// The tree of a decimal: what `serde_json` reads from its digits, which
/// is the decimal itself.
fn digits_tree(decimal: &Decimal) -> (r: serde_json::Value)
    ensures
        tree_model(r) == JsonModel::Decimal(decimal@),
{
    match parse_tree(decimal.digits()) {
        Ok(tree) => tree,
        // The digits of a decimal read back: this arm is never taken.
        Err(_) => null_tree(),
    }
}

/// Copies a `serde_json` tree into a `JsonValue` that holds the same
/// document.
fn lift(tree: &serde_json::Value) -> (r: JsonValue)
    ensures
        r@ == tree_model(*tree),
    decreases tree_model(*tree),
{
    match tree_bool(tree) {
        Some(b) => {
            return JsonValue::Bool(b);
        },
        None => {},
    }
    match tree_i64(tree) {
        Some(i) => {
            return JsonValue::Int(i);
        },
        None => {},
    }
    match tree_u64(tree) {
        Some(u) => {
            return JsonValue::UInt(u);
        },
        None => {},
    }
    match tree_digits(tree) {
        Some(d) => {
            return JsonValue::Decimal(d);
        },
        None => {},
    }
    match tree_text(tree) {
        Some(s) => {
            return JsonValue::Text(s.to_owned());
        },
        None => {},
    }
    match tree_items(tree) {
        Some(items) => {
            let mut out: Vec<JsonValue> = Vec::new();
            let mut i: usize = 0;
            assert forall|k: int| 0 <= k < items@.len() implies decreases_to!(tree_model(*tree) => tree_model(#[trigger] items@[k])) by {
                let document = tree_model(*tree);
                assert(document->Array_0[k] == tree_model(items@[k]));
                assert(decreases_to!(document => document->Array_0[k]));
            }
            while i < items.len()
                invariant
                    i <= items.len(),
                    out.len() == i,
                    forall|k: int|
                        0 <= k < items@.len() ==> decreases_to!(tree_model(*tree) => tree_model(#[trigger] items@[k])),
                    forall|j: int| 0 <= j < i ==> out@[j]@ == tree_model(items@[j]),
                decreases items.len() - i,
            {
                out.push(lift(&items[i]));
                i += 1;
            }
            assert(items_model(out@) =~= trees_model(items@));
            return JsonValue::array(out);
        },
        None => {},
    }
    match tree_keys(tree) {
        Some(keys) => {
            let ghost fields = tree_model(*tree)->Object_0;
            let mut out: Vec<Member> = Vec::new();
            let mut i: usize = 0;
            while i < keys.len()
                invariant
                    i <= keys.len(),
                    out.len() == i,
                    tree_model(*tree) == JsonModel::Object(fields),
                    fields.dom().finite(),
                    forall|k: Seq<char>|
                        fields.contains_key(k) <==> exists|j: int|
                            0 <= j < keys@.len() && #[trigger] keys@[j]@ == k,
                    forall|j: int|
                        0 <= j < i ==> (#[trigger] out@[j]).key@ == keys@[j]@ && out@[j].value@
                            == fields[keys@[j]@],
                decreases keys.len() - i,
            {
                let key = keys[i].as_str();
                assert(fields.contains_key(keys@[i as int]@));
                match tree_member(tree, key) {
                    Some(value) => {
                        proof {
                            vstd::map::axiom_map_index_decreases_finite(fields, key@);
                        }
                        out.push(Member { key: key.to_owned(), value: lift(value) });
                    },
                    None => {
                        // Every key of the object has a value: this arm is never taken.
                        out.push(Member { key: key.to_owned(), value: JsonValue::Null });
                    },
                }
                i += 1;
            }
            proof {
                let made = members_model(out@, out@.len());
                assert forall|k: Seq<char>| made.contains_key(k) <==> fields.contains_key(k) by {
                    lemma_members_model_lookup(out@, out@.len(), k);
                    if fields.contains_key(k) {
                        let j = choose|j: int| 0 <= j < keys@.len() && #[trigger] keys@[j]@ == k;
                        assert(out@[j].key@ == k);
                    }
                    if made.contains_key(k) {
                        let j = choose|j: int| 0 <= j < out@.len() && #[trigger] out@[j].key@ == k;
                        assert(keys@[j]@ == k);
                    }
                }
                assert forall|k: Seq<char>| made.contains_key(k) implies #[trigger] made[k]
                    == fields[k] by {
                    lemma_members_model_value(out@, out@.len(), k, fields[k]);
                }
                assert(made =~= fields);
            }
            return JsonValue::Object(out);
        },
        None => {},
    }
    JsonValue::Null
}

/// Builds the `serde_json` tree that holds the document of a `JsonValue`.
fn lower(value: &JsonValue) -> (r: serde_json::Value)
    ensures
        tree_model(r) == value@,
    decreases value,
{
    match value {
        JsonValue::Null => null_tree(),
        JsonValue::Bool(b) => bool_tree(*b),
        JsonValue::Int(i) => i64_tree(*i),
        JsonValue::UInt(u) => u64_tree(*u),
        JsonValue::Decimal(d) => digits_tree(d),
        JsonValue::Text(s) => text_tree(s.as_str()),
        JsonValue::Array(items) => {
            let mut out: Vec<serde_json::Value> = Vec::new();
            let mut i: usize = 0;
            while i < items.len()
                invariant
                    i <= items.len(),
                    out.len() == i,
                    forall|k: int|
                        0 <= k < items@.len() ==> decreases_to!(*value => #[trigger] items@[k]),
                    forall|j: int| 0 <= j < i ==> tree_model(out@[j]) == items@[j]@,
                decreases items.len() - i,
            {
                out.push(lower(&items[i]));
                i += 1;
            }
            assert(trees_model(out@) =~= items_model(items@));
            assert(value@.items()->0 =~= items_model(items@));
            array_tree(out)
        },
        JsonValue::Object(members) => {
            let mut object = empty_object_tree();
            let mut i: usize = 0;
            while i < members.len()
                invariant
                    i <= members.len(),
                    forall|k: int|
                        0 <= k < members@.len() ==> decreases_to!(*value => (#[trigger] members@[k]).value),
                    tree_model(object) == JsonModel::Object(members_model(members@, i as nat)),
                decreases members.len() - i,
            {
                let entry = lower(&members[i].value);
                insert_member(&mut object, members[i].key.as_str(), entry);
                i += 1;
            }
            object
        },
    }
}

/// Reads a JSON text.
///
/// Succeeds exactly on the texts that `serde_json` accepts, with the
/// document it reads from them; every other text is a serialization error.
pub fn parse(text: &str) -> (r: Result<JsonValue, ClientError>)
    ensures
        match r {
            Ok(value) => json_parsed(text@) == Some(value@),
            Err(e) => json_parsed(text@) is None && e is Serialization,
        },
{
    match parse_tree(text) {
        Ok(tree) => Ok(lift(&tree)),
        Err(e) => Err(ClientError::Serialization(describe(&e))),
    }
}

/// Writes a document as JSON text, on one line.
pub fn render(value: &JsonValue) -> (r: Result<String, ClientError>)
    ensures
        r matches Ok(text) && text@ == json_text(value@) && !text@.contains('\n')
            && !text@.contains('\r'),
{
    let tree = lower(value);
    match render_tree(&tree) {
        Ok(text) => Ok(text),
        Err(e) => Err(ClientError::Serialization(describe(&e))),
    }
}

} // verus!
