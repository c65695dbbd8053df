//! Reading a text as a JSON document.
use vstd::prelude::*;
use crate::json::{
    Json, JsonModel, items_view, lemma_items_view_push, lemma_members_view_push, members_view,
};

verus! {

/// A JSON value as `serde_json` holds it. Nothing of its inside is visible
/// here; `value_model` names what it holds.
#[verifier::external_type_specification]
#[verifier::external_body]
pub struct ExValue(serde_json::Value);

/// The document that a `serde_json::Value` holds: each variant as the
/// variant of the same kind, a number by the text that `serde_json` prints
/// for it, the members of an object in the order in which its map hands
/// them out.
pub uninterp spec fn value_model(v: serde_json::Value) -> JsonModel;

/// What `serde_json::from_str` makes of `text`: the document it reads, or
/// nothing where it rejects the text.
pub uninterp spec fn json_text_value(text: Seq<char>) -> Option<JsonModel>;

/// Calls `serde_json::from_str` for a `serde_json::Value`. The contract only
/// names the outcome: a value comes back exactly where `json_text_value` has
/// one, and it holds that document.
#[verifier::external_body]
fn value_from_text(text: &str) -> (r: Option<serde_json::Value>)
    ensures
        match r {
            Some(v) => json_text_value(text@) == Some(value_model(v)),
            None => json_text_value(text@).is_none(),
        },
{
    serde_json::from_str::<serde_json::Value>(text).ok()
}

/// Tells the variants of a `serde_json::Value` apart and copies a scalar:
/// null, a boolean, a string, or a number through `Number`'s `to_string`.
/// An array or an object gives nothing. The contract says that the copy
/// holds what `value_model` names, and that nothing comes back exactly for
/// arrays and objects.
#[verifier::external_body]
fn scalar_of_value(v: &serde_json::Value) -> (r: Option<Json>)
    ensures
        match r {
            Some(j) => j@ == value_model(*v) && !(j is Array) && !(j is Object),
            None => value_model(*v) is Array || value_model(*v) is Object,
        },
{
    match v {
        serde_json::Value::Null => Some(Json::Null),
        serde_json::Value::Bool(b) => Some(Json::Bool(*b)),
        serde_json::Value::Number(n) => Some(Json::Number(n.to_string())),
        serde_json::Value::String(s) => Some(Json::Str(s.clone())),
        serde_json::Value::Array(_) => None,
        serde_json::Value::Object(_) => None,
    }
}

/// Hands out the items of a `serde_json::Value::Array` in their order, as
/// `Value::as_array` and the iterator of `Vec` give them. The contract says
/// that items come back exactly for an array, and that the array's document
/// is made of the items' documents.
#[verifier::external_body]
fn items_of_value<'a>(v: &'a serde_json::Value) -> (r: Option<Vec<&'a serde_json::Value>>)
    ensures
        match r {
            Some(items) => value_model(*v) == JsonModel::Array(
                Seq::new(items@.len(), |i: int| value_model(*items@[i])),
            ),
            None => !(value_model(*v) is Array),
        },
{
    match v.as_array() {
        Some(items) => Some(items.iter().collect()),
        None => None,
    }
}

/// Hands out the members of a `serde_json::Value::Object`, each key with its
/// value, in the order of the iterator of `serde_json::Map`, as
/// `Value::as_object` gives them. The contract says that members come back
/// exactly for an object, and that the object's document is made of the
/// keys and the values' documents.
#[verifier::external_body]
fn members_of_value<'a>(v: &'a serde_json::Value) -> (r: Option<
    Vec<(String, &'a serde_json::Value)>,
>)
    ensures
        match r {
            Some(members) => value_model(*v) == JsonModel::Object(
                Seq::new(members@.len(), |i: int| (members@[i].0@, value_model(*members@[i].1))),
            ),
            None => !(value_model(*v) is Object),
        },
{
    match v.as_object() {
        Some(members) => Some(members.iter().map(|(k, x)| (k.clone(), x)).collect()),
        None => None,
    }
}

/// The document that `v` holds, as a value of this library. A value is a
/// scalar, an array or an object, so one of the three readings succeeds.
#[verifier::loop_isolation(false)]
fn json_of_value(v: &serde_json::Value) -> (r: Json)
    ensures
        r@ == value_model(*v),
    decreases value_model(*v),
{
    match scalar_of_value(v) {
        Some(j) => {
            return j;
        },
        None => {},
    }
    match items_of_value(v) {
        Some(items) => {
            let ghost held = value_model(*v)->Array_0;
            assert(held.len() == items@.len());
            let mut out: Vec<Json> = Vec::new();
            let mut i: usize = 0;
            while i < items.len()
                invariant
                    i <= items.len(),
                    items_view(out@) =~= held.take(i as int),
                decreases items.len() - i,
            {
                assert(held[i as int] == value_model(*items@[i as int]));
                assert(decreases_to!(held => held[i as int]));
                let item = json_of_value(items[i]);
                proof {
                    lemma_items_view_push(out@, item);
                    assert(held.take(i + 1) =~= held.take(i as int).push(held[i as int]));
                }
                out.push(item);
                i += 1;
            }
            assert(held.take(i as int) =~= held);
            Json::Array(out)
        },
        None => match members_of_value(v) {
            Some(members) => {
                let ghost held = value_model(*v)->Object_0;
                assert(held.len() == members@.len());
                let mut out: Vec<(String, Json)> = Vec::new();
                let mut i: usize = 0;
                while i < members.len()
                    invariant
                        i <= members.len(),
                        members_view(out@) =~= held.take(i as int),
                    decreases members.len() - i,
                {
                    assert(held[i as int] == (
                        members@[i as int].0@,
                        value_model(*members@[i as int].1),
                    ));
                    assert(decreases_to!(held => held[i as int]));
                    assert(decreases_to!(held[i as int] => held[i as int].1));
                    let name = members[i].0.clone();
                    let inner = json_of_value(members[i].1);
                    proof {
                        lemma_members_view_push(out@, name, inner);
                        assert(held.take(i + 1) =~= held.take(i as int).push(held[i as int]));
                    }
                    out.push((name, inner));
                    i += 1;
                }
                assert(held.take(i as int) =~= held);
                Json::Object(out)
            },
            None => vstd::pervasive::unreached(),
        },
    }
}

/// The value behind an optional document.
pub open spec fn model_of(document: Option<Json>) -> Option<JsonModel> {
    match document {
        Some(j) => Some(j@),
        None => None,
    }
}

/// Reads `text` as JSON. Text that is no JSON gives nothing; that is not an
/// error by itself.
pub fn parse_json(text: &str) -> (r: Option<Json>)
    ensures
        model_of(r) == json_text_value(text@),
{
    match value_from_text(text) {
        Some(v) => Some(json_of_value(&v)),
        None => None,
    }
}

} // verus!
