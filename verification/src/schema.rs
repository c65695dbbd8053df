//! Rewriting a schema for a backend whose structured-output engine does not
//! accept the `additionalProperties` keyword.
use vstd::prelude::*;
use crate::json::{Json, JsonModel, items_view, members_view, lemma_items_view_push, lemma_members_view_push};

verus! {

/// The keyword that is taken out of a schema.
pub open spec fn additional_properties_key() -> Seq<char> {
    "additionalProperties"@
}

/// The document `j` without any member named `additionalProperties`, at any
/// depth. Everything else stays, in its order.
pub open spec fn strip(j: JsonModel) -> JsonModel
    decreases j,
{
    match j {
        JsonModel::Array(items) => JsonModel::Array(strip_items(items)),
        JsonModel::Object(members) => JsonModel::Object(strip_members(members)),
        _ => j,
    }
}

/// `strip` applied to each document of a run.
pub open spec fn strip_items(items: Seq<JsonModel>) -> Seq<JsonModel>
    decreases items,
{
    if items.len() == 0 {
        Seq::empty()
    } else {
        strip_items(items.drop_last()).push(strip(items.last()))
    }
}

/// The members of an object that are kept, each with its value stripped.
pub open spec fn strip_members(members: Seq<(Seq<char>, JsonModel)>) -> Seq<(Seq<char>, JsonModel)>
    decreases members,
{
    if members.len() == 0 {
        Seq::empty()
    } else if members.last().0 == additional_properties_key() {
        strip_members(members.drop_last())
    } else {
        strip_members(members.drop_last()).push((members.last().0, strip(members.last().1)))
    }
}

/// No object anywhere in `j` has a member named `additionalProperties`.
pub open spec fn free_of_additional_properties(j: JsonModel) -> bool
    decreases j,
{
    match j {
        JsonModel::Array(items) => items_free(items),
        JsonModel::Object(members) => members_free(members),
        _ => true,
    }
}

/// Every document of the run is free of the keyword.
pub open spec fn items_free(items: Seq<JsonModel>) -> bool
    decreases items,
{
    items.len() == 0 || (items_free(items.drop_last()) && free_of_additional_properties(
        items.last(),
    ))
}

/// No member of the run is named by the keyword, and every value is free of it.
pub open spec fn members_free(members: Seq<(Seq<char>, JsonModel)>) -> bool
    decreases members,
{
    members.len() == 0 || (members_free(members.drop_last()) && members.last().0
        != additional_properties_key() && free_of_additional_properties(members.last().1))
}

/// Stripping a run with one more document strips that document too.
proof fn lemma_strip_items_push(items: Seq<JsonModel>, j: JsonModel)
    ensures
        strip_items(items.push(j)) == strip_items(items).push(strip(j)),
{
    assert(items.push(j).drop_last() =~= items);
}

/// Stripping a run with one more member drops that member if it is named
/// by the keyword, and strips its value if not.
proof fn lemma_strip_members_push(members: Seq<(Seq<char>, JsonModel)>, k: Seq<char>, j: JsonModel)
    ensures
        strip_members(members.push((k, j))) == if k == additional_properties_key() {
            strip_members(members)
        } else {
            strip_members(members).push((k, strip(j)))
        },
{
    assert(members.push((k, j)).drop_last() =~= members);
}

/// Stripping is total: nothing named `additionalProperties` is left in the
/// result, in any object at any depth.
pub proof fn lemma_strip_removes_every_occurrence(j: JsonModel)
    ensures
        free_of_additional_properties(strip(j)),
    decreases j,
{
    match j {
        JsonModel::Array(items) => lemma_strip_items_free(items),
        JsonModel::Object(members) => lemma_strip_members_free(members),
        _ => {},
    }
}

/// Nothing named by the keyword is left in a stripped run of documents.
proof fn lemma_strip_items_free(items: Seq<JsonModel>)
    ensures
        items_free(strip_items(items)),
    decreases items,
{
    if items.len() > 0 {
        lemma_strip_items_free(items.drop_last());
        lemma_strip_removes_every_occurrence(items.last());
        let kept = strip_items(items.drop_last());
        assert(kept.push(strip(items.last())).drop_last() =~= kept);
    }
}

/// Nothing named by the keyword is left in a stripped run of members.
proof fn lemma_strip_members_free(members: Seq<(Seq<char>, JsonModel)>)
    ensures
        members_free(strip_members(members)),
    decreases members,
{
    if members.len() > 0 {
        lemma_strip_members_free(members.drop_last());
        lemma_strip_removes_every_occurrence(members.last().1);
        let kept = strip_members(members.drop_last());
        let m = (members.last().0, strip(members.last().1));
        assert(kept.push(m).drop_last() =~= kept);
    }
}

/// A document that holds no `additionalProperties` is left as it is.
pub proof fn lemma_strip_keeps_free_document(j: JsonModel)
    requires
        free_of_additional_properties(j),
    ensures
        strip(j) == j,
    decreases j,
{
    match j {
        JsonModel::Array(items) => lemma_strip_keeps_free_items(items),
        JsonModel::Object(members) => lemma_strip_keeps_free_members(members),
        _ => {},
    }
}

/// A run of documents free of the keyword is left as it is.
proof fn lemma_strip_keeps_free_items(items: Seq<JsonModel>)
    requires
        items_free(items),
    ensures
        strip_items(items) == items,
    decreases items,
{
    if items.len() > 0 {
        lemma_strip_keeps_free_items(items.drop_last());
        lemma_strip_keeps_free_document(items.last());
        assert(items.drop_last().push(items.last()) =~= items);
    }
}

/// A run of members free of the keyword is left as it is.
proof fn lemma_strip_keeps_free_members(members: Seq<(Seq<char>, JsonModel)>)
    requires
        members_free(members),
    ensures
        strip_members(members) == members,
    decreases members,
{
    if members.len() > 0 {
        lemma_strip_keeps_free_members(members.drop_last());
        lemma_strip_keeps_free_document(members.last().1);
        assert(members.drop_last().push(members.last()) =~= members);
    }
}

/// Stripping is idempotent: a second pass changes nothing.
pub proof fn lemma_strip_idempotent(j: JsonModel)
    ensures
        strip(strip(j)) == strip(j),
{
    lemma_strip_removes_every_occurrence(j);
    lemma_strip_keeps_free_document(strip(j));
}

/// A copy of `value` without any `additionalProperties` member.
#[verifier::loop_isolation(false)]
pub fn stripped(value: &Json) -> (r: Json)
    ensures
        r@ == strip(value@),
        free_of_additional_properties(r@),
    decreases value,
{
    proof {
        lemma_strip_removes_every_occurrence(value@);
    }
    match value {
        Json::Null => Json::Null,
        Json::Bool(b) => Json::Bool(*b),
        Json::Number(n) => Json::Number(n.clone()),
        Json::Str(s) => Json::Str(s.clone()),
        Json::Array(items) => {
            let mut out: Vec<Json> = Vec::new();
            let mut i: usize = 0;
            while i < items.len()
                invariant
                    i <= items.len(),
                    items_view(out@) == strip_items(items_view(items@.take(i as int))),
                decreases items.len() - i,
            {
                let item = stripped(&items[i]);
                proof {
                    assert(items@.take(i + 1) =~= items@.take(i as int).push(items@[i as int]));
                    lemma_items_view_push(items@.take(i as int), items@[i as int]);
                    lemma_items_view_push(out@, item);
                    lemma_strip_items_push(items_view(items@.take(i as int)), items@[i as int]@);
                }
                out.push(item);
                i += 1;
            }
            assert(items@.take(i as int) =~= items@);
            Json::Array(out)
        },
        Json::Object(members) => {
            let key = String::from_str("additionalProperties");
            let mut out: Vec<(String, Json)> = Vec::new();
            let mut i: usize = 0;
            while i < members.len()
                invariant
                    i <= members.len(),
                    key@ == additional_properties_key(),
                    members_view(out@) == strip_members(members_view(members@.take(i as int))),
                decreases members.len() - i,
            {
                proof {
                    assert(members@.take(i + 1) =~= members@.take(i as int).push(
                        members@[i as int],
                    ));
                    lemma_members_view_push(
                        members@.take(i as int),
                        members@[i as int].0,
                        members@[i as int].1,
                    );
                    lemma_strip_members_push(
                        members_view(members@.take(i as int)),
                        members@[i as int].0@,
                        members@[i as int].1@,
                    );
                }
                if members[i].0 != key {
                    let name = members[i].0.clone();
                    let inner = stripped(&members[i].1);
                    proof {
                        lemma_members_view_push(out@, name, inner);
                    }
                    out.push((name, inner));
                }
                i += 1;
            }
            assert(members@.take(i as int) =~= members@);
            Json::Object(out)
        },
    }
}

/// Takes every `additionalProperties` member out of `value`, at any depth:
/// out of objects, and out of whatever arrays and objects they hold.
pub fn remove_additional_properties(value: &mut Json)
    ensures
        final(value)@ == strip(old(value)@),
        free_of_additional_properties(final(value)@),
{
    let rewritten = stripped(value);
    *value = rewritten;
}

} // verus!
