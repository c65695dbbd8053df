//! A structured document: the tree of objects, arrays and scalars that
//! schemas, request payloads and response bodies are made of.
use vstd::prelude::*;
use vstd::string::StringExecFns;

verus! {

/// The mathematical value of a document. Numbers are held by their decimal
/// text; the members of an object keep the order in which they were written.
pub enum JsonModel {
    Null,
    Bool(bool),
    Number(Seq<char>),
    Str(Seq<char>),
    Array(Seq<JsonModel>),
    Object(Seq<(Seq<char>, JsonModel)>),
}

/// A document as it is held in memory.
#[derive(Debug, PartialEq, Eq)]
pub enum Json {
    Null,
    Bool(bool),
    Number(String),
    Str(String),
    Array(Vec<Json>),
    Object(Vec<(String, Json)>),
}

/// The values of a run of documents, one for one.
pub open spec fn items_view(items: Seq<Json>) -> Seq<JsonModel>
    decreases items,
{
    if items.len() == 0 {
        Seq::empty()
    } else {
        items_view(items.drop_last()).push(items.last().view())
    }
}

/// The keys and values of a run of members, one for one.
pub open spec fn members_view(members: Seq<(String, Json)>) -> Seq<(Seq<char>, JsonModel)>
    decreases members,
{
    if members.len() == 0 {
        Seq::empty()
    } else {
        members_view(members.drop_last()).push((members.last().0@, members.last().1.view()))
    }
}

impl View for Json {
    type V = JsonModel;

    open spec fn view(&self) -> JsonModel
        decreases self,
    {
        match self {
            Json::Null => JsonModel::Null,
            Json::Bool(b) => JsonModel::Bool(*b),
            Json::Number(n) => JsonModel::Number(n@),
            Json::Str(s) => JsonModel::Str(s@),
            Json::Array(items) => JsonModel::Array(items_view(items@)),
            Json::Object(members) => JsonModel::Object(members_view(members@)),
        }
    }
}

/// Adding one document to a run adds its value to the run's values.
pub proof fn lemma_items_view_push(items: Seq<Json>, j: Json)
    ensures
        items_view(items.push(j)) == items_view(items).push(j@),
{
    assert(items.push(j).drop_last() =~= items);
}

/// Adding one member to a run adds its key and value to the run's.
pub proof fn lemma_members_view_push(members: Seq<(String, Json)>, k: String, j: Json)
    ensures
        members_view(members.push((k, j))) == members_view(members).push((k@, j@)),
{
    assert(members.push((k, j)).drop_last() =~= members);
}

/// The value of the member named `key` among `members`: the last one so
/// named, if there is any.
pub open spec fn lookup(members: Seq<(Seq<char>, JsonModel)>, key: Seq<char>) -> Option<JsonModel>
    decreases members,
{
    if members.len() == 0 {
        None
    } else if members.last().0 == key {
        Some(members.last().1)
    } else {
        lookup(members.drop_last(), key)
    }
}

impl JsonModel {
    /// The member of an object by its name; nothing for any other document.
    pub open spec fn member(self, key: Seq<char>) -> Option<JsonModel> {
        match self {
            JsonModel::Object(members) => lookup(members, key),
            _ => None,
        }
    }

    /// The element of an array by its position; nothing for any other
    /// document or a position past the end.
    pub open spec fn element(self, index: int) -> Option<JsonModel> {
        match self {
            JsonModel::Array(items) => if 0 <= index < items.len() {
                Some(items[index])
            } else {
                None
            },
            _ => None,
        }
    }

    /// The text of a string; nothing for any other document.
    pub open spec fn text(self) -> Option<Seq<char>> {
        match self {
            JsonModel::Str(s) => Some(s),
            _ => None,
        }
    }
}

/// The member of `document` named `key`, where it is an object with one.
pub open spec fn member_of(document: Option<JsonModel>, key: Seq<char>) -> Option<JsonModel> {
    match document {
        Some(j) => j.member(key),
        None => None,
    }
}

/// The element of `document` at `index`, where it is an array that long.
pub open spec fn element_of(document: Option<JsonModel>, index: int) -> Option<JsonModel> {
    match document {
        Some(j) => j.element(index),
        None => None,
    }
}

/// The text of `document`, where it is a string.
pub open spec fn text_of(document: Option<JsonModel>) -> Option<Seq<char>> {
    match document {
        Some(j) => j.text(),
        None => None,
    }
}

/// The value behind an optional reference to a document.
pub open spec fn view_of(document: Option<&Json>) -> Option<JsonModel> {
    match document {
        Some(j) => Some(j@),
        None => None,
    }
}

/// Looking a key up after one more member was added finds that member, or
/// what was found before.
proof fn lemma_lookup_push(
    members: Seq<(Seq<char>, JsonModel)>,
    k: Seq<char>,
    j: JsonModel,
    key: Seq<char>,
)
    ensures
        lookup(members.push((k, j)), key) == if k == key {
            Some(j)
        } else {
            lookup(members, key)
        },
{
    assert(members.push((k, j)).drop_last() =~= members);
}

/// The values of a run keep the positions of its documents.
proof fn lemma_items_view_index(items: Seq<Json>, i: int)
    requires
        0 <= i < items.len(),
    ensures
        items_view(items).len() == items.len(),
        items_view(items)[i] == items[i]@,
    decreases items,
{
    lemma_items_view_len(items);
    lemma_items_view_len(items.drop_last());
    assert(items_view(items) == items_view(items.drop_last()).push(items.last().view()));
    if i < items.len() - 1 {
        lemma_items_view_index(items.drop_last(), i);
    }
}

/// A run has as many values as documents.
proof fn lemma_items_view_len(items: Seq<Json>)
    ensures
        items_view(items).len() == items.len(),
    decreases items,
{
    if items.len() > 0 {
        lemma_items_view_len(items.drop_last());
        assert(items_view(items) == items_view(items.drop_last()).push(items.last().view()));
    } else {
        assert(items_view(items) == Seq::<JsonModel>::empty());
    }
}

impl Json {
    /// A string document holding `s`.
    pub fn string(s: &str) -> (r: Json)
        ensures
            r@ == JsonModel::Str(s@),
    {
        Json::Str(String::from_str(s))
    }

    /// A number document written as `digits`.
    pub fn number(digits: &str) -> (r: Json)
        ensures
            r@ == JsonModel::Number(digits@),
    {
        Json::Number(String::from_str(digits))
    }

    /// An object with the given members.
    pub fn object(members: Vec<(String, Json)>) -> (r: Json)
        ensures
            r@ == JsonModel::Object(members_view(members@)),
    {
        Json::Object(members)
    }

    /// An array with the given items.
    pub fn array(items: Vec<Json>) -> (r: Json)
        ensures
            r@ == JsonModel::Array(items_view(items@)),
    {
        Json::Array(items)
    }

    /// A copy of this document.
    #[verifier::loop_isolation(false)]
    pub fn duplicate(&self) -> (r: Json)
        ensures
            r@ == self@,
        decreases self,
    {
        match self {
            Json::Null => Json::Null,
            Json::Bool(b) => Json::Bool(*b),
            Json::Number(n) => Json::Number(n.clone()),
            Json::Str(s) => Json::Str(s.clone()),
            Json::Array(items) => {
                let mut out: Vec<Json> = Vec::new();
                let mut i: usize = 0;
                while i < items.len()
                    invariant
                        i <= items.len(),
                        items_view(out@) == items_view(items@.take(i as int)),
                    decreases items.len() - i,
                {
                    let item = items[i].duplicate();
                    proof {
                        assert(items@.take(i + 1) =~= items@.take(i as int).push(items@[i as int]));
                        lemma_items_view_push(items@.take(i as int), items@[i as int]);
                        lemma_items_view_push(out@, item);
                    }
                    out.push(item);
                    i += 1;
                }
                assert(items@.take(i as int) =~= items@);
                Json::Array(out)
            },
            Json::Object(members) => {
                let mut out: Vec<(String, Json)> = Vec::new();
                let mut i: usize = 0;
                while i < members.len()
                    invariant
                        i <= members.len(),
                        members_view(out@) == members_view(members@.take(i as int)),
                    decreases members.len() - i,
                {
                    let name = members[i].0.clone();
                    let inner = members[i].1.duplicate();
                    proof {
                        assert(members@.take(i + 1) =~= members@.take(i as int).push(
                            members@[i as int],
                        ));
                        lemma_members_view_push(
                            members@.take(i as int),
                            members@[i as int].0,
                            members@[i as int].1,
                        );
                        lemma_members_view_push(out@, name, inner);
                    }
                    out.push((name, inner));
                    i += 1;
                }
                assert(members@.take(i as int) =~= members@);
                Json::Object(out)
            },
        }
    }

    /// The member named `key`, where this is an object that has one. Of
    /// several members so named the last counts.
    pub fn get(&self, key: &str) -> (r: Option<&Json>)
        ensures
            view_of(r) == self@.member(key@),
    {
        match self {
            Json::Object(members) => {
                let wanted = String::from_str(key);
                let mut i: usize = members.len();
                assert(members@.take(i as int) =~= members@);
                while i > 0
                    invariant
                        i <= members.len(),
                        wanted@ == key@,
                        self@.member(key@) == lookup(members_view(members@), key@),
                        lookup(members_view(members@), key@) == lookup(
                            members_view(members@.take(i as int)),
                            key@,
                        ),
                    decreases i,
                {
                    proof {
                        assert(members@.take(i as int) =~= members@.take(i - 1).push(
                            members@[i - 1],
                        ));
                        lemma_members_view_push(
                            members@.take(i - 1),
                            members@[i - 1].0,
                            members@[i - 1].1,
                        );
                        lemma_lookup_push(
                            members_view(members@.take(i - 1)),
                            members@[i - 1].0@,
                            members@[i - 1].1@,
                            key@,
                        );
                    }
                    i -= 1;
                    if members[i].0 == wanted {
                        return Some(&members[i].1);
                    }
                }
                assert(members@.take(0) =~= Seq::<(String, Json)>::empty());
                None
            },
            _ => None,
        }
    }

    /// The element at `index`, where this is an array that long.
    pub fn at(&self, index: usize) -> (r: Option<&Json>)
        ensures
            view_of(r) == self@.element(index as int),
    {
        match self {
            Json::Array(items) => {
                proof {
                    lemma_items_view_len(items@);
                }
                if index < items.len() {
                    proof {
                        lemma_items_view_index(items@, index as int);
                    }
                    Some(&items[index])
                } else {
                    None
                }
            },
            _ => None,
        }
    }

    /// The text, where this is a string.
    pub fn as_str(&self) -> (r: Option<&str>)
        ensures
            match r {
                Some(s) => self@.text() == Some(s@),
                None => self@.text().is_none(),
            },
    {
        match self {
            Json::Str(s) => Some(s.as_str()),
            _ => None,
        }
    }
}

/// The member named `key` of a document that may be missing.
pub fn member_in<'a>(document: Option<&'a Json>, key: &str) -> (r: Option<&'a Json>)
    ensures
        view_of(r) == member_of(view_of(document), key@),
{
    match document {
        Some(j) => j.get(key),
        None => None,
    }
}

/// The element at `index` of a document that may be missing.
pub fn element_in<'a>(document: Option<&'a Json>, index: usize) -> (r: Option<&'a Json>)
    ensures
        view_of(r) == element_of(view_of(document), index as int),
{
    match document {
        Some(j) => j.at(index),
        None => None,
    }
}

/// The text of a document that may be missing.
pub fn text_in<'a>(document: Option<&'a Json>) -> (r: Option<&'a str>)
    ensures
        match r {
            Some(s) => text_of(view_of(document)) == Some(s@),
            None => text_of(view_of(document)).is_none(),
        },
{
    match document {
        Some(j) => j.as_str(),
        None => None,
    }
}

/// Appends the member `key: value` to the members of an object under
/// construction.
pub fn push_member(members: &mut Vec<(String, Json)>, key: &str, value: Json)
    ensures
        members_view(final(members)@) == members_view(old(members)@).push((key@, value@)),
{
    let name = String::from_str(key);
    proof {
        lemma_members_view_push(members@, name, value);
    }
    members.push((name, value));
}

/// Appends `value` to the items of an array under construction.
pub fn push_item(items: &mut Vec<Json>, value: Json)
    ensures
        items_view(final(items)@) == items_view(old(items)@).push(value@),
{
    proof {
        lemma_items_view_push(items@, value);
    }
    items.push(value);
}

} // verus!
