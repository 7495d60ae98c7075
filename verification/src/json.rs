//! JSON documents: the form in which every value of the protocol travels.
//!
//! [`Json`] is the document that a program holds, [`JsonValue`] what it stands
//! for in contracts. The two are related by `deep_view`.

use vstd::prelude::*;

verus! {

/// A JSON number, kept as it was written: a non-negative integer, a negative
/// integer, or any other number as the bits of its IEEE 754 double.
#[derive(Debug, PartialEq, Eq, Structural, Clone, Copy)]
pub enum Number {
    PosInt(u64),
    NegInt(i64),
    Float(u64),
}

impl DeepView for Number {
    type V = Number;

    open spec fn deep_view(&self) -> Number {
        *self
    }
}

/// What a JSON document stands for. The members of an object keep the order
/// in which they are written.
pub enum JsonValue {
    Null,
    Bool(bool),
    Number(Number),
    String(Seq<char>),
    Array(Seq<JsonValue>),
    Object(Seq<(Seq<char>, JsonValue)>),
}

/// A JSON document.
#[derive(Debug, PartialEq, Eq)]
pub enum Json {
    Null,
    Bool(bool),
    Number(Number),
    String(String),
    Array(Vec<Json>),
    Object(Vec<(String, Json)>),
}

impl DeepView for Json {
    type V = JsonValue;

    open spec fn deep_view(&self) -> JsonValue {
        json_view(*self)
    }
}

/// The value that a document stands for.
pub open spec fn json_view(json: Json) -> JsonValue
    decreases json,
{
    match json {
        Json::Null => JsonValue::Null,
        Json::Bool(b) => JsonValue::Bool(b),
        Json::Number(n) => JsonValue::Number(n),
        Json::String(s) => JsonValue::String(s@),
        Json::Array(items) => JsonValue::Array(items_view(items@)),
        Json::Object(members) => JsonValue::Object(members_view(members@)),
    }
}

/// The values that a sequence of documents stands for, in order.
pub open spec fn items_view(items: Seq<Json>) -> Seq<JsonValue>
    decreases items,
{
    if items.len() == 0 {
        Seq::empty()
    } else {
        items_view(items.drop_last()).push(json_view(items.last()))
    }
}

/// The members that a sequence of key and document pairs stands for, in order.
pub open spec fn members_view(members: Seq<(String, Json)>) -> Seq<(Seq<char>, JsonValue)>
    decreases members,
{
    if members.len() == 0 {
        Seq::empty()
    } else {
        members_view(members.drop_last()).push(
            (members.last().0@, json_view(members.last().1)),
        )
    }
}

/// The view of a sequence of documents holds the view of each document.
pub proof fn lemma_items_view(items: Seq<Json>)
    ensures
        items_view(items).len() == items.len(),
        forall|i: int| 0 <= i < items.len() ==> #[trigger] items_view(items)[i] == items[i].deep_view(),
    decreases items.len(),
{
    if items.len() > 0 {
        lemma_items_view(items.drop_last());
    }
}

/// The view of a sequence of members holds the view of each member.
pub proof fn lemma_members_view(members: Seq<(String, Json)>)
    ensures
        members_view(members).len() == members.len(),
        forall|i: int| 0 <= i < members.len() ==> #[trigger] members_view(members)[i] == (
            members[i].0@,
            members[i].1.deep_view(),
        ),
    decreases members.len(),
{
    if members.len() > 0 {
        lemma_members_view(members.drop_last());
    }
}

/// An array stands for the array of what its items stand for.
pub proof fn lemma_array_view(items: Vec<Json>)
    ensures
        Json::Array(items).deep_view() == JsonValue::Array(items.deep_view()),
{
    lemma_items_view(items@);
    assert(items_view(items@) =~= items.deep_view());
}

/// An object stands for the object of what its members stand for.
pub proof fn lemma_object_view(members: Vec<(String, Json)>)
    ensures
        Json::Object(members).deep_view() == JsonValue::Object(members.deep_view()),
{
    lemma_members_view(members@);
    assert(members_view(members@) =~= members.deep_view());
}

/// A JSON object that is held as it is: its members, in order.
#[derive(Debug, PartialEq, Eq, Default)]
pub struct LSPObject {
    pub members: Vec<(String, Json)>,
}

impl DeepView for LSPObject {
    type V = Seq<(Seq<char>, JsonValue)>;

    open spec fn deep_view(&self) -> Seq<(Seq<char>, JsonValue)> {
        self.members.deep_view()
    }
}

/// Copies the members of an object.
pub fn copy_members(members: &Vec<(String, Json)>) -> (copies: Vec<(String, Json)>)
    ensures
        copies.deep_view() == members.deep_view(),
{
    let mut copies: Vec<(String, Json)> = Vec::new();
    let mut i: usize = 0;
    while i < members.len()
        invariant
            i <= members.len(),
            copies.len() == i,
            forall|k: int|
                0 <= k < i ==> (#[trigger] copies@[k]).deep_view() == members@[k].deep_view(),
        decreases members.len() - i,
    {
        copies.push((members[i].0.clone(), copy_of(&members[i].1)));
        i += 1;
    }
    proof {
        assert(copies.deep_view() =~= members.deep_view());
    }
    copies
}

impl Clone for LSPObject {
    fn clone(&self) -> (copy: LSPObject)
        ensures
            copy.deep_view() == self.deep_view(),
    {
        LSPObject { members: copy_members(&self.members) }
    }
}

impl Clone for Json {
    fn clone(&self) -> (copy: Json)
        ensures
            copy.deep_view() == self.deep_view(),
    {
        copy_of(self)
    }
}

/// Copies a document, member by member.
pub fn copy_of(json: &Json) -> (copy: Json)
    ensures
        copy.deep_view() == json.deep_view(),
    decreases *json,
{
    match json {
        Json::Null => Json::Null,
        Json::Bool(b) => Json::Bool(*b),
        Json::Number(n) => Json::Number(*n),
        Json::String(s) => Json::String(s.clone()),
        Json::Array(items) => {
            let mut copies: Vec<Json> = Vec::new();
            let mut i: usize = 0;
            while i < items.len()
                invariant
                    i <= items.len(),
                    copies.len() == i,
                    json == Json::Array(*items),
                    forall|k: int| 0 <= k < i ==> copies@[k].deep_view() == items@[k].deep_view(),
                decreases items.len() - i,
            {
                proof {
                    assert(decreases_to!(*json => json->Array_0));
                    assert(decreases_to!(*json => items@[i as int]));
                }
                copies.push(copy_of(&items[i]));
                i += 1;
            }
            proof {
                assert(copies.deep_view() =~= items.deep_view());
                lemma_array_view(copies);
                lemma_array_view(*items);
            }
            Json::Array(copies)
        },
        Json::Object(members) => {
            let mut copies: Vec<(String, Json)> = Vec::new();
            let mut i: usize = 0;
            while i < members.len()
                invariant
                    i <= members.len(),
                    copies.len() == i,
                    json == Json::Object(*members),
                    forall|k: int| 0 <= k < i ==> copies@[k].deep_view() == members@[k].deep_view(),
                decreases members.len() - i,
            {
                proof {
                    assert(decreases_to!(*json => json->Object_0));
                    assert(decreases_to!(*json => members@[i as int].1));
                }
                copies.push((members[i].0.clone(), copy_of(&members[i].1)));
                i += 1;
            }
            proof {
                assert(copies.deep_view() =~= members.deep_view());
                lemma_object_view(copies);
                lemma_object_view(*members);
            }
            Json::Object(copies)
        },
    }
}

} // verus!
