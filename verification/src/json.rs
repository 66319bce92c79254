use vstd::prelude::*;

verus! {

/// The mathematical model of a JSON value.
pub enum JsonV {
    Null,
    Bool(bool),
    Number(u64),
    Str(Seq<char>),
    Array(Seq<JsonV>),
    Object(Seq<(Seq<char>, JsonV)>),
}

/// A JSON value as the library builds it.
pub enum Json {
    Null,
    Bool(bool),
    Number(u64),
    Str(String),
    Array(Vec<Json>),
    Object(Vec<(String, Json)>),
}

impl Json {
    pub open spec fn model(self) -> JsonV
        decreases self, 1nat,
    {
        match self {
            Json::Null => JsonV::Null,
            Json::Bool(b) => JsonV::Bool(b),
            Json::Number(n) => JsonV::Number(n),
            Json::Str(s) => JsonV::Str(s@),
            Json::Array(items) => JsonV::Array(items_model(items@)),
            Json::Object(members) => JsonV::Object(members_model(members@)),
        }
    }
}

pub open spec fn items_model(items: Seq<Json>) -> Seq<JsonV>
    decreases items, 0nat,
{
    if items.len() == 0 {
        Seq::empty()
    } else {
        proof {
            vstd::seq::axiom_seq_subrange_decreases(items, 0, items.len() - 1);
        }
        items_model(items.drop_last()).push(items.last().model())
    }
}

pub open spec fn members_model(members: Seq<(String, Json)>) -> Seq<(Seq<char>, JsonV)>
    decreases members, 0nat,
{
    if members.len() == 0 {
        Seq::empty()
    } else {
        proof {
            vstd::seq::axiom_seq_subrange_decreases(members, 0, members.len() - 1);
        }
        members_model(members.drop_last()).push((members.last().0@, members.last().1.model()))
    }
}

/// `items_model` keeps the length and maps each item to its model.
pub proof fn lemma_items_model(items: Seq<Json>)
    ensures
        items_model(items).len() == items.len(),
        forall|i: int| 0 <= i < items.len() ==> #[trigger] items_model(items)[i] == items[i].model(),
    decreases items.len(),
{
    if items.len() > 0 {
        lemma_items_model(items.drop_last());
    }
}

/// `members_model` keeps the length and maps each member to its key's view and its value's model.
pub proof fn lemma_members_model(members: Seq<(String, Json)>)
    ensures
        members_model(members).len() == members.len(),
        forall|i: int|
            0 <= i < members.len() ==> #[trigger] members_model(members)[i] == (
                members[i].0@,
                members[i].1.model(),
            ),
    decreases members.len(),
{
    if members.len() > 0 {
        lemma_members_model(members.drop_last());
    }
}

/// A JSON string holding `s`.
pub fn json_string(s: &str) -> (r: Json)
    ensures
        r.model() == JsonV::Str(s@),
{
    Json::Str(String::from_str(s))
}

/// An object member: the key `key` with the value `value`.
pub fn member(key: &str, value: Json) -> (r: (String, Json))
    ensures
        r.0@ == key@,
        r.1 == value,
{
    (String::from_str(key), value)
}

/// No key occurs twice among the members of an object.
pub open spec fn keys_distinct(members: Seq<(Seq<char>, JsonV)>) -> bool {
    forall|i: int, j: int|
        0 <= i < j < members.len() ==> #[trigger] members[i].0 != #[trigger] members[j].0
}

/// A JSON value in which no object holds a key twice, as a JSON map requires.
pub open spec fn json_wf(v: JsonV) -> bool
    decreases v, 1nat,
{
    match v {
        JsonV::Array(items) => items_wf(items),
        JsonV::Object(members) => keys_distinct(members) && members_wf(members),
        _ => true,
    }
}

/// Every item of an array is well formed.
pub open spec fn items_wf(items: Seq<JsonV>) -> bool
    decreases items, 0nat,
{
    if items.len() == 0 {
        true
    } else {
        proof {
            vstd::seq::axiom_seq_subrange_decreases(items, 0, items.len() - 1);
        }
        items_wf(items.drop_last()) && json_wf(items.last())
    }
}

/// Every value of an object is well formed.
pub open spec fn members_wf(members: Seq<(Seq<char>, JsonV)>) -> bool
    decreases members, 0nat,
{
    if members.len() == 0 {
        true
    } else {
        proof {
            vstd::seq::axiom_seq_subrange_decreases(members, 0, members.len() - 1);
        }
        members_wf(members.drop_last()) && json_wf(members.last().1)
    }
}

/// An array is well formed exactly when each of its items is.
pub proof fn lemma_items_wf(items: Seq<JsonV>)
    ensures
        items_wf(items) <==> forall|i: int| 0 <= i < items.len() ==> #[trigger] json_wf(items[i]),
    decreases items.len(),
{
    if items.len() > 0 {
        lemma_items_wf(items.drop_last());
        if forall|i: int| 0 <= i < items.len() ==> #[trigger] json_wf(items[i]) {
            assert forall|i: int| 0 <= i < items.drop_last().len() implies #[trigger] json_wf(
                items.drop_last()[i],
            ) by {
                assert(items.drop_last()[i] == items[i]);
            }
            assert(json_wf(items[items.len() - 1]));
            assert(items_wf(items.drop_last()));
            assert(items_wf(items));
        }
        if items_wf(items) {
            assert(items_wf(items.drop_last()) && json_wf(items.last()));
            assert forall|i: int| 0 <= i < items.len() implies #[trigger] json_wf(items[i]) by {
                if i < items.len() - 1 {
                    assert(items.drop_last()[i] == items[i]);
                }
            }
        }
    }
}

/// The values of an object are well formed exactly when each of them is.
pub proof fn lemma_members_wf(members: Seq<(Seq<char>, JsonV)>)
    ensures
        members_wf(members) <==> forall|i: int|
            0 <= i < members.len() ==> #[trigger] json_wf(members[i].1),
    decreases members.len(),
{
    if members.len() > 0 {
        lemma_members_wf(members.drop_last());
        if forall|i: int| 0 <= i < members.len() ==> #[trigger] json_wf(members[i].1) {
            assert forall|i: int| 0 <= i < members.drop_last().len() implies #[trigger] json_wf(
                members.drop_last()[i].1,
            ) by {
                assert(members.drop_last()[i] == members[i]);
            }
            assert(json_wf(members[members.len() - 1].1));
            assert(members_wf(members.drop_last()));
            assert(members_wf(members));
        }
        if members_wf(members) {
            assert(members_wf(members.drop_last()) && json_wf(members.last().1));
            assert forall|i: int| 0 <= i < members.len() implies #[trigger] json_wf(members[i].1) by {
                if i < members.len() - 1 {
                    assert(members.drop_last()[i] == members[i]);
                }
            }
        }
    }
}

} // verus!
