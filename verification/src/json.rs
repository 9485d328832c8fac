//! JSON documents as plain values: the bodies of the requests that the
//! clients send and the data handed to templates.

use vstd::prelude::*;

verus! {

/// A JSON value.
#[derive(Debug, PartialEq)]
pub enum JsonValue {
    Null,
    Bool(bool),
    UInt(u64),
    Int(i64),
    Str(String),
    Array(Vec<JsonValue>),
    Object(Vec<JsonMember>),
}

/// One member of an object.
#[derive(Debug, PartialEq)]
pub struct JsonMember {
    pub key: String,
    pub value: JsonValue,
}

/// The mathematical view of a JSON value: numbers are integers, strings are
/// character sequences, objects keep their entries in order.
pub enum Json {
    Null,
    Bool(bool),
    Number(int),
    Str(Seq<char>),
    Array(Seq<Json>),
    Object(Seq<(Seq<char>, Json)>),
}

/// The views of a sequence of values.
pub open spec fn items_json(items: Seq<JsonValue>) -> Seq<Json>
    decreases items,
{
    if items.len() == 0 {
        Seq::empty()
    } else {
        items_json(items.drop_last()).push(items.last().view())
    }
}

/// The views of the members of an object.
pub open spec fn members_json(members: Seq<JsonMember>) -> Seq<(Seq<char>, Json)>
    decreases members,
{
    if members.len() == 0 {
        Seq::empty()
    } else {
        let m = members.last();
        members_json(members.drop_last()).push((m.key@, m.value.view()))
    }
}

impl View for JsonValue {
    type V = Json;

    open spec fn view(&self) -> Json
        decreases self,
    {
        match self {
            JsonValue::Null => Json::Null,
            JsonValue::Bool(b) => Json::Bool(*b),
            JsonValue::UInt(n) => Json::Number(*n as int),
            JsonValue::Int(n) => Json::Number(*n as int),
            JsonValue::Str(s) => Json::Str(s@),
            JsonValue::Array(items) => Json::Array(items_json(items@)),
            JsonValue::Object(members) => Json::Object(members_json(members@)),
        }
    }
}

pub proof fn lemma_items_json(items: Seq<JsonValue>)
    ensures
        items_json(items).len() == items.len(),
        forall|i: int| 0 <= i < items.len() ==> #[trigger] items_json(items)[i] == items[i]@,
    decreases items,
{
    if items.len() > 0 {
        lemma_items_json(items.drop_last());
        assert(items_json(items) == items_json(items.drop_last()).push(items.last().view()));
    } else {
        assert(items_json(items) == Seq::<Json>::empty());
    }
}

pub proof fn lemma_members_json(members: Seq<JsonMember>)
    ensures
        members_json(members).len() == members.len(),
        forall|i: int|
            0 <= i < members.len() ==> #[trigger] members_json(members)[i] == (
                members[i].key@,
                members[i].value@,
            ),
    decreases members,
{
    if members.len() > 0 {
        lemma_members_json(members.drop_last());
        let m = members.last();
        assert(members_json(members) == members_json(members.drop_last()).push(
            (m.key@, m.value.view()),
        ));
    } else {
        assert(members_json(members) == Seq::<(Seq<char>, Json)>::empty());
    }
}

/// The value of the first member named `key` among an object's members.
pub open spec fn member_value(members: Seq<(Seq<char>, Json)>, key: Seq<char>) -> Option<Json>
    decreases members.len(),
{
    if members.len() == 0 {
        None
    } else if members[0].0 == key {
        Some(members[0].1)
    } else {
        member_value(members.drop_first(), key)
    }
}

/// What indexing a JSON value by a key gives: the member of that name of an
/// object, and nothing for any other value.
pub open spec fn field_spec(j: Json, key: Seq<char>) -> Option<Json> {
    match j {
        Json::Object(members) => member_value(members, key),
        _ => None,
    }
}

/// The member named `key` of an object (the first, should several share the
/// name), or nothing when `data` is no object or has no such member.
pub fn field<'a>(data: &'a JsonValue, key: &str) -> (r: Option<&'a JsonValue>)
    ensures
        (match r {
            Some(v) => Some(v@),
            None => None,
        }) == field_spec(data@, key@),
{
    match data {
        JsonValue::Object(members) => {
            let ghost ms = members_json(members@);
            proof {
                lemma_members_json(members@);
                assert(ms.subrange(0, ms.len() as int) =~= ms);
            }
            let mut i: usize = 0;
            while i < members.len()
                invariant
                    data@ == Json::Object(ms),
                    ms == members_json(members@),
                    ms.len() == members.len(),
                    forall|k: int|
                        0 <= k < members.len() ==> #[trigger] ms[k] == (
                            members@[k].key@,
                            members@[k].value@,
                        ),
                    i <= members.len(),
                    member_value(ms, key@) == member_value(ms.subrange(i as int, ms.len() as int), key@),
                decreases members.len() - i,
            {
                let m = &members[i];
                let ghost rest = ms.subrange(i as int, ms.len() as int);
                assert(rest[0] == ms[i as int]);
                if crate::text::same_text(m.key.as_str(), key) {
                    return Some(&m.value);
                }
                assert(rest.drop_first() =~= ms.subrange(i + 1, ms.len() as int));
                i = i + 1;
            }
            assert(ms.subrange(i as int, ms.len() as int).len() == 0);
            None
        },
        _ => None,
    }
}

} // verus!
