//! A JSON value, as the library reads JSON schemas.
use vstd::prelude::*;

verus! {

/// A JSON value. Numbers are kept as their JSON text; object members keep
/// the order in which they were given.
#[derive(Debug, PartialEq)]
pub enum JsonValue {
    Null,
    Bool(bool),
    Number(String),
    String(String),
    Array(Vec<JsonValue>),
    Object(Vec<(String, JsonValue)>),
}

/// The value of the first member of `members` whose key is `key`.
pub open spec fn member_value(members: Seq<(String, JsonValue)>, key: Seq<char>) -> Option<JsonValue>
    decreases members.len(),
{
    if members.len() == 0 {
        None
    } else if members[0].0@ == key {
        Some(members[0].1)
    } else {
        member_value(members.drop_first(), key)
    }
}

/// `value.get(key)`: the member `key` of an object, `None` for anything else.
pub open spec fn json_get(value: JsonValue, key: Seq<char>) -> Option<JsonValue> {
    match value {
        JsonValue::Object(members) => member_value(members@, key),
        _ => None,
    }
}

/// `value.as_str()`: the text of a JSON string.
pub open spec fn json_as_str(value: JsonValue) -> Option<Seq<char>> {
    match value {
        JsonValue::String(s) => Some(s@),
        _ => None,
    }
}

/// `value.get(key).and_then(as_str)`.
pub open spec fn json_str_member(value: JsonValue, key: Seq<char>) -> Option<Seq<char>> {
    match json_get(value, key) {
        Some(v) => json_as_str(v),
        None => None,
    }
}

impl JsonValue {
    /// The member `key` of an object; `None` when `self` is not an object or
    /// has no such member.
    pub fn get(&self, key: &str) -> (r: Option<&JsonValue>)
        ensures
            r matches Some(v) ==> json_get(*self, key@) == Some(*v),
            r is None ==> json_get(*self, key@) is None,
    {
        match self {
            JsonValue::Object(members) => {
                let mut i: usize = 0;
                assert(members@.skip(0) =~= members@);
                while i < members.len()
                    invariant
                        i <= members@.len(),
                        json_get(*self, key@) == member_value(members@, key@),
                        member_value(members@, key@) == member_value(members@.skip(i as int), key@),
                    decreases members@.len() - i,
                {
                    assert(members@.skip(i as int).drop_first() =~= members@.skip(i + 1));
                    assert(members@.skip(i as int)[0] == members@[i as int]);
                    if crate::text::str_eq(members[i].0.as_str(), key) {
                        assert(member_value(members@.skip(i as int), key@) == Some(members@[i as int].1));
                        return Some(&members[i].1);
                    }
                    i = i + 1;
                }
                None
            },
            _ => None,
        }
    }

    /// The text of a JSON string.
    pub fn as_str(&self) -> (r: Option<&str>)
        ensures
            r matches Some(s) ==> json_as_str(*self) == Some(s@),
            r is None ==> json_as_str(*self) is None,
    {
        match self {
            JsonValue::String(s) => Some(s.as_str()),
            _ => None,
        }
    }

    /// The member `key`, when it is a JSON string.
    pub fn str_member(&self, key: &str) -> (r: Option<&str>)
        ensures
            r matches Some(s) ==> json_str_member(*self, key@) == Some(s@),
            r is None ==> json_str_member(*self, key@) is None,
    {
        match self.get(key) {
            Some(v) => v.as_str(),
            None => None,
        }
    }
}

/// The contents of a JSON value, with its strings by their text.
pub enum JsonView {
    Null,
    Bool(bool),
    Number(Seq<char>),
    String(Seq<char>),
    Array(Seq<JsonView>),
    Object(Seq<(Seq<char>, JsonView)>),
}

/// The contents of `v`.
pub open spec fn json_view(v: JsonValue) -> JsonView
    decreases v,
{
    match v {
        JsonValue::Null => JsonView::Null,
        JsonValue::Bool(b) => JsonView::Bool(b),
        JsonValue::Number(n) => JsonView::Number(n@),
        JsonValue::String(s) => JsonView::String(s@),
        JsonValue::Array(items) => JsonView::Array(
            Seq::new(items@.len(), |i: int| if 0 <= i < items@.len() { json_view(items@[i]) } else { JsonView::Null }),
        ),
        JsonValue::Object(members) => JsonView::Object(
            Seq::new(
                members@.len(),
                |i: int| if 0 <= i < members@.len() { (members@[i].0@, json_view(members@[i].1)) } else { (Seq::empty(), JsonView::Null) },
            ),
        ),
    }
}

fn copy_members(members: &Vec<(String, JsonValue)>) -> (r: Vec<(String, JsonValue)>)
    ensures
        r@.len() == members@.len(),
        forall|i: int|
            0 <= i < members@.len() ==> (#[trigger] r@[i]).0@ == members@[i].0@ && json_view(r@[i].1)
                == json_view(members@[i].1),
    decreases members@, 1nat,
{
    let mut out: Vec<(String, JsonValue)> = Vec::new();
    for k in 0..members.len()
        invariant
            out@.len() == k,
            forall|i: int|
                0 <= i < k ==> (#[trigger] out@[i]).0@ == members@[i].0@ && json_view(out@[i].1)
                    == json_view(members@[i].1),
    {
        let (name, value) = &members[k];
        assert(decreases_to!(members@ => members@[k as int]));
        out.push((name.clone(), copy_value(value)));
    }
    out
}

fn copy_items(items: &Vec<JsonValue>) -> (r: Vec<JsonValue>)
    ensures
        r@.len() == items@.len(),
        forall|i: int| 0 <= i < items@.len() ==> json_view(#[trigger] r@[i]) == json_view(items@[i]),
    decreases items@, 1nat,
{
    let mut out: Vec<JsonValue> = Vec::new();
    for k in 0..items.len()
        invariant
            out@.len() == k,
            forall|i: int| 0 <= i < k ==> json_view(#[trigger] out@[i]) == json_view(items@[i]),
    {
        out.push(copy_value(&items[k]));
    }
    out
}

fn copy_value(value: &JsonValue) -> (r: JsonValue)
    ensures
        json_view(r) == json_view(*value),
    decreases value, 0nat,
{
    match value {
        JsonValue::Null => JsonValue::Null,
        JsonValue::Bool(b) => JsonValue::Bool(*b),
        JsonValue::Number(n) => JsonValue::Number(n.clone()),
        JsonValue::String(s) => JsonValue::String(s.clone()),
        JsonValue::Array(items) => {
            let copied = copy_items(items);
            proof {
                let ghost x = json_view(JsonValue::Array(copied));
                let ghost y = json_view(*value);
                assert(x->Array_0 =~= y->Array_0);
            }
            JsonValue::Array(copied)
        },
        JsonValue::Object(members) => {
            let copied = copy_members(members);
            proof {
                let ghost x = json_view(JsonValue::Object(copied));
                let ghost y = json_view(*value);
                assert(x->Object_0 =~= y->Object_0);
            }
            JsonValue::Object(copied)
        },
    }
}

impl Clone for JsonValue {
    fn clone(&self) -> (r: JsonValue)
        ensures
            json_view(r) == json_view(*self),
    {
        copy_value(self)
    }
}

} // verus!
