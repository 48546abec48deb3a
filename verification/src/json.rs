//! JSON documents as trees of plain values.

use vstd::prelude::*;
use vstd::string::*;
use crate::text::str_eq;

verus! {

/// A JSON document as a mathematical tree. The members of an object stand in
/// the order in which the document's reader hands them out.
pub enum JsonValue {
    Null,
    Bool(bool),
    /// A number: its value where it is an integer, `None` where it is not.
    Number(Option<int>),
    String(Seq<char>),
    Array(Seq<JsonValue>),
    Object(Seq<(Seq<char>, JsonValue)>),
}

/// A JSON document.
#[derive(Debug)]
pub enum Json {
    Null,
    Bool(bool),
    /// A number: its value where it is an integer, `None` where it is not.
    Number(Option<i128>),
    String(String),
    Array(Vec<Json>),
    Object(Vec<(String, Json)>),
}

impl Json {
    /// The tree that the document is.
    pub open spec fn tree(&self) -> JsonValue
        decreases self,
    {
        match self {
            Json::Null => JsonValue::Null,
            Json::Bool(b) => JsonValue::Bool(*b),
            Json::Number(n) => JsonValue::Number(
                match n {
                    Some(v) => Some(*v as int),
                    None => None,
                },
            ),
            Json::String(s) => JsonValue::String(s@),
            Json::Array(items) => JsonValue::Array(
                Seq::new(
                    items@.len(),
                    |i: int|
                        if 0 <= i < items@.len() {
                            items@[i].tree()
                        } else {
                            JsonValue::Null
                        },
                ),
            ),
            Json::Object(members) => JsonValue::Object(
                Seq::new(
                    members@.len(),
                    |i: int|
                        if 0 <= i < members@.len() {
                            (members@[i].0@, members@[i].1.tree())
                        } else {
                            (Seq::empty(), JsonValue::Null)
                        },
                ),
            ),
        }
    }
}

impl View for Json {
    type V = JsonValue;

    open spec fn view(&self) -> JsonValue {
        self.tree()
    }
}

/// The index of the first member at or after `from` whose key is `key`.
pub open spec fn member_index(
    members: Seq<(Seq<char>, JsonValue)>,
    key: Seq<char>,
    from: int,
) -> Option<int>
    decreases members.len() - from,
{
    if from < 0 || from >= members.len() {
        None
    } else if members[from].0 == key {
        Some(from)
    } else {
        member_index(members, key, from + 1)
    }
}

impl JsonValue {
    /// The value of the member `key` of an object; `None` where `self` is no
    /// object or has no such member.
    pub open spec fn get(self, key: Seq<char>) -> Option<JsonValue> {
        match self {
            JsonValue::Object(members) => match member_index(members, key, 0) {
                Some(i) => Some(members[i].1),
                None => None,
            },
            _ => None,
        }
    }

    /// The characters of a string; `None` for any other value.
    pub open spec fn as_str(self) -> Option<Seq<char>> {
        match self {
            JsonValue::String(s) => Some(s),
            _ => None,
        }
    }

    /// The value of a boolean; `None` for any other value.
    pub open spec fn as_bool(self) -> Option<bool> {
        match self {
            JsonValue::Bool(b) => Some(b),
            _ => None,
        }
    }

    /// The value of a number that is an integer; `None` for any other value.
    pub open spec fn as_int(self) -> Option<int> {
        match self {
            JsonValue::Number(n) => n,
            _ => None,
        }
    }

    /// The value of a number that is an integer from 0 to `u64::MAX`; `None`
    /// for any other value.
    pub open spec fn as_u64(self) -> Option<u64> {
        match self.as_int() {
            Some(v) => if 0 <= v <= u64::MAX {
                Some(v as u64)
            } else {
                None
            },
            None => None,
        }
    }

    /// The items of an array; `None` for any other value.
    pub open spec fn as_array(self) -> Option<Seq<JsonValue>> {
        match self {
            JsonValue::Array(items) => Some(items),
            _ => None,
        }
    }

    /// The members of an object; `None` for any other value.
    pub open spec fn as_object(self) -> Option<Seq<(Seq<char>, JsonValue)>> {
        match self {
            JsonValue::Object(members) => Some(members),
            _ => None,
        }
    }
}

/// The view of a value that may be missing.
pub open spec fn view_of(j: Option<&Json>) -> Option<JsonValue> {
    match j {
        Some(j) => Some(j@),
        None => None,
    }
}

/// The views of the items of `items`, in order.
pub open spec fn views_of(items: Seq<Json>) -> Seq<JsonValue> {
    Seq::new(items.len(), |i: int| items[i]@)
}

/// The array that holds `items`, as a tree, holds their views.
pub proof fn lemma_array_view(j: Json)
    requires
        j is Array,
    ensures
        j@ == JsonValue::Array(views_of(j->Array_0@)),
{
    assert(j@->Array_0 =~= views_of(j->Array_0@));
}

impl Json {
    /// The value of the member `key` of an object.
    pub fn get(&self, key: &str) -> (r: Option<&Json>)
        ensures
            view_of(r) == self@.get(key@),
    {
        match self {
            Json::Object(members) => {
                let n: usize = members.len();
                let mut i: usize = 0;
                while i < n
                    invariant
                        0 <= i <= n,
                        n == members@.len(),
                        self@ is Object,
                        self@->Object_0.len() == n,
                        forall|k: int|
                            0 <= k < n ==> self@->Object_0[k] == (members@[k].0@, members@[k].1@),
                        member_index(self@->Object_0, key@, 0) == member_index(
                            self@->Object_0,
                            key@,
                            i as int,
                        ),
                    decreases n - i,
                {
                    if str_eq(members[i].0.as_str(), key) {
                        return Some(&members[i].1);
                    }
                    i = i + 1;
                }
                None
            },
            _ => None,
        }
    }

    /// The characters of a string.
    pub fn as_str(&self) -> (r: Option<&str>)
        ensures
            match r {
                Some(s) => self@.as_str() == Some(s@),
                None => self@.as_str() is None,
            },
    {
        match self {
            Json::String(s) => Some(s.as_str()),
            _ => None,
        }
    }

    /// The value of a boolean.
    pub fn as_bool(&self) -> (r: Option<bool>)
        ensures
            r == self@.as_bool(),
    {
        match self {
            Json::Bool(b) => Some(*b),
            _ => None,
        }
    }

    /// The value of a number that is an integer from 0 to `u64::MAX`.
    pub fn as_u64(&self) -> (r: Option<u64>)
        ensures
            r == self@.as_u64(),
    {
        match self {
            Json::Number(Some(v)) => {
                if 0 <= *v && *v <= 0xffff_ffff_ffff_ffff {
                    Some(*v as u64)
                } else {
                    None
                }
            },
            _ => None,
        }
    }

    /// The value of a number that is an integer from `i32::MIN` to `i32::MAX`.
    pub fn as_i32(&self) -> (r: Option<i32>)
        ensures
            match r {
                Some(v) => self@.as_int() == Some(v as int),
                None => match self@.as_int() {
                    Some(v) => v < i32::MIN || v > i32::MAX,
                    None => true,
                },
            },
    {
        match self {
            Json::Number(Some(v)) => {
                if -2147483648 <= *v && *v <= 2147483647 {
                    Some(*v as i32)
                } else {
                    None
                }
            },
            _ => None,
        }
    }

    /// The items of an array.
    pub fn as_array(&self) -> (r: Option<&Vec<Json>>)
        ensures
            match r {
                Some(items) => self@.as_array() == Some(views_of(items@)),
                None => self@.as_array() is None,
            },
    {
        match self {
            Json::Array(items) => {
                proof {
                    lemma_array_view(*self);
                }
                Some(items)
            },
            _ => None,
        }
    }

    /// Whether the value is a string.
    pub fn is_string(&self) -> (r: bool)
        ensures
            r == (self@ is String),
    {
        match self {
            Json::String(_) => true,
            _ => false,
        }
    }
}

impl Clone for Json {
    fn clone(&self) -> (r: Json)
        ensures
            r@ == self@,
        decreases self,
    {
        match self {
            Json::Null => Json::Null,
            Json::Bool(b) => Json::Bool(*b),
            Json::Number(n) => Json::Number(*n),
            Json::String(s) => Json::String(s.clone()),
            Json::Array(items) => {
                let mut out: Vec<Json> = Vec::new();
                let n: usize = items.len();
                let mut i: usize = 0;
                while i < n
                    invariant
                        0 <= i <= n,
                        n == items@.len(),
                        *self == Json::Array(*items),
                        out@.len() == i,
                        forall|k: int| 0 <= k < i ==> out@[k]@ == items@[k]@,
                    decreases n - i,
                {
                    assert(decreases_to!(*items => items@[i as int]));
                    assert(self is Array && self->Array_0 == *items);
                    assert(decreases_to!(*self => items@[i as int]));
                    let item = items[i].clone();
                    out.push(item);
                    i = i + 1;
                }
                let r = Json::Array(out);
                assert(r@->Array_0 =~= self@->Array_0);
                r
            },
            Json::Object(members) => {
                let mut out: Vec<(String, Json)> = Vec::new();
                let n: usize = members.len();
                let mut i: usize = 0;
                while i < n
                    invariant
                        0 <= i <= n,
                        n == members@.len(),
                        *self == Json::Object(*members),
                        out@.len() == i,
                        forall|k: int|
                            0 <= k < i ==> out@[k].0@ == members@[k].0@ && out@[k].1@
                                == members@[k].1@,
                    decreases n - i,
                {
                    let key = members[i].0.clone();
                    assert(decreases_to!(*members => members@[i as int]));
                    assert(self is Object && self->Object_0 == *members);
                    assert(decreases_to!(*self => members@[i as int].1));
                    let value = members[i].1.clone();
                    out.push((key, value));
                    i = i + 1;
                }
                let r = Json::Object(out);
                assert(r@->Object_0 =~= self@->Object_0);
                r
            },
        }
    }
}

/// `serde_json::Value`, the document as the JSON reader holds it. Nothing of
/// its inside is known here; `json_from_value` moves it into a `Json`.
#[verifier::external_type_specification]
#[verifier::external_body]
pub struct ExValue(serde_json::Value);

/// `serde_json::Error`, why the JSON reader gave up on a text. It is only
/// passed on, and mapped to `JsonError`.
#[verifier::external_type_specification]
#[verifier::external_body]
pub struct ExError(serde_json::Error);

/// The document that a text writes, where it writes one: what
/// `serde_json::from_str` reads from it. It depends on the text alone.
pub uninterp spec fn text_json(text: Seq<char>) -> Option<JsonValue>;

/// The document that a value of the JSON reader holds: a number by the
/// integer that it is, if it is one; the members of an object in the order
/// in which the value hands them out.
pub uninterp spec fn value_json(value: serde_json::Value) -> JsonValue;

/// `serde_json::from_str`, read as a `serde_json::Value`. It succeeds on the
/// texts that write a document, and the value it gives holds that document.
#[verifier::external_body]
fn value_from_text(text: &str) -> (r: Result<serde_json::Value, serde_json::Error>)
    ensures
        match r {
            Ok(value) => text_json(text@) == Some(value_json(value)),
            Err(_) => text_json(text@) is None,
        },
{
    serde_json::from_str::<serde_json::Value>(text)
}

/// Moves what a `serde_json::Value` holds into a `Json`, variant by variant:
/// a number through `Number::as_i128`, the members of an object in the order
/// of `Map::iter`.
#[verifier::external_body]
fn json_from_value(value: &serde_json::Value) -> (json: Json)
    ensures
        json@ == value_json(*value),
{
    match value {
        serde_json::Value::Null => Json::Null,
        serde_json::Value::Bool(b) => Json::Bool(*b),
        serde_json::Value::Number(n) => Json::Number(n.as_i128()),
        serde_json::Value::String(s) => Json::String(s.clone()),
        serde_json::Value::Array(items) => Json::Array(items.iter().map(json_from_value).collect()),
        serde_json::Value::Object(members) => Json::Object(
            members.iter().map(|(k, v)| (k.clone(), json_from_value(v))).collect(),
        ),
    }
}

/// Why a text could not be read.
#[derive(Clone, Copy, Debug, PartialEq, Eq, Structural)]
pub enum JsonError {
    /// The text writes no JSON document.
    Syntax,
}

impl Json {
    /// Reads a JSON document from `text`.
    pub fn parse(text: &str) -> (r: Result<Json, JsonError>)
        ensures
            match r {
                Ok(json) => text_json(text@) == Some(json@),
                Err(e) => text_json(text@) is None && e == JsonError::Syntax,
            },
    {
        match value_from_text(text) {
            Ok(value) => Ok(json_from_value(&value)),
            Err(_) => Err(JsonError::Syntax),
        }
    }
}

} // verus!
