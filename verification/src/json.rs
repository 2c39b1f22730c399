//! JSON documents as plain data, read from and written to text by
//! `serde_json`.

use crate::text::str_eq;
use serde_json::Value;
use vstd::prelude::*;

verus! {

/// Mathematical model of a JSON document. A number is held as its
/// decimal text; an object as its members in the order given. Where
/// members share a name, the last of them counts, as it does for
/// `serde_json`.
pub ghost enum JsonValue {
    Null,
    Bool(bool),
    Number(Seq<char>),
    Str(Seq<char>),
    Array(Seq<JsonValue>),
    Object(Seq<(Seq<char>, JsonValue)>),
}

/// The value of the last of `members` that is named `key`.
pub open spec fn lookup(members: Seq<(Seq<char>, JsonValue)>, key: Seq<char>) -> Option<JsonValue>
    decreases members.len(),
{
    if members.len() == 0 {
        None
    } else if members.last().0 == key {
        Some(members.last().1)
    } else {
        lookup(members.drop_last(), key)
    }
}

/// `members` without those named `key`, the others in their order.
pub open spec fn without_key(members: Seq<(Seq<char>, JsonValue)>, key: Seq<char>) -> Seq<
    (Seq<char>, JsonValue),
>
    decreases members.len(),
{
    if members.len() == 0 {
        Seq::empty()
    } else {
        let rest = without_key(members.drop_last(), key);
        if members.last().0 == key {
            rest
        } else {
            rest.push(members.last())
        }
    }
}

impl JsonValue {
    /// The member named `key`, where the document is an object that has one.
    pub open spec fn member(self, key: Seq<char>) -> Option<JsonValue> {
        match self {
            JsonValue::Object(members) => lookup(members, key),
            _ => None,
        }
    }

    /// The document without its members named `key`; itself where it is
    /// no object.
    pub open spec fn without(self, key: Seq<char>) -> JsonValue {
        match self {
            JsonValue::Object(members) => JsonValue::Object(without_key(members, key)),
            _ => self,
        }
    }

    /// The text, where the document is a string.
    pub open spec fn as_text(self) -> Option<Seq<char>> {
        match self {
            JsonValue::Str(s) => Some(s),
            _ => None,
        }
    }

    /// The text of member `key`, where the document is an object whose
    /// member `key` is a string.
    pub open spec fn text_member(self, key: Seq<char>) -> Option<Seq<char>> {
        match self.member(key) {
            Some(v) => v.as_text(),
            None => None,
        }
    }
}

/// A JSON document.
#[derive(Debug, PartialEq, Eq)]
pub enum Json {
    Null,
    Bool(bool),
    /// A number, as its decimal text.
    Number(String),
    Str(String),
    Array(Vec<Json>),
    /// An object: its members in the order given. Where members share
    /// a name, the last of them counts.
    Object(Vec<(String, Json)>),
}

/// The document that `doc` holds.
pub open spec fn model_of(doc: Json) -> JsonValue
    decreases doc,
{
    match doc {
        Json::Null => JsonValue::Null,
        Json::Bool(b) => JsonValue::Bool(b),
        Json::Number(n) => JsonValue::Number(n@),
        Json::Str(s) => JsonValue::Str(s@),
        Json::Array(items) => JsonValue::Array(
            Seq::new(
                items@.len(),
                |i: int|
                    if 0 <= i < items@.len() {
                        model_of(items@[i])
                    } else {
                        JsonValue::Null
                    },
            ),
        ),
        Json::Object(members) => JsonValue::Object(
            Seq::new(
                members@.len(),
                |i: int|
                    if 0 <= i < members@.len() {
                        (members@[i].0@, model_of(members@[i].1))
                    } else {
                        (Seq::empty(), JsonValue::Null)
                    },
            ),
        ),
    }
}

impl View for Json {
    type V = JsonValue;

    open spec fn view(&self) -> JsonValue {
        model_of(*self)
    }
}

/// What `serde_json` reads from a text: the document, or the message of
/// the error it reports.
pub uninterp spec fn json_parse(text: Seq<char>) -> Result<JsonValue, Seq<char>>;

/// The compact text that `serde_json` writes for a document, once it
/// holds the document in its own way: the members of an object by
/// their names in ascending order, of members that share a name the
/// last, and null for a number whose text it does not read as one.
pub uninterp spec fn json_text(doc: JsonValue) -> Seq<char>;

/// `serde_json::Value`, of which nothing is known here but that it is a
/// type: values of it pass between the calls into `serde_json`.
#[verifier::external_type_specification]
#[verifier::external_body]
pub struct ExValue(serde_json::Value);

/// Rebuilds a `serde_json::Value` as a `Json`, variant by variant; a
/// number becomes the text that `serde_json` displays for it, an object
/// its members in the order in which `serde_json` walks them.
#[verifier::external_body]
fn lift(v: &Value) -> Json {
    match v {
        Value::Null => Json::Null,
        Value::Bool(b) => Json::Bool(*b),
        Value::Number(n) => Json::Number(n.to_string()),
        Value::String(s) => Json::Str(s.clone()),
        Value::Array(a) => Json::Array(a.iter().map(lift).collect()),
        Value::Object(m) => Json::Object(m.iter().map(|(k, x)| (k.clone(), lift(x))).collect()),
    }
}

/// Rebuilds a `Json` as a `serde_json::Value`, variant by variant; a
/// number is read back from its text by `serde_json`, and is null where
/// `serde_json` does not read the text as a number. The members of an
/// object go into `serde_json`'s map, which holds them by their names in
/// ascending order and keeps the last of those that share a name.
#[verifier::external_body]
fn lower(j: &Json) -> Value {
    match j {
        Json::Null => Value::Null,
        Json::Bool(b) => Value::Bool(*b),
        Json::Number(n) => serde_json::from_str(n).map_or(Value::Null, Value::Number),
        Json::Str(s) => Value::String(s.clone()),
        Json::Array(a) => Value::Array(a.iter().map(lower).collect()),
        Json::Object(m) => Value::Object(m.iter().map(|(k, x)| (k.clone(), lower(x))).collect()),
    }
}

/// Calls `serde_json::from_str` for a `serde_json::Value`. The result
/// depends on the text alone: the document read, or the error's message.
#[verifier::external_body]
fn parse_text(text: &str) -> (r: Result<Json, String>)
    ensures
        match r {
            Ok(doc) => json_parse(text@) == Ok::<JsonValue, Seq<char>>(doc@),
            Err(message) => json_parse(text@) == Err::<JsonValue, Seq<char>>(message@),
        },
{
    match serde_json::from_str::<Value>(text) {
        Ok(v) => Ok(lift(&v)),
        Err(e) => Err(e.to_string()),
    }
}

/// Calls `serde_json::to_string` on the document as `serde_json` holds
/// it. The text written depends on the document alone; it need not list
/// an object's members in the order in which the document holds them.
#[verifier::external_body]
fn write_text(doc: &Json) -> (r: String)
    ensures
        r@ == json_text(doc@),
{
    serde_json::to_string(&lower(doc)).unwrap_or_default()
}

/// Where no member behind index `i` is named `key` and the one at `i`
/// is, looking `key` up gives that member's value; where `i` is -1, it
/// gives none.
pub proof fn lemma_lookup_at(members: Seq<(Seq<char>, JsonValue)>, key: Seq<char>, i: int)
    requires
        -1 <= i < members.len(),
        forall|j: int| i < j < members.len() ==> (#[trigger] members[j]).0 != key,
        0 <= i ==> members[i].0 == key,
    ensures
        lookup(members, key) == if 0 <= i {
            Some(members[i].1)
        } else {
            None
        },
    decreases members.len() - i,
{
    if i + 1 < members.len() {
        let rest = members.drop_last();
        assert forall|j: int| i < j < rest.len() implies (#[trigger] rest[j]).0 != key by {
            assert(rest[j] == members[j]);
        }
        if 0 <= i {
            assert(rest[i] == members[i]);
        }
        lemma_lookup_at(rest, key, i);
    }
}

impl Clone for Json {
    fn clone(&self) -> (r: Self)
        ensures
            r@ == self@,
        decreases self,
    {
        match self {
            Json::Null => Json::Null,
            Json::Bool(b) => Json::Bool(*b),
            Json::Number(n) => Json::Number(n.clone()),
            Json::Str(s) => Json::Str(s.clone()),
            Json::Array(items) => {
                let mut out: Vec<Json> = Vec::new();
                let mut i: usize = 0;
                while i < items.len()
                    invariant
                        i <= items.len(),
                        out.len() == i,
                        *self == Json::Array(*items),
                        forall|j: int| 0 <= j < i ==> (#[trigger] out@[j])@ == items@[j]@,
                    decreases items.len() - i,
                {
                    proof {
                        assert(decreases_to!(*self => self->Array_0));
                        assert(decreases_to!(self->Array_0 => self->Array_0[i as int]));
                    }
                    out.push(items[i].clone());
                    i += 1;
                }
                let r = Json::Array(out);
                assert(r@->Array_0 =~= self@->Array_0);
                r
            },
            Json::Object(members) => {
                let mut out: Vec<(String, Json)> = Vec::new();
                let mut i: usize = 0;
                while i < members.len()
                    invariant
                        i <= members.len(),
                        out.len() == i,
                        *self == Json::Object(*members),
                        forall|j: int|
                            0 <= j < i ==> (#[trigger] out@[j]).0@ == members@[j].0@ && out@[j].1@
                                == members@[j].1@,
                    decreases members.len() - i,
                {
                    proof {
                        assert(decreases_to!(*self => self->Object_0));
                        assert(decreases_to!(self->Object_0 => self->Object_0[i as int]));
                        assert(decreases_to!(self->Object_0[i as int] => self->Object_0[i as int].1));
                    }
                    let name = members[i].0.clone();
                    let value = members[i].1.clone();
                    out.push((name, value));
                    i += 1;
                }
                let r = Json::Object(out);
                assert(r@->Object_0 =~= self@->Object_0);
                r
            },
        }
    }
}

impl Json {
    /// Reads a document from JSON text; on failure, the message of the
    /// parser's error.
    pub fn parse(text: &str) -> (r: Result<Json, String>)
        ensures
            match r {
                Ok(doc) => json_parse(text@) == Ok::<JsonValue, Seq<char>>(doc@),
                Err(message) => json_parse(text@) == Err::<JsonValue, Seq<char>>(message@),
            },
    {
        parse_text(text)
    }

    /// The document as compact JSON text. An object's members are
    /// written by their names in ascending order, of members that share
    /// a name the last.
    pub fn to_text(&self) -> (r: String)
        ensures
            r@ == json_text(self@),
    {
        write_text(self)
    }

    /// Whether the document is an object.
    pub fn is_object(&self) -> (r: bool)
        ensures
            r == (self@ is Object),
    {
        match self {
            Json::Object(_) => true,
            _ => false,
        }
    }

    /// The member named `key`, where the document is an object that has
    /// one: the last of that name.
    pub fn get(&self, key: &str) -> (r: Option<&Json>)
        ensures
            match r {
                Some(v) => self@.member(key@) == Some(v@),
                None => self@.member(key@) is None,
            },
    {
        match self {
            Json::Object(members) => {
                let mut i: usize = members.len();
                while i > 0
                    invariant
                        i <= members.len(),
                        self@ is Object,
                        self@->Object_0.len() == members.len(),
                        forall|j: int|
                            0 <= j < members.len() ==> #[trigger] self@->Object_0[j] == (
                                members@[j].0@,
                                members@[j].1@,
                            ),
                        forall|j: int|
                            i <= j < members.len() ==> (#[trigger] self@->Object_0[j]).0 != key@,
                    decreases i,
                {
                    i -= 1;
                    if str_eq(members[i].0.as_str(), key) {
                        proof {
                            lemma_lookup_at(self@->Object_0, key@, i as int);
                        }
                        return Some(&members[i].1);
                    }
                }
                proof {
                    lemma_lookup_at(self@->Object_0, key@, -1);
                }
                None
            },
            _ => None,
        }
    }

    /// A copy of the document without its members named `key`; a plain
    /// copy where it is no object.
    pub fn without(&self, key: &str) -> (r: Json)
        ensures
            r@ == self@.without(key@),
    {
        match self {
            Json::Object(members) => {
                let ghost all = self@->Object_0;
                let mut out: Vec<(String, Json)> = Vec::new();
                let mut i: usize = 0;
                assert(all.take(0) =~= Seq::empty());
                while i < members.len()
                    invariant
                        i <= members.len(),
                        all.len() == members.len(),
                        forall|j: int|
                            0 <= j < members.len() ==> #[trigger] all[j] == (
                                members@[j].0@,
                                members@[j].1@,
                            ),
                        (Json::Object(out))@->Object_0 == without_key(all.take(i as int), key@),
                    decreases members.len() - i,
                {
                    let ghost before = (Json::Object(out))@->Object_0;
                    proof {
                        assert(all.take(i + 1).drop_last() =~= all.take(i as int));
                        assert(all.take(i + 1).last() == all[i as int]);
                    }
                    if !str_eq(members[i].0.as_str(), key) {
                        let name = members[i].0.clone();
                        let value = members[i].1.clone();
                        out.push((name, value));
                        assert((Json::Object(out))@->Object_0 =~= before.push(all[i as int]));
                    }
                    i += 1;
                }
                assert(all.take(members.len() as int) =~= all);
                Json::Object(out)
            },
            _ => self.clone(),
        }
    }

    /// The text, where the document is a string.
    pub fn as_str(&self) -> (r: Option<&str>)
        ensures
            match r {
                Some(s) => self@.as_text() == Some(s@),
                None => self@.as_text() is None,
            },
    {
        match self {
            Json::Str(s) => Some(s.as_str()),
            _ => None,
        }
    }

    /// The text of member `key`, where the document is an object whose
    /// member `key` is a string.
    pub fn get_str(&self, key: &str) -> (r: Option<&str>)
        ensures
            match r {
                Some(s) => self@.text_member(key@) == Some(s@),
                None => self@.text_member(key@) is None,
            },
    {
        match self.get(key) {
            Some(v) => v.as_str(),
            None => None,
        }
    }
}

} // verus!
