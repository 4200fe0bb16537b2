//! A JSON document as a tree of plain values.

use vstd::prelude::*;

verus! {

/// The mathematical model of a JSON document.
pub ghost enum JsonValue {
    Null,
    Bool(bool),
    Number(Seq<char>),
    String(Seq<char>),
    Array(Seq<JsonValue>),
    Object(Seq<(Seq<char>, JsonValue)>),
}

/// A JSON document. A number is held as its literal, such as `-12` or `2.5`, and
/// an object as its members in order. A literal that is no JSON number is
/// written as `null`.
#[derive(Debug, PartialEq, Eq)]
pub enum Json {
    Null,
    Bool(bool),
    Number(String),
    String(String),
    Array(Vec<Json>),
    Object(Vec<(String, Json)>),
}

/// The model of a document.
pub open spec fn model(doc: Json) -> JsonValue
    decreases doc,
{
    match doc {
        Json::Null => JsonValue::Null,
        Json::Bool(b) => JsonValue::Bool(b),
        Json::Number(n) => JsonValue::Number(n@),
        Json::String(s) => JsonValue::String(s@),
        Json::Array(a) => JsonValue::Array(
            Seq::new(a@.len(), |i: int| if 0 <= i < a@.len() { model(a@[i]) } else { JsonValue::Null }),
        ),
        Json::Object(m) => JsonValue::Object(
            Seq::new(
                m@.len(),
                |i: int|
                    if 0 <= i < m@.len() {
                        (m@[i].0@, model(m@[i].1))
                    } else {
                        (Seq::empty(), JsonValue::Null)
                    },
            ),
        ),
    }
}

impl View for Json {
    type V = JsonValue;

    open spec fn view(&self) -> JsonValue {
        model(*self)
    }
}

impl Json {
    /// A copy of the whole document.
    #[verifier::loop_isolation(false)]
    pub fn copy(&self) -> (r: Json)
        ensures
            r@ == self@,
        decreases self,
    {
        match self {
            Json::Null => Json::Null,
            Json::Bool(b) => Json::Bool(*b),
            Json::Number(n) => Json::Number(n.clone()),
            Json::String(s) => Json::String(s.clone()),
            Json::Array(a) => {
                let mut out: Vec<Json> = Vec::new();
                let mut i: usize = 0;
                while i < a.len()
                    invariant
                        i <= a.len(),
                        out.len() == i,
                        forall|k: int| 0 <= k < i ==> out@[k]@ == a@[k]@,
                    decreases a.len() - i,
                {
                    out.push(a[i].copy());
                    i += 1;
                }
                let r = Json::Array(out);
                assert(r@ == self@) by {
                    assert(r@->Array_0 =~= self@->Array_0);
                }
                r
            },
            Json::Object(m) => {
                let mut out: Vec<(String, Json)> = Vec::new();
                let mut i: usize = 0;
                while i < m.len()
                    invariant
                        i <= m.len(),
                        out.len() == i,
                        forall|k: int| 0 <= k < i ==> out@[k].0@ == m@[k].0@ && out@[k].1@ == m@[k].1@,
                    decreases m.len() - i,
                {
                    out.push((m[i].0.clone(), m[i].1.copy()));
                    i += 1;
                }
                let r = Json::Object(out);
                assert(r@ == self@) by {
                    assert(r@->Object_0 =~= self@->Object_0);
                }
                r
            },
        }
    }
}

/// The value of the first member named `key`, if there is one.
pub open spec fn lookup(members: Seq<(Seq<char>, JsonValue)>, key: Seq<char>) -> Option<JsonValue>
    decreases members.len(),
{
    if members.len() == 0 {
        None
    } else if members[0].0 == key {
        Some(members[0].1)
    } else {
        lookup(members.skip(1), key)
    }
}

impl JsonValue {
    /// The value of the first member named `key`, if this is an object that has
    /// one.
    pub open spec fn member(self, key: Seq<char>) -> Option<JsonValue> {
        match self {
            JsonValue::Object(members) => lookup(members, key),
            _ => None,
        }
    }

    /// The text, if this is a string.
    pub open spec fn text(self) -> Option<Seq<char>> {
        match self {
            JsonValue::String(s) => Some(s),
            _ => None,
        }
    }
}

impl Json {
    /// The value of the first member named `key`, if this is an object that has
    /// one.
    pub fn get(&self, key: &str) -> (r: Option<&Json>)
        ensures
            opt_model(r) == self@.member(key@),
    {
        match self {
            Json::Object(m) => {
                let wanted: String = key.to_owned();
                let ghost members = self@->Object_0;
                let mut i: usize = 0;
                assert(members.skip(0) =~= members);
                while i < m.len()
                    invariant
                        i <= m.len(),
                        wanted@ == key@,
                        self@ == JsonValue::Object(members),
                        members.len() == m@.len(),
                        forall|k: int| 0 <= k < m@.len() ==> members[k] == (m@[k].0@, m@[k].1@),
                        lookup(members, key@) == lookup(members.skip(i as int), key@),
                    decreases m.len() - i,
                {
                    let ghost rest = members.skip(i as int);
                    assert(rest.len() > 0 && rest[0] == members[i as int]);
                    if m[i].0 == wanted {
                        assert(lookup(rest, key@) == Some(rest[0].1));
                        return Some(&m[i].1);
                    }
                    assert(rest.skip(1) =~= members.skip(i + 1));
                    i += 1;
                }
                None
            },
            _ => None,
        }
    }

    /// The text, if this is a string.
    pub fn as_str(&self) -> (r: Option<&str>)
        ensures
            r.is_some() == self@.text().is_some(),
            r matches Some(t) ==> self@.text() == Some(t@),
    {
        match self {
            Json::String(s) => Some(s.as_str()),
            _ => None,
        }
    }
}

/// The model of an optional borrowed document.
pub open spec fn opt_model(doc: Option<&Json>) -> Option<JsonValue> {
    match doc {
        Some(d) => Some(d@),
        None => None,
    }
}

} // verus!
