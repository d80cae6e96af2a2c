//! JSON values, as far as this crate reads them: what a body parses into,
//! and how a member of an object is found.

use vstd::prelude::*;
use crate::text::str_eq;

verus! {

/// A JSON value as a mathematical term: the view of [`Json`].
pub enum JsonValue {
    Null,
    Bool(bool),
    /// A number, by its decimal text.
    Number(Seq<char>),
    Text(Seq<char>),
    Array(Seq<JsonValue>),
    /// An object, by its members in order.
    Object(Seq<MemberValue>),
}

/// A member of a JSON object as a mathematical term: the view of
/// [`Member`].
pub struct MemberValue {
    pub name: Seq<char>,
    pub value: JsonValue,
}

impl JsonValue {
    /// Whether `members[i]` is the first member named `key`.
    pub open spec fn first_named(
        members: Seq<MemberValue>,
        key: Seq<char>,
        i: int,
    ) -> bool {
        &&& 0 <= i < members.len()
        &&& members[i].name == key
        &&& forall|j: int| 0 <= j < i ==> (#[trigger] members[j]).name != key
    }

    /// The value of the first member named `key`, if this is an object
    /// that has one.
    pub open spec fn get(self, key: Seq<char>) -> Option<JsonValue> {
        match self {
            JsonValue::Object(members) => {
                if exists|i: int| JsonValue::first_named(members, key, i) {
                    Some(members[choose|i: int| JsonValue::first_named(members, key, i)].value)
                } else {
                    None
                }
            },
            _ => None,
        }
    }

    /// What indexing by `key` gives: the member's value, and `Null` where
    /// this is no object or has no such member.
    pub open spec fn field(self, key: Seq<char>) -> JsonValue {
        match self.get(key) {
            Some(value) => value,
            None => JsonValue::Null,
        }
    }

    /// The characters of a string value; nothing for any other value.
    pub open spec fn as_text(self) -> Option<Seq<char>> {
        match self {
            JsonValue::Text(s) => Some(s),
            _ => None,
        }
    }

    /// The first member named `key` is the only index that
    /// [`JsonValue::first_named`] holds of.
    pub proof fn lemma_first_named_unique(
        members: Seq<MemberValue>,
        key: Seq<char>,
        i: int,
        j: int,
    )
        requires
            JsonValue::first_named(members, key, i),
            JsonValue::first_named(members, key, j),
        ensures
            i == j,
    {
    }
}

/// A member of a JSON object.
#[derive(Debug)]
pub struct Member {
    pub name: String,
    pub value: Json,
}

/// A JSON value.
///
/// Numbers are held by their decimal text. The members of an object are
/// held in order; where two have the same name, the first one counts.
#[derive(Debug)]
pub enum Json {
    Null,
    Bool(bool),
    Number(String),
    Text(String),
    Array(Vec<Json>),
    Object(Vec<Member>),
}

impl View for Json {
    type V = JsonValue;

    open spec fn view(&self) -> JsonValue
        decreases self,
    {
        match self {
            Json::Null => JsonValue::Null,
            Json::Bool(b) => JsonValue::Bool(*b),
            Json::Number(n) => JsonValue::Number(n@),
            Json::Text(s) => JsonValue::Text(s@),
            Json::Array(items) => JsonValue::Array(
                Seq::new(
                    items@.len(),
                    |i: int|
                        if 0 <= i < items@.len() {
                            items@[i]@
                        } else {
                            JsonValue::Null
                        },
                ),
            ),
            Json::Object(members) => JsonValue::Object(
                Seq::new(
                    members@.len(),
                    |i: int|
                        if 0 <= i < members@.len() {
                            MemberValue { name: members@[i].name@, value: members@[i].value@ }
                        } else {
                            MemberValue { name: Seq::empty(), value: JsonValue::Null }
                        },
                ),
            ),
        }
    }
}

impl Clone for Json {
    fn clone(&self) -> (copy: Self)
        ensures
            copy@ == self@,
        decreases self,
    {
        match self {
            Json::Null => Json::Null,
            Json::Bool(b) => Json::Bool(*b),
            Json::Number(n) => Json::Number(n.clone()),
            Json::Text(s) => Json::Text(s.clone()),
            Json::Array(items) => {
                let mut copies: Vec<Json> = Vec::new();
                let mut i: usize = 0;
                while i < items.len()
                    invariant
                        i <= items.len(),
                        copies.len() == i,
                        forall|j: int| 0 <= j < i ==> copies@[j]@ == items@[j]@,
                        forall|j: int| 0 <= j < items.len() ==> decreases_to!(self => items@[j]),
                    decreases items.len() - i,
                {
                    copies.push(items[i].clone());
                    i += 1;
                }
                let copy = Json::Array(copies);
                assert(copy@->Array_0 =~= self@->Array_0);
                copy
            },
            Json::Object(members) => {
                let mut copies: Vec<Member> = Vec::new();
                let mut i: usize = 0;
                while i < members.len()
                    invariant
                        i <= members.len(),
                        copies.len() == i,
                        forall|j: int|
                            0 <= j < i ==> copies@[j].name@ == members@[j].name@
                                && copies@[j].value@ == members@[j].value@,
                        forall|j: int|
                            0 <= j < members.len() ==> decreases_to!(self => members@[j].value),
                    decreases members.len() - i,
                {
                    copies.push(Member { name: members[i].name.clone(), value: members[i].value.clone() });
                    i += 1;
                }
                let copy = Json::Object(copies);
                assert(copy@->Object_0 =~= self@->Object_0);
                copy
            },
        }
    }
}

impl Json {
    /// The value of the first member named `key`, if this is an object
    /// that has one.
    pub fn get(&self, key: &str) -> (found: Option<&Json>)
        ensures
            match found {
                Some(value) => self@.get(key@) == Some(value@),
                None => self@.get(key@) is None,
            },
    {
        match self {
            Json::Object(members) => {
                let ghost view = self@->Object_0;
                let mut i: usize = 0;
                while i < members.len()
                    invariant
                        i <= members.len(),
                        self@ == JsonValue::Object(view),
                        view.len() == members.len(),
                        forall|k: int|
                            0 <= k < view.len() ==> (#[trigger] view[k]).name == members@[k].name@
                                && view[k].value == members@[k].value@,
                        forall|j: int| 0 <= j < i ==> (#[trigger] view[j]).name != key@,
                    decreases members.len() - i,
                {
                    if str_eq(members[i].name.as_str(), key) {
                        proof {
                            let k = choose|k: int| JsonValue::first_named(view, key@, k);
                            JsonValue::lemma_first_named_unique(view, key@, i as int, k);
                        }
                        return Some(&members[i].value);
                    }
                    i += 1;
                }
                None
            },
            _ => None,
        }
    }

    /// The characters of a string value; nothing for any other value.
    pub fn as_str(&self) -> (text: Option<&str>)
        ensures
            match text {
                Some(s) => self@.as_text() == Some(s@),
                None => self@.as_text() is None,
            },
    {
        match self {
            Json::Text(s) => Some(s.as_str()),
            _ => None,
        }
    }

    /// Whether this is the value `null`.
    pub fn is_null(&self) -> (null: bool)
        ensures
            null == (self@ is Null),
    {
        match self {
            Json::Null => true,
            _ => false,
        }
    }
}

/// What `serde_json::from_str` reads a text as, taken as a
/// `serde_json::Value` and held as a [`Json`]: the value of the document,
/// or nothing where the text is not one JSON document.
pub uninterp spec fn json_parse(text: Seq<char>) -> Option<JsonValue>;

/// `serde_json::Value`, of which nothing is known here: a value of it is
/// only handed from the parser to [`lift`].
#[verifier::external_type_specification]
#[verifier::external_body]
pub struct ExValue(serde_json::Value);

/// Rebuilds a `serde_json::Value` as a [`Json`], variant by variant: a
/// number by what `serde_json::Number`'s `Display` writes, the members of an
/// object in the order in which `serde_json::Map` hands them out.
///
/// Trusted, and nothing is claimed of the result.
#[verifier::external_body]
fn lift(value: serde_json::Value) -> Json {
    match value {
        serde_json::Value::Null => Json::Null,
        serde_json::Value::Bool(b) => Json::Bool(b),
        serde_json::Value::Number(n) => Json::Number(n.to_string()),
        serde_json::Value::String(s) => Json::Text(s),
        serde_json::Value::Array(items) => Json::Array(items.into_iter().map(lift).collect()),
        serde_json::Value::Object(map) => Json::Object(
            map.into_iter().map(|(name, value)| Member { name, value: lift(value) }).collect(),
        ),
    }
}

/// Parses a text with `serde_json::from_str`, as a `serde_json::Value`.
///
/// Trusted: that the outcome depends on the text alone, so that it can be
/// named. Nothing is claimed of which texts parse, nor of what they parse
/// into.
#[verifier::external_body]
pub(crate) fn parse(text: &str) -> (parsed: Option<Json>)
    ensures
        match parsed {
            Some(json) => json_parse(text@) == Some(json@),
            None => json_parse(text@) is None,
        },
{
    match serde_json::from_str::<serde_json::Value>(text) {
        Ok(value) => Some(lift(value)),
        Err(_) => None,
    }
}

} // verus!
