//! JSON documents as plain data, and the lookups that are made in them.

use vstd::prelude::*;
use vstd::string::StringExecFns;

verus! {

/// A JSON document.
///
/// An object keeps its members as pairs of name and value. A number keeps the
/// text that the parser prints it as; nothing here computes with it.
#[derive(Debug, PartialEq, Eq)]
pub enum Json {
    Null,
    Bool(bool),
    Number(String),
    Text(String),
    Array(Vec<Json>),
    Object(Vec<(String, Json)>),
}

/// The value of the first of `members`, from index `from` on, that is named `key`.
pub open spec fn first_named(members: Seq<(String, Json)>, key: Seq<char>, from: int) -> Option<Json>
    decreases members.len() - from,
{
    if from < 0 || from >= members.len() {
        None
    } else if members[from].0@ == key {
        Some(members[from].1)
    } else {
        first_named(members, key, from + 1)
    }
}

impl Json {
    /// The member named `key`, if this is an object that has one.
    pub open spec fn member(self, key: Seq<char>) -> Option<Json> {
        match self {
            Json::Object(members) => first_named(members@, key, 0),
            _ => None,
        }
    }

    /// The element at `index`, if this is an array that is long enough.
    pub open spec fn element(self, index: int) -> Option<Json> {
        match self {
            Json::Array(items) => if 0 <= index < items@.len() {
                Some(items@[index])
            } else {
                None
            },
            _ => None,
        }
    }

    /// The characters of this value, if it is a string.
    pub open spec fn text(self) -> Option<Seq<char>> {
        match self {
            Json::Text(s) => Some(s@),
            _ => None,
        }
    }

    /// Looks up the member named `key`.
    pub fn get(&self, key: &str) -> (found: Option<&Json>)
        ensures
            match found {
                Some(value) => self.member(key@) == Some(*value),
                None => self.member(key@) is None,
            },
    {
        match self {
            Json::Object(members) => {
                let wanted = String::from_str(key);
                let mut i: usize = 0;
                while i < members.len()
                    invariant
                        i <= members.len(),
                        wanted@ == key@,
                        self.member(key@) == first_named(members@, key@, i as int),
                    decreases members.len() - i,
                {
                    if members[i].0 == wanted {
                        assert(first_named(members@, key@, i as int) == Some(members@[i as int].1));
                        return Some(&members[i].1);
                    }
                    i += 1;
                }
                None
            },
            _ => None,
        }
    }

    /// Looks up the element at `index`.
    pub fn at(&self, index: usize) -> (found: Option<&Json>)
        ensures
            match found {
                Some(value) => self.element(index as int) == Some(*value),
                None => self.element(index as int) is None,
            },
    {
        match self {
            Json::Array(items) => if index < items.len() {
                Some(&items[index])
            } else {
                None
            },
            _ => None,
        }
    }

    /// The string that this value is, if it is one.
    pub fn as_str(&self) -> (found: Option<&str>)
        ensures
            match found {
                Some(s) => self.text() == Some(s@),
                None => self.text() is None,
            },
    {
        match self {
            Json::Text(s) => Some(s.as_str()),
            _ => None,
        }
    }
}

/// `serde_json::Value`, the tree that the parser builds.
#[verifier::external_type_specification]
#[verifier::external_body]
pub struct ExValue(serde_json::Value);

/// `serde_json::Error`, the parser's reason for refusing a text.
#[verifier::external_type_specification]
#[verifier::external_body]
pub struct ExError(serde_json::Error);

/// The document that `serde_json::from_slice` reads from `data`, or `None`
/// where it refuses them. Nothing is claimed about which texts it accepts.
pub uninterp spec fn json_document(data: Seq<u8>) -> Option<Json>;

/// The document that a `serde_json::Value` holds, variant by variant.
pub uninterp spec fn value_content(value: serde_json::Value) -> Json;

/// Calls `serde_json::from_slice` for a `serde_json::Value`.
///
/// Believed, not proved: the call's outcome depends on `data` alone.
#[verifier::external_body]
fn parse_value(data: &[u8]) -> (parsed: Result<serde_json::Value, serde_json::Error>)
    ensures
        match parsed {
            Ok(value) => json_document(data@) == Some(value_content(value)),
            Err(_) => json_document(data@) is None,
        },
{
    serde_json::from_slice(data)
}

/// Turns a `serde_json::Value` into a `Json`, each variant into the one of the
/// same kind, the members of an object in the order in which its map yields them.
///
/// Believed, not proved: the result is what `value_content` names.
#[verifier::external_body]
fn json_of(value: serde_json::Value) -> (json: Json)
    ensures
        json == value_content(value),
{
    match value {
        serde_json::Value::Null => Json::Null,
        serde_json::Value::Bool(b) => Json::Bool(b),
        serde_json::Value::Number(n) => Json::Number(n.to_string()),
        serde_json::Value::String(s) => Json::Text(s),
        serde_json::Value::Array(items) => Json::Array(items.into_iter().map(json_of).collect()),
        serde_json::Value::Object(members) => Json::Object(
            members.into_iter().map(|(name, member)| (name, json_of(member))).collect(),
        ),
    }
}

/// Reads `data` as a JSON text.
pub fn parse(data: &[u8]) -> (parsed: Option<Json>)
    ensures
        parsed == json_document(data@),
{
    match parse_value(data) {
        Ok(value) => Some(json_of(value)),
        Err(_) => None,
    }
}

} // verus!
