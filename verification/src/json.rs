//! JSON documents as plain values, and the call that parses one.

use vstd::prelude::*;

use crate::text::str_eq;

verus! {

/// A JSON value.
#[derive(Debug, PartialEq, Eq)]
pub enum JsonValue {
    Null,
    Bool(bool),
    /// A number: its text, and its value where it is an integer that fits
    /// in 64 bits with a sign.
    Number { text: String, integer: Option<i64> },
    Text(String),
    Array(Vec<JsonValue>),
    /// An object: its members, each a name and a value.
    Object(Vec<(String, JsonValue)>),
}

/// The value of the first member called `name`, if there is one.
pub open spec fn find_member(members: Seq<(String, JsonValue)>, name: Seq<char>) -> Option<
    JsonValue,
>
    decreases members.len(),
{
    if members.len() == 0 {
        None
    } else if members[0].0@ == name {
        Some(members[0].1)
    } else {
        find_member(members.drop_first(), name)
    }
}

impl JsonValue {
    /// The member called `name`, if this is an object that has one.
    pub open spec fn spec_get(&self, name: Seq<char>) -> Option<JsonValue> {
        match self {
            JsonValue::Object(members) => find_member(members@, name),
            _ => None,
        }
    }

    /// The text, if this is a string.
    pub open spec fn spec_as_text(&self) -> Option<Seq<char>> {
        match self {
            JsonValue::Text(text) => Some(text@),
            _ => None,
        }
    }

    /// The number, if this is an integer that fits in 64 bits with a sign.
    pub open spec fn spec_as_integer(&self) -> Option<i64> {
        match self {
            JsonValue::Number { text, integer } => *integer,
            _ => None,
        }
    }

    /// The text of the member called `name`, if there is one and it is a string.
    pub open spec fn text_member(&self, name: Seq<char>) -> Option<Seq<char>> {
        match self.spec_get(name) {
            Some(value) => value.spec_as_text(),
            None => None,
        }
    }

    /// The number in the member called `name`, if there is one and it is an
    /// integer that fits in 64 bits with a sign.
    pub open spec fn integer_member(&self, name: Seq<char>) -> Option<i64> {
        match self.spec_get(name) {
            Some(value) => value.spec_as_integer(),
            None => None,
        }
    }

    /// The member called `name`, if this is an object that has one. Where
    /// several members share the name, the first counts.
    pub fn get(&self, name: &str) -> (found: Option<&JsonValue>)
        ensures
            match found {
                Some(value) => self.spec_get(name@) == Some(*value),
                None => self.spec_get(name@) is None,
            },
    {
        match self {
            JsonValue::Object(members) => {
                let mut i: usize = 0;
                assert(members@.skip(0) =~= members@);
                while i < members.len()
                    invariant
                        i <= members@.len(),
                        self.spec_get(name@) == find_member(members@, name@),
                        find_member(members@, name@) == find_member(members@.skip(i as int), name@),
                    decreases members@.len() - i,
                {
                    let ghost rest = members@.skip(i as int);
                    assert(rest.len() > 0 && rest[0] == members@[i as int]);
                    assert(rest.drop_first() =~= members@.skip(i + 1));
                    if str_eq(members[i].0.as_str(), name) {
                        return Some(&members[i].1);
                    }
                    i += 1;
                }
                None
            },
            _ => None,
        }
    }

    /// The text, if this is a string.
    pub fn as_text(&self) -> (text: Option<&str>)
        ensures
            match text {
                Some(t) => self.spec_as_text() == Some(t@),
                None => self.spec_as_text() is None,
            },
    {
        match self {
            JsonValue::Text(text) => Some(text.as_str()),
            _ => None,
        }
    }

    /// The number, if this is an integer that fits in 64 bits with a sign.
    pub fn as_integer(&self) -> (number: Option<i64>)
        ensures
            number == self.spec_as_integer(),
    {
        match self {
            JsonValue::Number { text, integer } => *integer,
            _ => None,
        }
    }

    /// Parses a JSON document. An error carries the parser's message.
    pub fn parse(body: &[u8]) -> (parsed: Result<JsonValue, String>)
        ensures
            match json_document(body@) {
                Some(document) => parsed == Ok::<JsonValue, String>(document),
                None => parsed is Err,
            },
    {
        match parse_json(body) {
            Ok(value) => Ok(lift_json(value)),
            Err(message) => Err(message),
        }
    }
}

impl Clone for JsonValue {
    fn clone(&self) -> (copy: Self)
        decreases self,
    {
        match self {
            JsonValue::Null => JsonValue::Null,
            JsonValue::Bool(flag) => JsonValue::Bool(*flag),
            JsonValue::Number { text, integer } => JsonValue::Number {
                text: text.clone(),
                integer: *integer,
            },
            JsonValue::Text(text) => JsonValue::Text(text.clone()),
            JsonValue::Array(items) => {
                let mut copies: Vec<JsonValue> = Vec::new();
                let mut i: usize = 0;
                while i < items.len()
                    invariant
                        i <= items@.len(),
                        self matches JsonValue::Array(held) && held == items,
                    decreases items@.len() - i,
                {
                    proof {
                        assert(decreases_to!(self => items));
                        assert(decreases_to!(items => items@[i as int]));
                    }
                    copies.push(items[i].clone());
                    i += 1;
                }
                JsonValue::Array(copies)
            },
            JsonValue::Object(members) => {
                let mut copies: Vec<(String, JsonValue)> = Vec::new();
                let mut i: usize = 0;
                while i < members.len()
                    invariant
                        i <= members@.len(),
                        self matches JsonValue::Object(held) && held == members,
                    decreases members@.len() - i,
                {
                    proof {
                        assert(decreases_to!(self => members));
                        assert(decreases_to!(members => members@[i as int]));
                        assert(decreases_to!(members@[i as int] => members@[i as int].1));
                    }
                    copies.push((members[i].0.clone(), members[i].1.clone()));
                    i += 1;
                }
                JsonValue::Object(copies)
            },
        }
    }
}

#[verifier::external_type_specification]
#[verifier::external_body]
pub struct ExSerdeValue(serde_json::Value);

/// What `serde_json::from_slice` makes of a body: the document as a
/// [`JsonValue`], or `None` where it returns an error.
pub uninterp spec fn json_document(body: Seq<u8>) -> Option<JsonValue>;

/// A `serde_json::Value` as a [`JsonValue`]: the same tree, variant by variant.
pub uninterp spec fn json_model(value: serde_json::Value) -> JsonValue;

/// Parses a JSON document.
///
/// Trusted: calls `serde_json::from_slice` for a `serde_json::Value`, and
/// turns the parser's error into its message. The contract only names the
/// result: the same bytes always parse to the same document, or always fail.
/// Nothing is promised of the message.
#[verifier::external_body]
fn parse_json(body: &[u8]) -> (parsed: Result<serde_json::Value, String>)
    ensures
        parsed is Ok <==> json_document(body@) is Some,
        parsed matches Ok(value) ==> json_document(body@) == Some(json_model(value)),
{
    match serde_json::from_slice(body) {
        Ok(value) => Ok(value),
        Err(error) => Err(error.to_string()),
    }
}

/// Turns a `serde_json::Value` into a [`JsonValue`].
///
/// Trusted: matches on the variants of `serde_json::Value` and moves their
/// fields over, one arm each; a number gives its text (`to_string`) and what
/// `serde_json::Number::as_i64` returns; the members of an object come in the
/// order of its map. The contract only names the result.
#[verifier::external_body]
fn lift_json(value: serde_json::Value) -> (json: JsonValue)
    ensures
        json == json_model(value),
{
    match value {
        serde_json::Value::Null => JsonValue::Null,
        serde_json::Value::Bool(b) => JsonValue::Bool(b),
        serde_json::Value::Number(n) => JsonValue::Number { text: n.to_string(), integer: n.as_i64() },
        serde_json::Value::String(s) => JsonValue::Text(s),
        serde_json::Value::Array(items) => JsonValue::Array(items.into_iter().map(lift_json).collect()),
        serde_json::Value::Object(map) => JsonValue::Object(
            map.into_iter().map(|(name, member)| (name, lift_json(member))).collect(),
        ),
    }
}

} // verus!
