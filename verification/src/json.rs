//! JSON documents, as far as the gateway reads them.
//!
//! Backend answers are loosely shaped. They arrive as bytes, are decoded by
//! `serde_json` into a generic tree, and are picked apart here, field by
//! field.

use serde_json::Value;
use vstd::prelude::*;

verus! {

/// A JSON number, kept as the bit pattern of its IEEE-754 binary64 value.
///
/// The gateway never computes with numbers; it only carries them.
#[derive(Clone, Copy, Debug, PartialEq, Eq, Structural)]
pub struct JsonNumber {
    pub bits: u64,
}

/// A decoded JSON value.
///
/// An object keeps its members in a list; where a key occurs more than once the
/// first occurrence is the one that [`JsonValue::member`] finds.
#[derive(Debug, PartialEq, Eq)]
pub enum JsonValue {
    Null,
    Bool(bool),
    Number(JsonNumber),
    Text(String),
    Array(Vec<JsonValue>),
    Object(Vec<(String, JsonValue)>),
}

/// `serde_json::Value`, a document as the decoder hands it out.
#[verifier::external_type_specification]
#[verifier::external_body]
pub struct ExDocument(serde_json::Value);

/// `serde_json::Error`, the failure to decode. It is only put into words.
#[verifier::external_type_specification]
#[verifier::external_body]
pub struct ExDecodeError(serde_json::Error);

/// What `serde_json` makes of the bytes `text`: a document, or the failure to
/// read one.
pub uninterp spec fn parsed(text: Seq<u8>) -> Result<serde_json::Value, serde_json::Error>;

/// The tree that the document `document` holds.
pub uninterp spec fn tree_of(document: serde_json::Value) -> JsonValue;

/// The words in which the failure `error` is put.
pub uninterp spec fn words_of(error: serde_json::Error) -> Seq<char>;

/// What the bytes `text` decode to: a tree, or the words of the failure.
pub open spec fn decoded(text: Seq<u8>) -> Result<JsonValue, Seq<char>> {
    match parsed(text) {
        Ok(document) => Ok(tree_of(document)),
        Err(error) => Err(words_of(error)),
    }
}

/// Reads a document out of `text`.
///
/// Calls `serde_json::from_slice` for a `serde_json::Value`. What comes back
/// is a function of the bytes alone and is named by [`parsed`].
#[verifier::external_body]
fn parse(text: &[u8]) -> (r: Result<serde_json::Value, serde_json::Error>)
    ensures
        r == parsed(text@),
{
    serde_json::from_slice(text)
}

/// Copies a document into a tree, variant by variant.
///
/// Tells the variants of `serde_json::Value` apart and moves what each holds.
/// A number is taken as `serde_json::Number::as_f64` gives it; the members of
/// an object keep the order in which `serde_json` holds them. The tree is a
/// function of the document alone and is named by [`tree_of`].
#[verifier::external_body]
fn tree(document: &serde_json::Value) -> (r: JsonValue)
    ensures
        r == tree_of(*document),
{
    match document {
        Value::Null => JsonValue::Null,
        Value::Bool(b) => JsonValue::Bool(*b),
        Value::Number(n) => match n.as_f64() {
            Some(x) => JsonValue::Number(JsonNumber { bits: x.to_bits() }),
            None => JsonValue::Null,
        },
        Value::String(s) => JsonValue::Text(s.clone()),
        Value::Array(items) => JsonValue::Array(items.iter().map(tree).collect()),
        Value::Object(members) => JsonValue::Object(members.iter().map(|(k, v)| (k.clone(), tree(v))).collect()),
    }
}

/// Puts a failure to decode into words.
///
/// Calls the `Display` of `serde_json::Error`. The words are a function of the
/// failure alone and are named by [`words_of`].
#[verifier::external_body]
fn words(error: &serde_json::Error) -> (r: String)
    ensures
        r@ == words_of(*error),
{
    error.to_string()
}

/// Whether `result` is `expected`, the failure taken by its text.
pub open spec fn decodes_to(result: Result<JsonValue, String>, expected: Result<JsonValue, Seq<char>>) -> bool {
    match result {
        Ok(value) => expected == Ok::<JsonValue, Seq<char>>(value),
        Err(why) => expected == Err::<JsonValue, Seq<char>>(why@),
    }
}

/// Decodes `text`: the tree that the bytes write, or the words of the
/// failure to read one.
pub fn decode(text: &[u8]) -> (r: Result<JsonValue, String>)
    ensures
        decodes_to(r, decoded(text@)),
{
    match parse(text) {
        Ok(document) => Ok(tree(&document)),
        Err(error) => Err(words(&error)),
    }
}

/// The value of the first member named `key` among `members[from..]`.
pub open spec fn lookup(members: Seq<(String, JsonValue)>, key: Seq<char>, from: int) -> Option<JsonValue>
    decreases members.len() - from,
{
    if from < 0 || from >= members.len() {
        None
    } else if members[from].0@ == key {
        Some(members[from].1)
    } else {
        lookup(members, key, from + 1)
    }
}

impl JsonValue {
    /// The member named `key` if this value is an object that has one.
    pub open spec fn spec_member(self, key: Seq<char>) -> Option<JsonValue> {
        match self {
            JsonValue::Object(members) => lookup(members@, key, 0),
            _ => None,
        }
    }

    /// The text if this value is a string.
    pub open spec fn spec_text(self) -> Option<Seq<char>> {
        match self {
            JsonValue::Text(t) => Some(t@),
            _ => None,
        }
    }

    /// The elements if this value is an array.
    pub open spec fn spec_items(self) -> Option<Seq<JsonValue>> {
        match self {
            JsonValue::Array(items) => Some(items@),
            _ => None,
        }
    }

    /// The number if this value is one.
    pub open spec fn spec_number(self) -> Option<JsonNumber> {
        match self {
            JsonValue::Number(n) => Some(n),
            _ => None,
        }
    }

    /// The text of the member named `key`, if there is such a member and it is a string.
    pub open spec fn text_at(self, key: Seq<char>) -> Option<Seq<char>> {
        match self.spec_member(key) {
            Some(v) => v.spec_text(),
            None => None,
        }
    }

    /// The elements of the member named `key`, if there is such a member and it is an array.
    pub open spec fn items_at(self, key: Seq<char>) -> Option<Seq<JsonValue>> {
        match self.spec_member(key) {
            Some(v) => v.spec_items(),
            None => None,
        }
    }

    /// The number in the member named `key`, if there is such a member and it is a number.
    pub open spec fn number_at(self, key: Seq<char>) -> Option<JsonNumber> {
        match self.spec_member(key) {
            Some(v) => v.spec_number(),
            None => None,
        }
    }

    /// Looks up the member named `key`.
    ///
    /// Anything that is not an object has no members.
    pub fn member(&self, key: &str) -> (r: Option<&JsonValue>)
        ensures
            r is Some <==> self.spec_member(key@) is Some,
            r is Some ==> *r.unwrap() == self.spec_member(key@).unwrap(),
    {
        match self {
            JsonValue::Object(members) => {
                let wanted = String::from_str(key);
                let mut i: usize = 0;
                while i < members.len()
                    invariant
                        i <= members.len(),
                        wanted@ == key@,
                        self.spec_member(key@) == lookup(members@, key@, i as int),
                    decreases members.len() - i,
                {
                    if members[i].0 == wanted {
                        assert(lookup(members@, key@, i as int) == Some(members@[i as int].1));
                        return Some(&members[i].1);
                    }
                    i = i + 1;
                }
                None
            },
            _ => None,
        }
    }

    /// The text of this value, if it is a string.
    pub fn as_str(&self) -> (r: Option<&str>)
        ensures
            r is Some <==> self.spec_text() is Some,
            r is Some ==> r.unwrap()@ == self.spec_text().unwrap(),
    {
        match self {
            JsonValue::Text(t) => Some(t.as_str()),
            _ => None,
        }
    }

    /// The elements of this value, if it is an array.
    pub fn as_array(&self) -> (r: Option<&Vec<JsonValue>>)
        ensures
            r is Some <==> self.spec_items() is Some,
            r is Some ==> r.unwrap()@ == self.spec_items().unwrap(),
    {
        match self {
            JsonValue::Array(items) => Some(items),
            _ => None,
        }
    }

    /// The number in this value, if it is one.
    pub fn as_number(&self) -> (r: Option<JsonNumber>)
        ensures
            r == self.spec_number(),
    {
        match self {
            JsonValue::Number(n) => Some(*n),
            _ => None,
        }
    }

    /// The text of the member named `key`, or `default` where the member is
    /// missing or is not a string.
    pub fn text_or(&self, key: &str, default: &str) -> (r: String)
        ensures
            r@ == match self.text_at(key@) {
                Some(t) => t,
                None => default@,
            },
    {
        match self.member(key) {
            Some(v) => match v.as_str() {
                Some(t) => String::from_str(t),
                None => String::from_str(default),
            },
            None => String::from_str(default),
        }
    }
}

} // verus!
