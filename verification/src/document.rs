//! The settings document: a JSON object kept in `serde_json`'s map, and the
//! few operations on it that the settings logic needs.
//!
//! The functions at the end of this file call into `serde_json` and are not
//! proved: their contracts are what the rest of the library assumes of it.

use vstd::prelude::*;

verus! {

/// `serde_json::Value`, carried through without looking inside.
#[verifier::external_type_specification]
#[verifier::external_body]
pub struct ExJsonValue(serde_json::Value);

/// `serde_json::Map`, carried through without looking inside.
#[verifier::external_type_specification]
#[verifier::external_body]
#[verifier::reject_recursive_types(K)]
#[verifier::reject_recursive_types(V)]
pub struct ExJsonMap<K, V>(serde_json::Map<K, V>);

/// What the settings logic can tell about a stored JSON value: which of the
/// six JSON kinds it is, and its content where it is a boolean or a string.
pub enum Shape {
    Null,
    Flag(bool),
    Number,
    Text(Seq<char>),
    List,
    Object,
}

/// A stored JSON value as handed to the settings logic.
#[derive(Debug, PartialEq, Eq)]
pub enum RawValue {
    Null,
    Flag(bool),
    Number,
    Text(String),
    List,
    Object,
}

impl View for RawValue {
    type V = Shape;

    open spec fn view(&self) -> Shape {
        match self {
            RawValue::Null => Shape::Null,
            RawValue::Flag(b) => Shape::Flag(*b),
            RawValue::Number => Shape::Number,
            RawValue::Text(s) => Shape::Text(s@),
            RawValue::List => Shape::List,
            RawValue::Object => Shape::Object,
        }
    }
}

/// The shape of a value that may be absent.
pub open spec fn shape_of(raw: Option<RawValue>) -> Option<Shape> {
    match raw {
        Some(value) => Some(value@),
        None => None,
    }
}

impl RawValue {
    /// The boolean that the value holds, if it is one.
    pub fn as_bool(&self) -> (flag: Option<bool>)
        ensures
            flag == (match self@ {
                Shape::Flag(b) => Some(b),
                _ => None,
            }),
    {
        match self {
            RawValue::Flag(b) => Some(*b),
            _ => None,
        }
    }

    /// The string that the value holds, if it is one.
    pub fn as_str(&self) -> (text: Option<&str>)
        ensures
            match self@ {
                Shape::Text(t) => text.is_some() && text.unwrap()@ == t,
                _ => text.is_none(),
            },
    {
        match self {
            RawValue::Text(s) => Some(s.as_str()),
            _ => None,
        }
    }
}

/// The entries of a JSON object: for each key that it holds, the shape of
/// the value stored under that key.
pub uninterp spec fn document_entries(
    document: serde_json::Map<String, serde_json::Value>,
) -> Map<Seq<char>, Shape>;

/// Calls `serde_json::Map::get`. The result is `None` exactly when the map
/// holds no such key; otherwise it is the stored value, reduced to its shape:
/// one `RawValue` variant for each variant of `serde_json::Value`.
#[verifier::external_body]
pub(crate) fn read_entry(
    document: &serde_json::Map<String, serde_json::Value>,
    key: &str,
) -> (raw: Option<RawValue>)
    ensures
        raw.is_some() == document_entries(*document).contains_key(key@),
        raw.is_some() ==> raw.unwrap()@ == document_entries(*document)[key@],
{
    match document.get(key) {
        None => None,
        Some(serde_json::Value::Null) => Some(RawValue::Null),
        Some(serde_json::Value::Bool(b)) => Some(RawValue::Flag(*b)),
        Some(serde_json::Value::Number(_)) => Some(RawValue::Number),
        Some(serde_json::Value::String(s)) => Some(RawValue::Text(s.clone())),
        Some(serde_json::Value::Array(_)) => Some(RawValue::List),
        Some(serde_json::Value::Object(_)) => Some(RawValue::Object),
    }
}

/// Calls `serde_json::Map::insert` with a JSON boolean. Afterwards the key
/// holds that boolean, whatever it held before; every other key is as it was.
#[verifier::external_body]
pub(crate) fn write_flag(
    document: &mut serde_json::Map<String, serde_json::Value>,
    key: &str,
    flag: bool,
)
    ensures
        document_entries(*final(document)) == document_entries(*old(document)).insert(
            key@,
            Shape::Flag(flag),
        ),
{
    document.insert(key.to_string(), serde_json::Value::from(flag));
}

/// Calls `serde_json::Map::insert` with a JSON string. Afterwards the key
/// holds that string, whatever it held before; every other key is as it was.
#[verifier::external_body]
pub(crate) fn write_text(
    document: &mut serde_json::Map<String, serde_json::Value>,
    key: &str,
    text: &str,
)
    ensures
        document_entries(*final(document)) == document_entries(*old(document)).insert(
            key@,
            Shape::Text(text@),
        ),
{
    document.insert(key.to_string(), serde_json::Value::from(text));
}

} // verus!
