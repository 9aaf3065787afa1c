//! JSON documents: the mathematical model, and the `serde_json` operations
//! that the rest of the crate builds on.
//!
//! A `serde_json::Value` is opaque to the verifier. Its contents are named by
//! [`doc`], and each operation below states, without proof, what the
//! corresponding `serde_json` function does to those contents.

use vstd::prelude::*;

verus! {

/// `serde_json::Value`, carried as an opaque value.
#[verifier::external_type_specification]
#[verifier::external_body]
pub struct ExValue(serde_json::Value);

/// `serde_json::Error`, carried as an opaque value.
#[verifier::external_type_specification]
#[verifier::external_body]
pub struct ExError(serde_json::Error);

/// A JSON number, as `serde_json` stores it without arbitrary precision.
pub enum NumberModel {
    /// A non-negative integer.
    PosInt(u64),
    /// An integer below zero.
    NegInt(i64),
    /// A finite binary64 number, by its bit pattern.
    Real(u64),
}

/// A JSON document as a mathematical value.
pub enum Document {
    Null,
    Bool(bool),
    Number(NumberModel),
    Text(Seq<char>),
    List(Seq<Document>),
    Object(Map<Seq<char>, Document>),
}

impl Document {
    /// The member stored under `key`, if this is an object that has one.
    pub open spec fn field(self, key: Seq<char>) -> Option<Document> {
        match self {
            Document::Object(m) => if m.contains_key(key) {
                Some(m[key])
            } else {
                None
            },
            _ => None,
        }
    }

    pub open spec fn has_field(self, key: Seq<char>) -> bool {
        self.field(key) is Some
    }

    /// The characters of a string document.
    pub open spec fn text(self) -> Option<Seq<char>> {
        match self {
            Document::Text(s) => Some(s),
            _ => None,
        }
    }

    /// The elements of an array document.
    pub open spec fn items(self) -> Option<Seq<Document>> {
        match self {
            Document::List(s) => Some(s),
            _ => None,
        }
    }

    /// The value of a non-negative integer document.
    pub open spec fn unsigned(self) -> Option<u64> {
        match self {
            Document::Number(NumberModel::PosInt(n)) => Some(n),
            _ => None,
        }
    }

    /// The characters of the string member stored under `key`.
    pub open spec fn text_field(self, key: Seq<char>) -> Option<Seq<char>> {
        match self.field(key) {
            Some(Document::Text(s)) => Some(s),
            _ => None,
        }
    }

    /// The non-negative integer member stored under `key`.
    pub open spec fn unsigned_field(self, key: Seq<char>) -> Option<u64> {
        match self.field(key) {
            Some(d) => d.unsigned(),
            None => None,
        }
    }

    /// This object with `key` bound to `value`; other documents are unchanged.
    pub open spec fn with_field(self, key: Seq<char>, value: Document) -> Document {
        match self {
            Document::Object(m) => Document::Object(m.insert(key, value)),
            _ => self,
        }
    }

    /// This object without `key`; other documents are unchanged.
    pub open spec fn without_field(self, key: Seq<char>) -> Document {
        match self {
            Document::Object(m) => Document::Object(m.remove(key)),
            _ => self,
        }
    }
}

/// The document that a `serde_json::Value` holds.
pub uninterp spec fn doc(v: serde_json::Value) -> Document;

/// The document that `serde_json::from_str` reads from a text, or `None`
/// where it reports an error.
pub uninterp spec fn parsed(text: Seq<char>) -> Option<Document>;

/// The compact text that `serde_json` writes for a document.
pub uninterp spec fn rendered(d: Document) -> Seq<char>;

/// The documents held by a sequence of values, in order.
pub open spec fn docs(vs: Seq<serde_json::Value>) -> Seq<Document> {
    vs.map_values(|v: serde_json::Value| doc(v))
}

/// `serde_json::from_str` at type `Value`: the result holds the parsed
/// document, and an error comes exactly when the text has none.
#[verifier::external_body]
pub(crate) fn parse(text: &str) -> (r: Result<serde_json::Value, serde_json::Error>)
    ensures
        match r {
            Ok(v) => parsed(text@) == Some(doc(v)),
            Err(_) => parsed(text@) is None,
        },
{
    serde_json::from_str::<serde_json::Value>(text)
}

/// `Value`'s `Display`: the compact serialization of the held document.
#[verifier::external_body]
pub(crate) fn render(v: &serde_json::Value) -> (r: String)
    ensures
        r@ == rendered(doc(*v)),
{
    v.to_string()
}

/// `Value::get` with a string key: the member of an object under that key,
/// and `None` for a missing key or any other kind of document.
#[verifier::external_body]
pub(crate) fn member<'a>(v: &'a serde_json::Value, key: &str) -> (r: Option<&'a serde_json::Value>)
    ensures
        match r {
            Some(x) => doc(*v).field(key@) == Some(doc(*x)),
            None => doc(*v).field(key@) is None,
        },
{
    v.get(key)
}

/// `Value::as_str`: the characters of a string, `None` for anything else.
#[verifier::external_body]
pub(crate) fn as_text<'a>(v: &'a serde_json::Value) -> (r: Option<&'a str>)
    ensures
        match r {
            Some(s) => doc(*v).text() == Some(s@),
            None => doc(*v).text() is None,
        },
{
    v.as_str()
}

/// `Value::as_array`: the elements of an array, `None` for anything else.
#[verifier::external_body]
pub(crate) fn as_list<'a>(v: &'a serde_json::Value) -> (r: Option<&'a Vec<serde_json::Value>>)
    ensures
        match r {
            Some(a) => doc(*v).items() == Some(docs(a@)),
            None => doc(*v).items() is None,
        },
{
    v.as_array()
}

/// `Value::as_u64`: the value of a non-negative integer, `None` for a
/// negative or fractional number and for anything that is no number.
#[verifier::external_body]
pub(crate) fn as_unsigned(v: &serde_json::Value) -> (r: Option<u64>)
    ensures
        r == doc(*v).unsigned(),
{
    v.as_u64()
}

/// `Value::clone`: a value that holds the same document.
pub assume_specification[ <serde_json::Value as Clone>::clone ](v: &serde_json::Value) -> (r:
    serde_json::Value)
    ensures
        doc(r) == doc(*v),
;

/// `Map::insert` on the map of an object: `key` is bound to `value`, every
/// other member stays.
#[verifier::external_body]
pub(crate) fn put(v: &mut serde_json::Value, key: &str, value: serde_json::Value)
    requires
        doc(*old(v)) is Object,
    ensures
        doc(*final(v)) == doc(*old(v)).with_field(key@, doc(value)),
{
    if let serde_json::Value::Object(m) = v {
        m.insert(key.to_string(), value);
    }
}

/// `Map::remove` on the map of an object: `key` is unbound, every other
/// member stays.
#[verifier::external_body]
pub(crate) fn strip(v: &mut serde_json::Value, key: &str)
    requires
        doc(*old(v)) is Object,
    ensures
        doc(*final(v)) == doc(*old(v)).without_field(key@),
{
    if let serde_json::Value::Object(m) = v {
        m.remove(key);
    }
}

/// `Value::is_null`: whether the value is `null`.
#[verifier::external_body]
pub(crate) fn is_null(v: &serde_json::Value) -> (r: bool)
    ensures
        r == (doc(*v) is Null),
{
    v.is_null()
}

/// `Value::is_object`: whether the value is an object.
#[verifier::external_body]
pub(crate) fn is_object(v: &serde_json::Value) -> (r: bool)
    ensures
        r == (doc(*v) is Object),
{
    v.is_object()
}

/// `Value::from` on a string slice: a string with the same characters.
#[verifier::external_body]
pub(crate) fn text_value(s: &str) -> (r: serde_json::Value)
    ensures
        doc(r) == Document::Text(s@),
{
    serde_json::Value::from(s)
}

/// `Value::from` on a `u64`: a non-negative integer.
#[verifier::external_body]
pub(crate) fn unsigned_value(n: u64) -> (r: serde_json::Value)
    ensures
        doc(r) == Document::Number(NumberModel::PosInt(n)),
{
    serde_json::Value::from(n)
}

/// `Value::Null`.
#[verifier::external_body]
pub(crate) fn null_value() -> (r: serde_json::Value)
    ensures
        doc(r) == Document::Null,
{
    serde_json::Value::Null
}

/// `Value::Object` around `Map::new`: an object without members.
#[verifier::external_body]
pub(crate) fn empty_object() -> (r: serde_json::Value)
    ensures
        doc(r) == Document::Object(Map::empty()),
{
    serde_json::Value::Object(serde_json::Map::new())
}

} // verus!
