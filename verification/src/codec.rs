//! JSON text: reading it, writing it, and finding a value by its pointer.

use crate::json::{Json, JsonNumber, JsonView, OrderedView};
use vstd::prelude::*;

verus! {

/// A JSON value of the `serde_json` crate.
#[verifier::external_type_specification]
#[verifier::external_body]
pub struct ExValue(serde_json::Value);

/// A JSON number of the `serde_json` crate.
#[verifier::external_type_specification]
#[verifier::external_body]
pub struct ExNumber(serde_json::Number);

/// Moves a [`serde_json::Number`] into the library's type.
#[verifier::external_body]
fn from_number(n: serde_json::Number) -> (r: JsonNumber) {
    match (n.as_u64(), n.as_i64()) {
        (Some(u), _) => JsonNumber::Unsigned(u),
        (None, Some(i)) => JsonNumber::Negative(i),
        (None, None) => JsonNumber::Decimal(n.to_string()),
    }
}

/// Moves a [`serde_json::Value`] into the library's type, variant by variant.
#[verifier::external_body]
pub(crate) fn from_value(v: serde_json::Value) -> (r: Json) {
    match v {
        serde_json::Value::Null => Json::Null,
        serde_json::Value::Bool(b) => Json::Bool(b),
        serde_json::Value::Number(n) => Json::Number(from_number(n)),
        serde_json::Value::String(s) => Json::Str(s),
        serde_json::Value::Array(a) => Json::Array(a.into_iter().map(from_value).collect()),
        serde_json::Value::Object(o) => Json::Object(
            o.into_iter().map(|(k, x)| (k, from_value(x))).collect(),
        ),
    }
}

/// The [`serde_json::Value`] of a JSON number, variant by variant.
#[verifier::external_body]
fn to_number(n: &JsonNumber) -> (r: serde_json::Value) {
    match n {
        JsonNumber::Unsigned(n) => serde_json::Value::from(*n),
        JsonNumber::Negative(n) => serde_json::Value::from(*n),
        JsonNumber::Decimal(s) => s.parse().map_or(
            serde_json::Value::Null,
            serde_json::Value::Number,
        ),
    }
}

/// The [`serde_json::Value`] of a JSON value, variant by variant, with the entries of an object in
/// their order. Of two entries with one key the first is taken.
#[verifier::external_body]
pub(crate) fn to_value(v: &Json) -> (r: serde_json::Value) {
    match v {
        Json::Null => serde_json::Value::Null,
        Json::Bool(b) => serde_json::Value::Bool(*b),
        Json::Number(n) => to_number(n),
        Json::Str(s) => serde_json::Value::String(s.clone()),
        Json::Array(a) => serde_json::Value::Array(a.iter().map(to_value).collect()),
        Json::Object(o) => serde_json::Value::Object(
            o.iter().fold(serde_json::Map::new(), |mut m, (k, x)| {
                m.entry(k.clone()).or_insert_with(|| to_value(x));
                m
            }),
        ),
    }
}

/// What [`serde_json::from_str`] reads from a text: the value, or the text of its error.
pub uninterp spec fn parsed_json(text: Seq<char>) -> Result<JsonView, Seq<char>>;

/// The text that [`serde_json::Value`] displays as, which follows the order of the entries.
pub uninterp spec fn printed_json(v: OrderedView) -> Seq<char>;

/// What [`serde_json::Value::pointer`] finds in a value.
pub uninterp spec fn json_at(v: JsonView, path: Seq<char>) -> Option<JsonView>;

/// [`serde_json::from_str`] into a [`serde_json::Value`]: reads a text as one JSON value. The
/// result is the value, or the error as text, and depends on the text alone.
#[verifier::external_body]
pub(crate) fn read_json(text: &str) -> (r: Result<Json, String>)
    ensures
        match r {
            Ok(v) => parsed_json(text@) == Ok::<JsonView, Seq<char>>(v@),
            Err(e) => parsed_json(text@) == Err::<JsonView, Seq<char>>(e@),
        },
{
    serde_json::from_str::<serde_json::Value>(text).map(from_value).map_err(|e| e.to_string())
}

/// The `Display` of [`serde_json::Value`]: the compact text of a value, which depends on the
/// value and the order of its entries alone.
#[verifier::external_body]
pub(crate) fn write_json(v: &Json) -> (r: String)
    ensures
        r@ == printed_json(v.ordered()),
{
    to_value(v).to_string()
}

/// [`serde_json::Value::pointer`]: the value at a JSON pointer, which depends on the value and
/// the pointer alone.
#[verifier::external_body]
pub(crate) fn pointer(v: &Json, path: &str) -> (r: Option<Json>)
    ensures
        match r {
            Some(x) => json_at(v@, path@) == Some(x@),
            None => json_at(v@, path@) is None,
        },
{
    to_value(v).pointer(path).map(|x| from_value(x.clone()))
}

impl Json {
    /// Reads a text as one JSON value; the error is the reader's message.
    pub fn parse(text: &str) -> (r: Result<Json, String>)
        ensures
            match r {
                Ok(v) => parsed_json(text@) == Ok::<JsonView, Seq<char>>(v@),
                Err(e) => parsed_json(text@) == Err::<JsonView, Seq<char>>(e@),
            },
    {
        read_json(text)
    }

    /// The compact text of the value, with the entries of an object in their order.
    pub fn to_text(&self) -> (r: String)
        ensures
            r@ == printed_json(self.ordered()),
    {
        write_json(self)
    }

    /// The value at a JSON pointer.
    pub fn at(&self, path: &str) -> (r: Option<Json>)
        ensures
            match r {
                Some(x) => json_at(self@, path@) == Some(x@),
                None => json_at(self@, path@) is None,
            },
    {
        pointer(self, path)
    }
}

} // verus!
