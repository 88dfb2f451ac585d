//! The boundary to `serde_json`: reading a document from text and writing one
//! out. What `serde_json` computes is named here, not defined.

use crate::context::inserted;
use crate::json::{Json, JsonView, Member, MemberView};
use vstd::prelude::*;

verus! {

/// `serde_json::Map`, the map from keys to values of a JSON object.
#[verifier::external_type_specification]
#[verifier::external_body]
#[verifier::reject_recursive_types(K)]
#[verifier::reject_recursive_types(V)]
pub struct ExMap<K, V>(serde_json::Map<K, V>);

/// `serde_json::Value`, a JSON document as `serde_json` holds it.
#[verifier::external_type_specification]
#[verifier::external_body]
pub struct ExValue(serde_json::Value);

/// `serde_json::Error`, what goes wrong when JSON is read or written.
#[verifier::external_type_specification]
#[verifier::external_body]
pub struct ExError(serde_json::Error);

/// What `serde_json::from_str` makes of `text` as a `serde_json::Value`: the
/// document it holds, or the error it reports.
pub uninterp spec fn parsed_json(text: Seq<char>) -> Result<JsonView, serde_json::Error>;

/// The text that `serde_json::to_string` writes for a document.
pub uninterp spec fn json_text(doc: JsonView) -> Result<Seq<char>, serde_json::Error>;

/// The text that `serde_json::to_string_pretty` writes for a document.
pub uninterp spec fn json_text_pretty(doc: JsonView) -> Result<
    Seq<char>,
    serde_json::Error,
>;

/// The message that a `serde_json::Error` displays.
pub uninterp spec fn error_text(e: serde_json::Error) -> Seq<char>;

/// The error that `serde_json::Error::custom` makes from a message.
pub uninterp spec fn custom_error(msg: Seq<char>) -> serde_json::Error;

/// The members that a `serde_json::Map` holds, in the order in which the map
/// hands them out.
pub uninterp spec fn map_members(m: serde_json::Map<String, serde_json::Value>) -> Seq<MemberView>;

/// Moves a `serde_json::Value` into a [`Json`], variant by variant; an object's
/// members come in the order in which the map hands them out.
#[verifier::external_body]
fn from_value(v: serde_json::Value) -> Json {
    match v {
        serde_json::Value::Null => Json::Null,
        serde_json::Value::Bool(b) => Json::Bool(b),
        serde_json::Value::Number(n) => Json::Number(n),
        serde_json::Value::String(s) => Json::String(s),
        serde_json::Value::Array(a) => Json::Array(a.into_iter().map(from_value).collect()),
        serde_json::Value::Object(m) => Json::Object(
            m.into_iter().map(|(key, v)| Member { key, value: from_value(v) }).collect(),
        ),
    }
}

/// Copies a [`Json`] into a `serde_json::Value`, variant by variant; an object's
/// members are put into the map in their order.
#[verifier::external_body]
fn to_value(v: &Json) -> serde_json::Value {
    match v {
        Json::Null => serde_json::Value::Null,
        Json::Bool(b) => serde_json::Value::Bool(*b),
        Json::Number(n) => serde_json::Value::Number(n.clone()),
        Json::String(s) => serde_json::Value::String(s.clone()),
        Json::Array(a) => serde_json::Value::Array(a.iter().map(to_value).collect()),
        Json::Object(m) => serde_json::Value::Object(
            m.iter().map(|e| (e.key.clone(), to_value(&e.value))).collect(),
        ),
    }
}

/// `serde_json::from_str`, read as a `serde_json::Value`: the document that the
/// text holds, or the error that the parser reports for it.
#[verifier::external_body]
pub(crate) fn parse_json(text: &str) -> (r: Result<Json, serde_json::Error>)
    ensures
        match r {
            Ok(doc) => parsed_json(text@) == Ok::<JsonView, serde_json::Error>(doc@),
            Err(e) => parsed_json(text@) == Err::<JsonView, serde_json::Error>(e),
        },
{
    serde_json::from_str::<serde_json::Value>(text).map(from_value)
}

/// `serde_json::to_string` on the document: its compact text.
#[verifier::external_body]
pub(crate) fn to_text(doc: &Json) -> (r: Result<String, serde_json::Error>)
    ensures
        match r {
            Ok(s) => json_text(doc@) == Ok::<Seq<char>, serde_json::Error>(s@),
            Err(e) => json_text(doc@) == Err::<Seq<char>, serde_json::Error>(e),
        },
{
    serde_json::to_string(&to_value(doc))
}

/// `serde_json::to_string_pretty` on the document: its indented text.
#[verifier::external_body]
pub(crate) fn to_text_pretty(doc: &Json) -> (r: Result<String, serde_json::Error>)
    ensures
        match r {
            Ok(s) => json_text_pretty(doc@) == Ok::<Seq<char>, serde_json::Error>(s@),
            Err(e) => json_text_pretty(doc@) == Err::<Seq<char>, serde_json::Error>(e),
        },
{
    serde_json::to_string_pretty(&to_value(doc))
}

/// `serde_json::Map::new`: a map without members.
#[verifier::external_body]
pub(crate) fn map_new() -> (r: serde_json::Map<String, serde_json::Value>)
    ensures
        map_members(r) == Seq::<MemberView>::empty(),
{
    serde_json::Map::new()
}

/// `serde_json::Map::insert` of a string value. The map keeps its members by
/// ascending key, one per key, so the new member replaces the one with its key
/// or takes its place in the order.
#[verifier::external_body]
pub(crate) fn map_insert(
    m: &mut serde_json::Map<String, serde_json::Value>,
    key: String,
    value: String,
)
    ensures
        map_members(*final(m)) == inserted(
            map_members(*old(m)),
            MemberView { key: key@, value: JsonView::String(value@) },
        ),
{
    m.insert(key, serde_json::Value::String(value));
}

/// `serde_json::Map::iter`: the members in the map's order, each copied out.
#[verifier::external_body]
pub(crate) fn map_to_members(m: &serde_json::Map<String, serde_json::Value>) -> (r: Vec<Member>)
    ensures
        crate::json::members_view(r@) == map_members(*m),
{
    m.iter().map(|(k, v)| Member { key: k.clone(), value: from_value(v.clone()) }).collect()
}

/// `Display` of `serde_json::Error`: the message the error shows.
#[verifier::external_body]
pub(crate) fn error_message(e: &serde_json::Error) -> (r: String)
    ensures
        r@ == error_text(*e),
{
    e.to_string()
}

/// `serde::de::Error::custom` for `serde_json::Error`: an error made from a message.
#[verifier::external_body]
pub(crate) fn error_from_message(msg: &str) -> (r: serde_json::Error)
    ensures
        r == custom_error(msg@),
{
    <serde_json::Error as serde::de::Error>::custom(msg)
}

} // verus!
