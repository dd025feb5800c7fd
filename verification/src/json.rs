//! JSON text, read and written by the `serde_json` crate.

use vstd::prelude::*;
use serde_json::Value as V;

verus! {

#[verifier::external_type_specification]
#[verifier::external_body]
pub struct ExJsonValue(serde_json::Value);

#[verifier::external_type_specification]
#[verifier::external_body]
#[verifier::reject_recursive_types(K)]
#[verifier::reject_recursive_types(V)]
pub struct ExJsonMap<K, V>(serde_json::Map<K, V>);

/// A JSON object as `serde_json` holds it.
pub type JsonObject = serde_json::Map<String, V>;

/// One JSON value, by kind: a string by its content, a number and a
/// nested array or object by its JSON text (`Value::to_string`).
#[derive(Debug)]
pub enum JsonMember {
    Null,
    Bool(bool),
    Number(String),
    Str(String),
    Array(String),
    Object(String),
}

/// The mathematical form of a [`JsonMember`].
pub enum JsonMemberView {
    Null,
    Bool(bool),
    Number(Seq<char>),
    Str(Seq<char>),
    Array(Seq<char>),
    Object(Seq<char>),
}

impl View for JsonMember {
    type V = JsonMemberView;

    open spec fn view(&self) -> JsonMemberView {
        match self {
            JsonMember::Null => JsonMemberView::Null,
            JsonMember::Bool(b) => JsonMemberView::Bool(*b),
            JsonMember::Number(t) => JsonMemberView::Number(t@),
            JsonMember::Str(t) => JsonMemberView::Str(t@),
            JsonMember::Array(t) => JsonMemberView::Array(t@),
            JsonMember::Object(t) => JsonMemberView::Object(t@),
        }
    }
}

/// A whole JSON value: an object by its members in the map's order, any
/// other value as one [`JsonMember`].
#[derive(Debug)]
pub enum JsonDocument {
    Object(Vec<(String, JsonMember)>),
    Other(JsonMember),
}

/// The mathematical form of a [`JsonDocument`].
pub enum JsonDocumentView {
    Object(Seq<(Seq<char>, JsonMemberView)>),
    Other(JsonMemberView),
}

/// The mathematical form of the members of an object.
pub open spec fn members_of(v: Seq<(String, JsonMember)>) -> Seq<(Seq<char>, JsonMemberView)> {
    v.map_values(|p: (String, JsonMember)| (p.0@, p.1@))
}

impl View for JsonDocument {
    type V = JsonDocumentView;

    open spec fn view(&self) -> JsonDocumentView {
        match self {
            JsonDocument::Object(ms) => JsonDocumentView::Object(members_of(ms@)),
            JsonDocument::Other(m) => JsonDocumentView::Other(m@),
        }
    }
}

/// What `serde_json::from_str::<serde_json::Value>` makes of `line`: `Err`
/// with the error's text where the line is not JSON, else the value by kind.
pub uninterp spec fn json_document(line: Seq<char>) -> Result<JsonDocumentView, Seq<char>>;

/// The string members held by a `serde_json::Map` that only string values were put in.
pub uninterp spec fn json_map_strings(m: JsonObject) -> Map<Seq<char>, Seq<char>>;

/// What `serde_json::to_string` writes for an object whose members are the
/// given string members, or the text of its error.
pub uninterp spec fn json_object_text(members: Map<Seq<char>, Seq<char>>) -> Result<Seq<char>, Seq<char>>;

/// The empty set of members.
pub open spec fn no_members() -> Map<Seq<char>, Seq<char>> {
    Map::empty()
}

/// The mathematical form of a read document or an error's text.
pub open spec fn document_result_view(r: Result<JsonDocument, String>) -> Result<JsonDocumentView, Seq<char>> {
    match r {
        Ok(d) => Ok(d@),
        Err(e) => Err(e@),
    }
}

/// The mathematical form of a text or an error's text.
pub open spec fn text_result_view(r: Result<String, String>) -> Result<Seq<char>, Seq<char>> {
    match r {
        Ok(t) => Ok(t@),
        Err(e) => Err(e@),
    }
}

/// Calls `serde_json::from_str::<serde_json::Value>` and converts the result
/// to a [`JsonDocument`], one arm per kind of value (an error to its text).
/// Claims only that the result is a function of `line`.
#[verifier::external_body]
pub(crate) fn read_json_document(line: &str) -> (r: Result<JsonDocument, String>)
    ensures
        document_result_view(r) == json_document(line@),
{
    let value: V = serde_json::from_str(line).map_err(|e| e.to_string())?;
    let member = |v: V| match v {
        V::Null => JsonMember::Null,
        V::Bool(b) => JsonMember::Bool(b),
        V::String(s) => JsonMember::Str(s),
        V::Number(_) => JsonMember::Number(v.to_string()),
        V::Array(_) => JsonMember::Array(v.to_string()),
        V::Object(_) => JsonMember::Object(v.to_string()),
    };
    Ok(match value {
        V::Object(m) => JsonDocument::Object(m.into_iter().map(|(k, v)| (k, member(v))).collect()),
        other => JsonDocument::Other(member(other)),
    })
}

/// Calls `serde_json::Map::new`. Claims: the map is empty.
#[verifier::external_body]
pub(crate) fn json_map_new() -> (r: JsonObject)
    ensures
        json_map_strings(r) == no_members(),
{
    serde_json::Map::new()
}

/// Calls `serde_json::Map::insert` with the key and a `Value::String`.
/// Claims: afterwards the key maps to that string, replacing any earlier
/// value, and every other key is unchanged.
#[verifier::external_body]
pub(crate) fn json_map_insert(m: &mut JsonObject, key: String, value: String)
    ensures
        json_map_strings(*final(m)) == json_map_strings(*old(m)).insert(key@, value@),
{
    m.insert(key, serde_json::Value::String(value));
}

/// Calls `serde_json::to_string` on the map, an error turned to its text.
/// Claims: the result is a function of the map's members, and it is a
/// success (string keys and string values cannot fail to serialise).
#[verifier::external_body]
pub(crate) fn json_map_to_text(m: &JsonObject) -> (r: Result<String, String>)
    ensures
        text_result_view(r) == json_object_text(json_map_strings(*m)),
        r is Ok,
{
    serde_json::to_string(m).map_err(|e| e.to_string())
}

} // verus!
