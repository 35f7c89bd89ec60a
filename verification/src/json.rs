//! Reading JSON documents through `serde_json`.
//!
//! Parsing and member lookup are done by `serde_json`; what they give is named
//! here so that contracts elsewhere can speak of it. Nothing in this module
//! states what the JSON grammar is.

use vstd::prelude::*;

verus! {

#[verifier::external_type_specification]
#[verifier::external_body]
pub struct ExJsonValue(serde_json::Value);

#[verifier::external_type_specification]
#[verifier::external_body]
pub struct ExJsonError(serde_json::Error);

/// What an object holds under one of its keys, as far as this library reads
/// it.
pub enum Member {
    /// There is no such key.
    Absent,
    /// JSON `null`.
    Null,
    /// A JSON boolean.
    Flag(bool),
    /// A JSON string, unescaped.
    Text(Seq<char>),
    /// A number, an array or an object.
    Other,
}

/// Executable counterpart of [`Member`].
#[derive(Debug)]
pub enum JsonMember {
    Absent,
    Null,
    Flag(bool),
    Text(String),
    Other,
}

impl View for JsonMember {
    type V = Member;

    open spec fn view(&self) -> Member {
        match self {
            JsonMember::Absent => Member::Absent,
            JsonMember::Null => Member::Null,
            JsonMember::Flag(b) => Member::Flag(*b),
            JsonMember::Text(s) => Member::Text(s@),
            JsonMember::Other => Member::Other,
        }
    }
}

/// The members of the document that `serde_json::from_str` reads from `text`,
/// by key; `None` where it reports an error. A document that is no object has
/// no members.
pub uninterp spec fn json_members(text: Seq<char>) -> Option<Map<Seq<char>, Member>>;

/// The members that a document holds, by key. A document that is no object
/// holds none.
pub uninterp spec fn members_of(doc: serde_json::Value) -> Map<Seq<char>, Member>;

/// The member under `key`, or `Absent` where there is no such key.
pub open spec fn member_at(members: Map<Seq<char>, Member>, key: Seq<char>) -> Member {
    if members.dom().contains(key) {
        members[key]
    } else {
        Member::Absent
    }
}

/// Calls `serde_json::from_str::<serde_json::Value>`. Trusted: the call
/// succeeds exactly on the texts for which [`json_members`] is `Some`, and
/// the document it returns then holds those members.
#[verifier::external_body]
pub(crate) fn parse_document(text: &str) -> (res: Result<serde_json::Value, serde_json::Error>)
    ensures
        res is Ok <==> json_members(text@) is Some,
        res matches Ok(doc) ==> json_members(text@) == Some(members_of(doc)),
{
    serde_json::from_str::<serde_json::Value>(text)
}

/// Calls `serde_json::Value::get` with a string key and tells the variants of
/// what it finds apart. Trusted: the result is the member that the document
/// holds under the key, and `Absent` where it holds none.
#[verifier::external_body]
pub(crate) fn lookup(doc: &serde_json::Value, key: &str) -> (res: JsonMember)
    ensures
        res@ == member_at(members_of(*doc), key@),
{
    match doc.get(key) {
        None => JsonMember::Absent,
        Some(serde_json::Value::Null) => JsonMember::Null,
        Some(serde_json::Value::Bool(b)) => JsonMember::Flag(*b),
        Some(serde_json::Value::String(s)) => JsonMember::Text(s.clone()),
        Some(serde_json::Value::Number(_)) => JsonMember::Other,
        Some(serde_json::Value::Array(_)) => JsonMember::Other,
        Some(serde_json::Value::Object(_)) => JsonMember::Other,
    }
}

} // verus!
