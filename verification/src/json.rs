//! Trusted declarations for the JSON handling the engine relies on.
//!
//! The provider speaks JSON.  Parsing a body is a function of its bytes
//! alone, so the parse result is given a name: `spec_doc` maps the bytes
//! of one response body to the fields the engine reads from it — whether
//! the body parses at all, the top-level `status`, `message`, `yourIp` and
//! `id` fields, and the field sets of the elements of the `records` array.
//! Each accessor below re-reads the document through `serde_json` and its
//! contract ties what it returns to `spec_doc`, so the verified parsing
//! pipeline carries exact contracts over the named fields.

use vstd::prelude::*;
use crate::text::spec_opt_text;

verus! {

/// The fields of one element of the `records` array, each present exactly
/// when the element is an object carrying that key with a string value.
pub struct RecordFields {
    pub id: Option<Seq<char>>,
    pub name: Option<Seq<char>>,
    pub rtype: Option<Seq<char>>,
    pub content: Option<Seq<char>>,
    pub ttl: Option<Seq<char>>,
    pub prio: Option<Seq<char>>,
}

/// The fields the engine reads from one response body.  `parses` says
/// whether the bytes are one JSON document; each other field is present
/// exactly when the document carries it with the type named here: the
/// top-level `status`, `message` and `yourIp` fields as strings, the
/// top-level `id` field as a string (`id_str`) or as an unsigned integer
/// (`id_num`), and `records` as an array, projected element by element to
/// its string fields.
pub struct DocFields {
    pub parses: bool,
    pub status: Option<Seq<char>>,
    pub message: Option<Seq<char>>,
    pub your_ip: Option<Seq<char>>,
    pub id_str: Option<Seq<char>>,
    pub id_num: Option<u64>,
    pub records: Option<Seq<RecordFields>>,
}

/// What parsing a response body yields: a function of the bytes alone.
pub uninterp spec fn spec_doc(bytes: Seq<u8>) -> DocFields;

/// Relies on `serde_json::from_slice`: `None` when the bytes parse as one
/// JSON document, otherwise the parse error's text through its `Display`
/// implementation.
#[verifier::external_body]
pub(crate) fn doc_parse_error(bytes: &[u8]) -> (r: Option<String>)
    ensures
        (r is None) == spec_doc(bytes@).parses,
{
    match serde_json::from_slice::<serde_json::Value>(bytes) {
        Ok(_) => None,
        Err(e) => Some(format!("{}", e)),
    }
}

/// Relies on `serde_json::from_slice`, `Value::get` and `Value::as_str`:
/// the `status` field of the document, when it is a string.
#[verifier::external_body]
pub(crate) fn doc_status(bytes: &[u8]) -> (r: Option<String>)
    ensures
        spec_opt_text(r) == spec_doc(bytes@).status,
{
    let v: serde_json::Value = serde_json::from_slice(bytes).ok()?;
    Some(v.get("status")?.as_str()?.to_owned())
}

/// Relies on `serde_json::from_slice`, `Value::get` and `Value::as_str`:
/// the `message` field of the document, when it is a string.
#[verifier::external_body]
pub(crate) fn doc_message(bytes: &[u8]) -> (r: Option<String>)
    ensures
        spec_opt_text(r) == spec_doc(bytes@).message,
{
    let v: serde_json::Value = serde_json::from_slice(bytes).ok()?;
    Some(v.get("message")?.as_str()?.to_owned())
}

/// Relies on `serde_json::from_slice`, `Value::get` and `Value::as_str`:
/// the `yourIp` field of the document, when it is a string.
#[verifier::external_body]
pub(crate) fn doc_your_ip(bytes: &[u8]) -> (r: Option<String>)
    ensures
        spec_opt_text(r) == spec_doc(bytes@).your_ip,
{
    let v: serde_json::Value = serde_json::from_slice(bytes).ok()?;
    Some(v.get("yourIp")?.as_str()?.to_owned())
}

/// Relies on `serde_json::from_slice`, `Value::get` and `Value::as_str`:
/// the `id` field of the document, when it is a string.
#[verifier::external_body]
pub(crate) fn doc_id_str(bytes: &[u8]) -> (r: Option<String>)
    ensures
        spec_opt_text(r) == spec_doc(bytes@).id_str,
{
    let v: serde_json::Value = serde_json::from_slice(bytes).ok()?;
    Some(v.get("id")?.as_str()?.to_owned())
}

/// Relies on `serde_json::from_slice`, `Value::get` and `Value::as_u64`:
/// the `id` field of the document, when it is an unsigned integer.
#[verifier::external_body]
pub(crate) fn doc_id_num(bytes: &[u8]) -> (r: Option<u64>)
    ensures
        r == spec_doc(bytes@).id_num,
{
    let v: serde_json::Value = serde_json::from_slice(bytes).ok()?;
    v.get("id")?.as_u64()
}

/// Relies on `serde_json::from_slice`, `Value::get` and `Value::as_array`:
/// the length of the `records` array, when the document carries one.
#[verifier::external_body]
pub(crate) fn doc_records_len(bytes: &[u8]) -> (r: Option<usize>)
    ensures
        r matches Some(n) ==> (spec_doc(bytes@).records matches Some(rs) && rs.len() == n),
        r is None ==> spec_doc(bytes@).records is None,
{
    let v: serde_json::Value = serde_json::from_slice(bytes).ok()?;
    Some(v.get("records")?.as_array()?.len())
}

/// Relies on `serde_json::from_slice`, `Value::get`, `Value::as_array` and
/// `Value::as_str`: the `id` field of element `i` of the `records` array,
/// when it is a string.
#[verifier::external_body]
pub(crate) fn doc_record_id(bytes: &[u8], i: usize) -> (r: Option<String>)
    ensures
        (spec_doc(bytes@).records is Some && i < spec_doc(bytes@).records->0.len())
            ==> spec_opt_text(r) == spec_doc(bytes@).records->0[i as int].id,
{
    let v: serde_json::Value = serde_json::from_slice(bytes).ok()?;
    Some(v.get("records")?.as_array()?.get(i)?.get("id")?.as_str()?.to_owned())
}

/// Relies on the same `serde_json` accessors: the `name` field of element
/// `i` of the `records` array, when it is a string.
#[verifier::external_body]
pub(crate) fn doc_record_name(bytes: &[u8], i: usize) -> (r: Option<String>)
    ensures
        (spec_doc(bytes@).records is Some && i < spec_doc(bytes@).records->0.len())
            ==> spec_opt_text(r) == spec_doc(bytes@).records->0[i as int].name,
{
    let v: serde_json::Value = serde_json::from_slice(bytes).ok()?;
    Some(v.get("records")?.as_array()?.get(i)?.get("name")?.as_str()?.to_owned())
}

/// Relies on the same `serde_json` accessors: the `type` field of element
/// `i` of the `records` array, when it is a string.
#[verifier::external_body]
pub(crate) fn doc_record_type(bytes: &[u8], i: usize) -> (r: Option<String>)
    ensures
        (spec_doc(bytes@).records is Some && i < spec_doc(bytes@).records->0.len())
            ==> spec_opt_text(r) == spec_doc(bytes@).records->0[i as int].rtype,
{
    let v: serde_json::Value = serde_json::from_slice(bytes).ok()?;
    Some(v.get("records")?.as_array()?.get(i)?.get("type")?.as_str()?.to_owned())
}

/// Relies on the same `serde_json` accessors: the `content` field of
/// element `i` of the `records` array, when it is a string.
#[verifier::external_body]
pub(crate) fn doc_record_content(bytes: &[u8], i: usize) -> (r: Option<String>)
    ensures
        (spec_doc(bytes@).records is Some && i < spec_doc(bytes@).records->0.len())
            ==> spec_opt_text(r) == spec_doc(bytes@).records->0[i as int].content,
{
    let v: serde_json::Value = serde_json::from_slice(bytes).ok()?;
    Some(v.get("records")?.as_array()?.get(i)?.get("content")?.as_str()?.to_owned())
}

/// Relies on the same `serde_json` accessors: the `ttl` field of element
/// `i` of the `records` array, when it is a string.
#[verifier::external_body]
pub(crate) fn doc_record_ttl(bytes: &[u8], i: usize) -> (r: Option<String>)
    ensures
        (spec_doc(bytes@).records is Some && i < spec_doc(bytes@).records->0.len())
            ==> spec_opt_text(r) == spec_doc(bytes@).records->0[i as int].ttl,
{
    let v: serde_json::Value = serde_json::from_slice(bytes).ok()?;
    Some(v.get("records")?.as_array()?.get(i)?.get("ttl")?.as_str()?.to_owned())
}

/// Relies on the same `serde_json` accessors: the `prio` field of element
/// `i` of the `records` array, when it is a string.
#[verifier::external_body]
pub(crate) fn doc_record_prio(bytes: &[u8], i: usize) -> (r: Option<String>)
    ensures
        (spec_doc(bytes@).records is Some && i < spec_doc(bytes@).records->0.len())
            ==> spec_opt_text(r) == spec_doc(bytes@).records->0[i as int].prio,
{
    let v: serde_json::Value = serde_json::from_slice(bytes).ok()?;
    Some(v.get("records")?.as_array()?.get(i)?.get("prio")?.as_str()?.to_owned())
}

} // verus!
