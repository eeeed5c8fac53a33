//! Parsing and validation of provider responses.
//!
//! Every provider response is a JSON object carrying a `status` field; a
//! status other than the provider's wire constant `"SUCCESS"` is a
//! provider error whose `message` field is surfaced as the error detail,
//! and a body that is not JSON at all is a decode error.  What a body
//! parses to is the named document `spec_doc` (see `json`), so every
//! function here pins its result, and each error case, for every input.

use vstd::prelude::*;
use crate::error::Error;
use crate::json::{
    doc_id_num,
    doc_id_str,
    doc_message,
    doc_parse_error,
    doc_record_content,
    doc_record_id,
    doc_record_name,
    doc_record_prio,
    doc_record_ttl,
    doc_record_type,
    doc_records_len,
    doc_status,
    doc_your_ip,
    spec_doc,
    RecordFields,
};
use crate::record::{spec_strip_domain_suffix, strip_domain_suffix, Record, RecordType};
use crate::text::{spec_decimal, spec_opt_text, str_eq, u64_to_string};

verus! {

/// Whether the body parses and its status field is the provider's success
/// constant `"SUCCESS"`.
pub open spec fn spec_status_success(bytes: Seq<u8>) -> bool {
    &&& spec_doc(bytes).parses
    &&& spec_doc(bytes).status matches Some(s) && s == "SUCCESS"@
}

/// The `message` field of the body's document, or empty when absent.
pub open spec fn spec_message_or_empty(bytes: Seq<u8>) -> Seq<char> {
    match spec_doc(bytes).message {
        Some(m) => m,
        None => Seq::empty(),
    }
}

/// Whether a record can be assembled from one wire element's fields: every
/// field must be present as a string, and the type name must be one the
/// provider defines.
pub open spec fn spec_rec_ok(f: RecordFields) -> bool {
    &&& f.id is Some
    &&& f.name is Some
    &&& f.rtype is Some
    &&& f.content is Some
    &&& f.ttl is Some
    &&& f.prio is Some
    &&& RecordType::spec_of_name(f.rtype->0) is Some
}

/// Whether `r` carries exactly the domain `d`.
pub open spec fn spec_has_domain(r: Record, d: Seq<char>) -> bool {
    match r.domain {
        Some(dd) => dd@ == d,
        None => false,
    }
}

/// Whether `rec` is the record assembled from the wire fields `f`, fetched
/// under `domain`: the wire fields verbatim, except that the domain suffix
/// is stripped from the name, the type name is decoded, and the domain is
/// attached.
pub open spec fn spec_rec_matches(rec: Record, f: RecordFields, domain: Seq<char>) -> bool {
    &&& rec.id@ == f.id->0
    &&& rec.name@ == spec_strip_domain_suffix(f.name->0, domain)
    &&& Some(rec.record_type) == RecordType::spec_of_name(f.rtype->0)
    &&& rec.content@ == f.content->0
    &&& rec.ttl@ == f.ttl->0
    &&& rec.prio@ == f.prio->0
    &&& spec_has_domain(rec, domain)
}

/// Assembles one provider record from its extracted wire fields, fetched
/// under `domain`.  Any missing or non-string field, or an unknown type
/// name, is a decode error.
pub fn record_from_parts(
    id: Option<String>,
    name: Option<String>,
    rtype: Option<String>,
    content: Option<String>,
    ttl: Option<String>,
    prio: Option<String>,
    domain: &str,
) -> (r: Result<Record, Error>)
    ensures
        ({
            let f = RecordFields {
                id: spec_opt_text(id),
                name: spec_opt_text(name),
                rtype: spec_opt_text(rtype),
                content: spec_opt_text(content),
                ttl: spec_opt_text(ttl),
                prio: spec_opt_text(prio),
            };
            &&& spec_rec_ok(f) ==> (r matches Ok(rec) && spec_rec_matches(rec, f, domain@))
            &&& !spec_rec_ok(f) ==> (r matches Err(e) && e matches Error::Decode(_))
        }),
{
    let (Some(id), Some(name), Some(rtype), Some(content), Some(ttl), Some(prio)) = (
        id,
        name,
        rtype,
        content,
        ttl,
        prio,
    ) else {
        return Err(Error::Decode("record field missing or not a string".to_owned()));
    };
    let Some(record_type) = RecordType::from_name(rtype.as_str()) else {
        return Err(Error::Decode("unknown record type in response".to_owned()));
    };
    Ok(
        Record {
            content,
            id,
            name: strip_domain_suffix(name.as_str(), domain),
            prio,
            ttl,
            record_type,
            domain: Some(domain.to_owned()),
        },
    )
}

/// The record id a create response carries: the `id` field as a string if
/// it is one, else its decimal rendering if it is an integer, else a
/// provider error saying "no id in response" — the response was otherwise
/// well formed but unusable.
pub fn id_from_parts(id_str: Option<String>, id_num: Option<u64>) -> (r: Result<String, Error>)
    ensures
        id_str matches Some(s) ==> (r matches Ok(out) && out == s),
        (id_str is None && id_num is Some) ==> (r matches Ok(out) && out@ == spec_decimal(
            id_num->0 as int,
        )),
        (id_str is None && id_num is None) ==> (r matches Err(e) && e matches Error::Provider(m)
            && m@ == "no id in response"@),
{
    match id_str {
        Some(s) => Ok(s),
        None => match id_num {
            Some(n) => Ok(u64_to_string(n)),
            None => Err(Error::Provider("no id in response".to_owned())),
        },
    }
}

/// Enforces the status convention on a body: accepted exactly when it
/// parses with the success status; a body that does not parse is a decode
/// error carrying the parse error's text; a parsed body with any other
/// status is a provider error carrying the document's message field,
/// empty when absent.
fn check_body(body: &[u8]) -> (r: Result<(), Error>)
    ensures
        (r is Ok) == spec_status_success(body@),
        !spec_doc(body@).parses ==> (r matches Err(e) && e matches Error::Decode(_)),
        (spec_doc(body@).parses && !spec_status_success(body@)) ==> (r matches Err(e) && (
        e matches Error::Provider(m) && m@ == spec_message_or_empty(body@))),
{
    if let Some(parse_err) = doc_parse_error(body) {
        return Err(Error::Decode(parse_err));
    }
    let status_ok = match doc_status(body) {
        Some(s) => str_eq(s.as_str(), "SUCCESS"),
        None => false,
    };
    if status_ok {
        Ok(())
    } else {
        let message = match doc_message(body) {
            Some(m) => m,
            None => String::new(),
        };
        Err(Error::Provider(message))
    }
}

/// Parses a ping response: the provider's view of our address, taken from
/// the `yourIp` string of a successful response, returned as the provider
/// sent it.
pub fn parse_ping_response(body: &[u8]) -> (r: Result<String, Error>)
    ensures
        (r is Ok) == (spec_status_success(body@) && spec_doc(body@).your_ip is Some),
        r matches Ok(t) ==> Some(t@) == spec_doc(body@).your_ip,
        !spec_doc(body@).parses ==> (r matches Err(e) && e matches Error::Decode(_)),
        (spec_doc(body@).parses && !spec_status_success(body@)) ==> (r matches Err(e) && (
        e matches Error::Provider(m) && m@ == spec_message_or_empty(body@))),
        (spec_status_success(body@) && spec_doc(body@).your_ip is None) ==> (r matches Err(e) && (
        e matches Error::Provider(m) && m@ == "no yourIp field on ping response"@)),
{
    if let Err(e) = check_body(body) {
        return Err(e);
    }
    match doc_your_ip(body) {
        Some(t) => Ok(t),
        None => Err(Error::Provider("no yourIp field on ping response".to_owned())),
    }
}

/// Parses a create response: the id of the new record, taken from a
/// string or integer `id` field of a successful response.
pub fn parse_create_response(body: &[u8]) -> (r: Result<String, Error>)
    ensures
        (r is Ok) == (spec_status_success(body@) && (spec_doc(body@).id_str is Some || spec_doc(
            body@,
        ).id_num is Some)),
        (spec_status_success(body@) && spec_doc(body@).id_str is Some) ==> (r matches Ok(out)
            && Some(out@) == spec_doc(body@).id_str),
        (spec_status_success(body@) && spec_doc(body@).id_str is None && spec_doc(
            body@,
        ).id_num is Some) ==> (r matches Ok(out) && out@ == spec_decimal(
            spec_doc(body@).id_num->0 as int,
        )),
        (spec_status_success(body@) && spec_doc(body@).id_str is None && spec_doc(
            body@,
        ).id_num is None) ==> (r matches Err(e) && (e matches Error::Provider(m) && m@
            == "no id in response"@)),
        !spec_doc(body@).parses ==> (r matches Err(e) && e matches Error::Decode(_)),
        (spec_doc(body@).parses && !spec_status_success(body@)) ==> (r matches Err(e) && (
        e matches Error::Provider(m) && m@ == spec_message_or_empty(body@))),
{
    if let Err(e) = check_body(body) {
        return Err(e);
    }
    id_from_parts(doc_id_str(body), doc_id_num(body))
}

/// Parses an edit response: accepted exactly when the body validates as a
/// success.
pub fn parse_edit_response(body: &[u8]) -> (r: Result<(), Error>)
    ensures
        (r is Ok) == spec_status_success(body@),
        !spec_doc(body@).parses ==> (r matches Err(e) && e matches Error::Decode(_)),
        (spec_doc(body@).parses && !spec_status_success(body@)) ==> (r matches Err(e) && (
        e matches Error::Provider(m) && m@ == spec_message_or_empty(body@))),
{
    match check_body(body) {
        Ok(()) => Ok(()),
        Err(e) => Err(e),
    }
}

/// Parses a retrieve response fetched under `domain`: one record per
/// element of the `records` array of a successful response, in wire
/// order, each assembled from its element's fields with the domain suffix
/// stripped from the name and the domain attached.  A successful response
/// without a `records` array, or with an element that does not assemble,
/// is a decode error.
pub fn parse_retrieve_response(body: &[u8], domain: &str) -> (r: Result<Vec<Record>, Error>)
    ensures
        (r is Ok) == (spec_status_success(body@) && spec_doc(body@).records is Some && (forall|
            i: int,
        |
            0 <= i < spec_doc(body@).records->0.len() ==> spec_rec_ok(
                #[trigger] spec_doc(body@).records->0[i],
            ))),
        r matches Ok(recs) ==> ({
            let rs = spec_doc(body@).records->0;
            &&& recs@.len() == rs.len()
            &&& forall|i: int|
                0 <= i < rs.len() ==> spec_rec_matches(#[trigger] recs@[i], rs[i], domain@)
        }),
        !spec_doc(body@).parses ==> (r matches Err(e) && e matches Error::Decode(_)),
        (spec_doc(body@).parses && !spec_status_success(body@)) ==> (r matches Err(e) && (
        e matches Error::Provider(m) && m@ == spec_message_or_empty(body@))),
        (spec_status_success(body@) && spec_doc(body@).records is None) ==> (r matches Err(e)
            && e matches Error::Decode(_)),
        (spec_status_success(body@) && spec_doc(body@).records is Some && (exists|i: int|
            0 <= i < spec_doc(body@).records->0.len() && !spec_rec_ok(
                #[trigger] spec_doc(body@).records->0[i],
            ))) ==> (r matches Err(e) && e matches Error::Decode(_)),
{
    if let Err(e) = check_body(body) {
        return Err(e);
    }
    let Some(n) = doc_records_len(body) else {
        return Err(Error::Decode("response has no records array".to_owned()));
    };
    let ghost rs = spec_doc(body@).records->0;
    let mut records: Vec<Record> = Vec::new();
    let mut i: usize = 0;
    while i < n
        invariant
            i <= n,
            spec_status_success(body@),
            spec_doc(body@).records == Some(rs),
            rs.len() == n,
            records@.len() == i,
            forall|k: int|
                0 <= k < i ==> (spec_rec_ok(#[trigger] rs[k]) && spec_rec_matches(
                    records@[k],
                    rs[k],
                    domain@,
                )),
        decreases n - i,
    {
        let id = doc_record_id(body, i);
        let name = doc_record_name(body, i);
        let rtype = doc_record_type(body, i);
        let content = doc_record_content(body, i);
        let ttl = doc_record_ttl(body, i);
        let prio = doc_record_prio(body, i);
        proof {
            assert(rs[i as int] == RecordFields {
                id: spec_opt_text(id),
                name: spec_opt_text(name),
                rtype: spec_opt_text(rtype),
                content: spec_opt_text(content),
                ttl: spec_opt_text(ttl),
                prio: spec_opt_text(prio),
            });
        }
        let rec = match record_from_parts(id, name, rtype, content, ttl, prio, domain) {
            Ok(rec) => rec,
            Err(e) => {
                return Err(e);
            },
        };
        records.push(rec);
        i += 1;
    }
    proof {
        assert(forall|k: int|
            0 <= k < rs.len() ==> spec_rec_ok(#[trigger] spec_doc(body@).records->0[k]));
        assert(forall|k: int|
            0 <= k < rs.len() ==> spec_rec_matches(
                #[trigger] records@[k],
                spec_doc(body@).records->0[k],
                domain@,
            ));
    }
    Ok(records)
}

} // verus!
