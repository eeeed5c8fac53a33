//! Construction of provider requests: endpoint URLs and call bodies.
//!
//! A call body is a plain value; the transport layer serializes it as a
//! JSON object with the fields in wire spelling (`type` for the record
//! type) and sends it with a POST.  Absent optional fields are left out
//! of the serialized object; the provider applies its defaults to them.

use vstd::prelude::*;
use vstd::string::*;
use crate::protocol::Credentials;
use crate::record::{Params, Record, RecordType};

verus! {

/// The body of one provider call: the credentials, and the record fields
/// the call sends.  Calls that send no record fields leave them `None`.
#[derive(Debug, PartialEq, Eq)]
pub struct CallBody {
    pub apikey: String,
    pub secretapikey: String,
    pub name: Option<String>,
    pub record_type: Option<String>,
    pub content: Option<String>,
    pub ttl: Option<String>,
    pub prio: Option<String>,
}

/// The ping endpoint.
pub fn ping_url() -> (r: String)
    ensures
        r@ == "https://api.porkbun.com/api/json/v3/ping"@,
{
    String::from_str("https://api.porkbun.com/api/json/v3/ping")
}

/// The retrieve-by-name-and-type endpoint for (domain, type, name).
pub fn retrieve_url(domain: &str, record_type: RecordType, name: &str) -> (r: String)
    ensures
        r@ == "https://api.porkbun.com/api/json/v3/dns/retrieveByNameType/"@ + domain@ + "/"@
            + record_type.spec_name() + "/"@ + name@,
{
    let mut u = String::from_str("https://api.porkbun.com/api/json/v3/dns/retrieveByNameType/");
    u.append(domain);
    u.append("/");
    u.append(record_type.as_name());
    u.append("/");
    u.append(name);
    proof {
        assert(u@ =~= "https://api.porkbun.com/api/json/v3/dns/retrieveByNameType/"@ + domain@
            + "/"@ + record_type.spec_name() + "/"@ + name@);
    }
    u
}

/// The create endpoint for a domain.
pub fn create_url(domain: &str) -> (r: String)
    ensures
        r@ == "https://api.porkbun.com/api/json/v3/dns/create/"@ + domain@,
{
    let mut u = String::from_str("https://api.porkbun.com/api/json/v3/dns/create/");
    u.append(domain);
    u
}

/// The edit endpoint for a record id under a domain.
pub fn edit_url(domain: &str, id: &str) -> (r: String)
    ensures
        r@ == "https://api.porkbun.com/api/json/v3/dns/edit/"@ + domain@ + "/"@ + id@,
{
    let mut u = String::from_str("https://api.porkbun.com/api/json/v3/dns/edit/");
    u.append(domain);
    u.append("/");
    u.append(id);
    proof {
        assert(u@ =~= "https://api.porkbun.com/api/json/v3/dns/edit/"@ + domain@ + "/"@ + id@);
    }
    u
}

/// The body of a ping call: credentials only.
pub fn ping_body(creds: &Credentials) -> (r: CallBody)
    ensures
        r.apikey == creds.api_key,
        r.secretapikey == creds.secret_key,
        r.name is None && r.record_type is None && r.content is None && r.ttl is None
            && r.prio is None,
{
    CallBody {
        apikey: creds.api_key.clone(),
        secretapikey: creds.secret_key.clone(),
        name: None,
        record_type: None,
        content: None,
        ttl: None,
        prio: None,
    }
}

/// The body of a retrieve call: credentials only; domain, type and name
/// travel in the URL.
pub fn retrieve_body(creds: &Credentials) -> (r: CallBody)
    ensures
        r.apikey == creds.api_key,
        r.secretapikey == creds.secret_key,
        r.name is None && r.record_type is None && r.content is None && r.ttl is None
            && r.prio is None,
{
    ping_body(creds)
}

/// The body of a create call: the desired record fields, with the ttl and
/// priority exactly as the parameters hold them — an absent one is not
/// sent and is left to the provider's default.
pub fn create_body(creds: &Credentials, params: &Params) -> (r: CallBody)
    ensures
        r.apikey == creds.api_key,
        r.secretapikey == creds.secret_key,
        r.name matches Some(n) && n == params.name,
        r.record_type matches Some(t) && t@ == params.record_type.spec_name(),
        r.content matches Some(c) && c == params.content,
        r.ttl == params.ttl,
        r.prio == params.prio,
{
    CallBody {
        apikey: creds.api_key.clone(),
        secretapikey: creds.secret_key.clone(),
        name: Some(params.name.clone()),
        record_type: Some(params.record_type.as_name().to_owned()),
        content: Some(params.content.clone()),
        ttl: match &params.ttl {
            Some(t) => Some(t.clone()),
            None => None,
        },
        prio: match &params.prio {
            Some(t) => Some(t.clone()),
            None => None,
        },
    }
}

/// The body of an edit call for an already merged record: every record
/// field is sent, so the merged ttl and priority are preserved.
pub fn edit_body(creds: &Credentials, record: &Record) -> (r: CallBody)
    ensures
        r.apikey == creds.api_key,
        r.secretapikey == creds.secret_key,
        r.name matches Some(n) && n == record.name,
        r.record_type matches Some(t) && t@ == record.record_type.spec_name(),
        r.content matches Some(c) && c == record.content,
        r.ttl matches Some(t) && t == record.ttl,
        r.prio matches Some(p) && p == record.prio,
{
    CallBody {
        apikey: creds.api_key.clone(),
        secretapikey: creds.secret_key.clone(),
        name: Some(record.name.clone()),
        record_type: Some(record.record_type.as_name().to_owned()),
        content: Some(record.content.clone()),
        ttl: Some(record.ttl.clone()),
        prio: Some(record.prio.clone()),
    }
}

} // verus!
