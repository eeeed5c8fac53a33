//! The create-or-edit decision, and the startup credential precondition.
//!
//! One reconciliation round against the provider is a read followed by at
//! most one write.  The read fetches the records for (domain, name, type);
//! `decide` then chooses the write: create when nothing was found, edit the
//! first fetched record when it differs from the desired parameters, or no
//! write at all.  Duplicate records for the same name and type are a
//! pre-existing anomaly: the first record is treated as authoritative and
//! the rest are ignored, never repaired.

use vstd::prelude::*;
use crate::error::Error;
use crate::record::{spec_domain_ok, spec_is_modified, spec_merged, Params, Record};

verus! {

/// What one create-or-edit round does after the read: create a new record
/// from the parameters, send the carried (already merged) record as an
/// edit, or leave the record with the carried id untouched.
#[derive(Debug, PartialEq, Eq)]
pub enum Decision {
    Create,
    Edit(Record),
    Unchanged(String),
}

/// Chooses the write for one create-or-edit round, given the records the
/// read fetched: create when none were fetched; otherwise edit the first
/// record, merged with the parameters, exactly when it is modified; no
/// write when it is not.  A modified record fetched under another domain
/// than the parameters' is refused locally, before anything is sent.
pub fn decide(records: Vec<Record>, params: &Params) -> (r: Result<Decision, Error>)
    ensures
        records@.len() == 0 ==> r == Ok::<Decision, Error>(Decision::Create),
        (records@.len() > 0 && !spec_is_modified(&records@[0], params)) ==> r == Ok::<Decision, Error>(
            Decision::Unchanged(records@[0].id),
        ),
        (records@.len() > 0 && spec_is_modified(&records@[0], params) && spec_domain_ok(
            &records@[0],
            params,
        )) ==> r == Ok::<Decision, Error>(Decision::Edit(spec_merged(records@[0], params))),
        (records@.len() > 0 && spec_is_modified(&records@[0], params) && !spec_domain_ok(
            &records@[0],
            params,
        )) ==> (r matches Err(e) && e matches Error::Protocol(_)),
{
    let mut records = records;
    if records.len() == 0 {
        Ok(Decision::Create)
    } else {
        let record = records.remove(0);
        let id = record.id.clone();
        if record.is_modified(params) {
            match record.modify(params) {
                Ok(merged) => Ok(Decision::Edit(merged)),
                Err(e) => Err(e),
            }
        } else {
            Ok(Decision::Unchanged(id))
        }
    }
}

/// The two provider secrets, both present.
#[derive(Debug, PartialEq, Eq)]
pub struct Credentials {
    pub api_key: String,
    pub secret_key: String,
}

/// Checks the two provider secrets at startup.  A missing key is a
/// configuration error, raised before any request is formed or sent.
pub fn credentials(api_key: Option<String>, secret_key: Option<String>) -> (r: Result<
    Credentials,
    Error,
>)
    ensures
        (api_key is Some && secret_key is Some) ==> (r matches Ok(c) && c.api_key == api_key->0
            && c.secret_key == secret_key->0),
        api_key is None ==> (r matches Err(e) && e matches Error::Config(m) && m@
            == "PORKBUN_API_KEY env var not set"@),
        (api_key is Some && secret_key is None) ==> (r matches Err(e) && e matches Error::Config(m)
            && m@ == "PORKBUN_SECRET_KEY env var not set"@),
{
    let Some(api_key) = api_key else {
        return Err(Error::Config("PORKBUN_API_KEY env var not set".to_owned()));
    };
    let Some(secret_key) = secret_key else {
        return Err(Error::Config("PORKBUN_SECRET_KEY env var not set".to_owned()));
    };
    Ok(Credentials { api_key, secret_key })
}

} // verus!
