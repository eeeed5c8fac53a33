//! DNS record and update-parameter types, with the field-level logic of the
//! create-or-edit protocol: modification detection, merging, and the
//! relative-name convention (provider names are fully qualified; the engine
//! strips the domain suffix after a fetch).

use vstd::prelude::*;
use vstd::string::*;
use crate::error::Error;
use crate::text::str_eq;

verus! {

/// The provider's closed set of DNS record types.  The engine itself only
/// selects `A` or `AAAA`, by address family.
#[derive(Debug, PartialEq, Eq, Structural, Default, Clone, Copy)]
pub enum RecordType {
    #[default]
    A,
    MX,
    CNAME,
    ALIAS,
    TXT,
    NS,
    AAAA,
    SRV,
    TLSA,
    CAA,
}

impl RecordType {
    /// The wire name of the record type.
    pub open spec fn spec_name(self) -> Seq<char> {
        match self {
            RecordType::A => "A"@,
            RecordType::MX => "MX"@,
            RecordType::CNAME => "CNAME"@,
            RecordType::ALIAS => "ALIAS"@,
            RecordType::TXT => "TXT"@,
            RecordType::NS => "NS"@,
            RecordType::AAAA => "AAAA"@,
            RecordType::SRV => "SRV"@,
            RecordType::TLSA => "TLSA"@,
            RecordType::CAA => "CAA"@,
        }
    }

    /// The wire name of the record type, as used in request paths and bodies.
    pub fn as_name(&self) -> (r: &'static str)
        ensures
            r@ == self.spec_name(),
    {
        match self {
            RecordType::A => "A",
            RecordType::MX => "MX",
            RecordType::CNAME => "CNAME",
            RecordType::ALIAS => "ALIAS",
            RecordType::TXT => "TXT",
            RecordType::NS => "NS",
            RecordType::AAAA => "AAAA",
            RecordType::SRV => "SRV",
            RecordType::TLSA => "TLSA",
            RecordType::CAA => "CAA",
        }
    }

    /// The record type a wire name denotes, if any.
    pub open spec fn spec_of_name(s: Seq<char>) -> Option<RecordType> {
        if s == "A"@ {
            Some(RecordType::A)
        } else if s == "MX"@ {
            Some(RecordType::MX)
        } else if s == "CNAME"@ {
            Some(RecordType::CNAME)
        } else if s == "ALIAS"@ {
            Some(RecordType::ALIAS)
        } else if s == "TXT"@ {
            Some(RecordType::TXT)
        } else if s == "NS"@ {
            Some(RecordType::NS)
        } else if s == "AAAA"@ {
            Some(RecordType::AAAA)
        } else if s == "SRV"@ {
            Some(RecordType::SRV)
        } else if s == "TLSA"@ {
            Some(RecordType::TLSA)
        } else if s == "CAA"@ {
            Some(RecordType::CAA)
        } else {
            None
        }
    }

    /// Parses a wire name back into a record type.
    pub fn from_name(s: &str) -> (r: Option<RecordType>)
        ensures
            r == RecordType::spec_of_name(s@),
    {
        if str_eq(s, "A") {
            Some(RecordType::A)
        } else if str_eq(s, "MX") {
            Some(RecordType::MX)
        } else if str_eq(s, "CNAME") {
            Some(RecordType::CNAME)
        } else if str_eq(s, "ALIAS") {
            Some(RecordType::ALIAS)
        } else if str_eq(s, "TXT") {
            Some(RecordType::TXT)
        } else if str_eq(s, "NS") {
            Some(RecordType::NS)
        } else if str_eq(s, "AAAA") {
            Some(RecordType::AAAA)
        } else if str_eq(s, "SRV") {
            Some(RecordType::SRV)
        } else if str_eq(s, "TLSA") {
            Some(RecordType::TLSA)
        } else if str_eq(s, "CAA") {
            Some(RecordType::CAA)
        } else {
            None
        }
    }
}

/// Law: the wire names of the record types are distinct, so writing a type
/// out and parsing it back yields the same type.
pub proof fn lemma_record_type_name_round_trip(t: RecordType)
    ensures
        RecordType::spec_of_name(t.spec_name()) == Some(t),
{
    broadcast use vstd::string::group_string_axioms;

    reveal_strlit("A");
    reveal_strlit("MX");
    reveal_strlit("CNAME");
    reveal_strlit("ALIAS");
    reveal_strlit("TXT");
    reveal_strlit("NS");
    reveal_strlit("AAAA");
    reveal_strlit("SRV");
    reveal_strlit("TLSA");
    reveal_strlit("CAA");
    assert("A"@.len() == 1);
    assert("MX"@.len() == 2 && "MX"@[0] == 'M');
    assert("CNAME"@.len() == 5 && "CNAME"@[0] == 'C');
    assert("ALIAS"@.len() == 5 && "ALIAS"@[0] == 'A');
    assert("TXT"@.len() == 3 && "TXT"@[0] == 'T');
    assert("NS"@.len() == 2 && "NS"@[0] == 'N');
    assert("AAAA"@.len() == 4 && "AAAA"@[0] == 'A');
    assert("SRV"@.len() == 3 && "SRV"@[0] == 'S');
    assert("TLSA"@.len() == 4 && "TLSA"@[0] == 'T');
    assert("CAA"@.len() == 3 && "CAA"@[0] == 'C');
    match t {
        RecordType::A => assert(RecordType::spec_of_name("A"@) == Some(RecordType::A)),
        RecordType::MX => assert(RecordType::spec_of_name("MX"@) == Some(RecordType::MX)),
        RecordType::CNAME => assert(RecordType::spec_of_name("CNAME"@) == Some(RecordType::CNAME)),
        RecordType::ALIAS => assert(RecordType::spec_of_name("ALIAS"@) == Some(RecordType::ALIAS)),
        RecordType::TXT => assert(RecordType::spec_of_name("TXT"@) == Some(RecordType::TXT)),
        RecordType::NS => assert(RecordType::spec_of_name("NS"@) == Some(RecordType::NS)),
        RecordType::AAAA => assert(RecordType::spec_of_name("AAAA"@) == Some(RecordType::AAAA)),
        RecordType::SRV => assert(RecordType::spec_of_name("SRV"@) == Some(RecordType::SRV)),
        RecordType::TLSA => assert(RecordType::spec_of_name("TLSA"@) == Some(RecordType::TLSA)),
        RecordType::CAA => assert(RecordType::spec_of_name("CAA"@) == Some(RecordType::CAA)),
    }
}

/// The provider's view of an existing record: an opaque id, the relative
/// name, type, content, ttl and priority, plus the domain the record was
/// fetched under.  The domain is not part of the wire format; it is attached
/// locally after a fetch so that later operations know which domain the
/// record belongs to.
#[derive(Debug, PartialEq, Eq)]
pub struct Record {
    pub content: String,
    pub id: String,
    pub name: String,
    pub prio: String,
    pub ttl: String,
    pub record_type: RecordType,
    pub domain: Option<String>,
}

/// One desired record: the update parameters for a single reconciliation
/// attempt.  `ttl` defaults to `"600"` and `prio` to `"0"` when absent.
#[derive(Debug, PartialEq, Eq)]
pub struct Params {
    pub domain: String,
    pub record_type: RecordType,
    pub name: String,
    pub content: String,
    pub ttl: Option<String>,
    pub prio: Option<String>,
}

/// The ttl a record is expected to carry for `p`: the explicit ttl, or "600".
pub open spec fn spec_effective_ttl(p: &Params) -> Seq<char> {
    match p.ttl {
        Some(t) => t@,
        None => "600"@,
    }
}

/// The priority a record is expected to carry for `p`: the explicit
/// priority, or "0".
pub open spec fn spec_effective_prio(p: &Params) -> Seq<char> {
    match p.prio {
        Some(t) => t@,
        None => "0"@,
    }
}

/// The ttl `p` asks for, with the default applied.
pub fn effective_ttl(p: &Params) -> (r: String)
    ensures
        r@ == spec_effective_ttl(p),
{
    match &p.ttl {
        Some(t) => t.clone(),
        None => "600".to_owned(),
    }
}

/// The priority `p` asks for, with the default applied.
pub fn effective_prio(p: &Params) -> (r: String)
    ensures
        r@ == spec_effective_prio(p),
{
    match &p.prio {
        Some(t) => t.clone(),
        None => "0".to_owned(),
    }
}

/// A record differs from the desired parameters in at least one of name,
/// type, content, ttl (against the "600" default) or priority (against the
/// "0" default).
pub open spec fn spec_is_modified(r: &Record, p: &Params) -> bool {
    r.name@ != p.name@
        || r.record_type != p.record_type
        || r.content@ != p.content@
        || r.ttl@ != spec_effective_ttl(p)
        || r.prio@ != spec_effective_prio(p)
}

/// Law: modification detection is field-exact.  A record that agrees with
/// the parameters flips to modified when any one of name, type, content,
/// ttl or priority changes; a record that differs in none of them is not
/// modified.
pub proof fn lemma_modified_flips_on_any_field(r: &Record, r2: &Record, p: &Params)
    requires
        !spec_is_modified(r, p),
        r2.name@ != r.name@ || r2.record_type != r.record_type || r2.content@ != r.content@
            || r2.ttl@ != r.ttl@ || r2.prio@ != r.prio@,
    ensures
        spec_is_modified(r2, p),
{
}

/// Whether `r`'s domain field names exactly `p`'s domain.
pub open spec fn spec_domain_ok(r: &Record, p: &Params) -> bool {
    match r.domain {
        Some(d) => d@ == p.domain@,
        None => false,
    }
}

/// The record that an edit sends: the desired name, type and content, the
/// desired ttl and priority where given, the record's own where not, and
/// the record's id and domain.
pub open spec fn spec_merged(r: Record, p: &Params) -> Record {
    Record {
        name: p.name,
        record_type: p.record_type,
        content: p.content,
        ttl: match p.ttl {
            Some(t) => t,
            None => r.ttl,
        },
        prio: match p.prio {
            Some(t) => t,
            None => r.prio,
        },
        id: r.id,
        domain: r.domain,
    }
}

impl Clone for Record {
    /// An exact copy, field for field.
    fn clone(&self) -> (r: Self)
        ensures
            r == *self,
    {
        Record {
            content: self.content.clone(),
            id: self.id.clone(),
            name: self.name.clone(),
            prio: self.prio.clone(),
            ttl: self.ttl.clone(),
            record_type: self.record_type,
            domain: match &self.domain {
                Some(d) => Some(d.clone()),
                None => None,
            },
        }
    }
}

impl Clone for Params {
    /// An exact copy, field for field.
    fn clone(&self) -> (r: Self)
        ensures
            r == *self,
    {
        Params {
            domain: self.domain.clone(),
            record_type: self.record_type,
            name: self.name.clone(),
            content: self.content.clone(),
            ttl: match &self.ttl {
                Some(t) => Some(t.clone()),
                None => None,
            },
            prio: match &self.prio {
                Some(t) => Some(t.clone()),
                None => None,
            },
        }
    }
}

impl Record {
    /// True iff at least one reconciled field of the record differs from
    /// what the parameters ask for.
    pub fn is_modified(&self, params: &Params) -> (r: bool)
        ensures
            r == spec_is_modified(self, params),
    {
        !(self.name == params.name) || !(self.record_type == params.record_type) || !(self.content
            == params.content) || !(self.ttl == effective_ttl(params)) || !(self.prio
            == effective_prio(params))
    }

    /// Merges the desired parameters into this record, keeping its id.
    /// Fails with a protocol error, before anything is sent, when the record
    /// carries no domain or a domain other than `params.domain`.
    pub fn modify(self, params: &Params) -> (r: Result<Record, Error>)
        ensures
            spec_domain_ok(&self, params) ==> (r matches Ok(m) && m == spec_merged(self, params)),
            !spec_domain_ok(&self, params) ==> (r matches Err(e) && e matches Error::Protocol(m)
                && (if self.domain is Some {
                m@ == "record domain does not match params domain"@
            } else {
                m@ == "no domain on record"@
            })),
    {
        let domain_ok = match &self.domain {
            Some(d) => *d == params.domain,
            None => false,
        };
        if !domain_ok {
            let msg: &str = match &self.domain {
                Some(_) => "record domain does not match params domain",
                None => "no domain on record",
            };
            return Err(Error::Protocol(msg.to_owned()));
        }
        Ok(
            Record {
                name: params.name.clone(),
                record_type: params.record_type,
                content: params.content.clone(),
                ttl: match &params.ttl {
                    Some(t) => t.clone(),
                    None => self.ttl,
                },
                prio: match &params.prio {
                    Some(t) => t.clone(),
                    None => self.prio,
                },
                id: self.id,
                domain: self.domain,
            },
        )
    }
}

/// The relative form of a fully qualified record name: when `name` ends in
/// `"." + domain`, that suffix is removed; a name that is exactly the domain,
/// or does not carry the suffix, is left unchanged.
pub open spec fn spec_strip_domain_suffix(name: Seq<char>, domain: Seq<char>) -> Seq<char> {
    if name.len() > domain.len() && name[name.len() - domain.len() - 1] == '.' && name.subrange(
        name.len() - domain.len(),
        name.len() as int,
    ) == domain {
        name.subrange(0, name.len() - domain.len() - 1)
    } else {
        name
    }
}

/// Law: domain-suffix stripping round-trips.  A fully qualified name built
/// as `host + "." + domain` is exposed internally as `host`, and a name
/// that is exactly the domain carries no suffix and is left unchanged.
pub proof fn lemma_strip_round_trip(host: Seq<char>, domain: Seq<char>)
    ensures
        spec_strip_domain_suffix(host + seq!['.'] + domain, domain) == host,
        spec_strip_domain_suffix(domain, domain) == domain,
{
    let name = host + seq!['.'] + domain;
    assert(name.len() == host.len() + 1 + domain.len());
    assert(name[host.len() as int] == '.');
    assert(name.subrange(name.len() - domain.len(), name.len() as int) =~= domain);
    assert(name.subrange(0, host.len() as int) =~= host);
}

/// Strips the `"." + domain` suffix from a fully qualified name, leaving
/// other names (including the bare domain itself) unchanged.
pub fn strip_domain_suffix(name: &str, domain: &str) -> (r: String)
    ensures
        r@ == spec_strip_domain_suffix(name@, domain@),
{
    let n = name.unicode_len();
    let d = domain.unicode_len();
    if n > d {
        let dot = name.get_char(n - d - 1);
        if dot == '.' {
            let tail = name.substring_char(n - d, n);
            if String::from_str(tail) == domain.to_owned() {
                return String::from_str(name.substring_char(0, n - d - 1));
            }
        }
    }
    name.to_owned()
}

} // verus!
