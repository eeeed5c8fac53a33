//! A value-level model of the provider's record store, and the laws of the
//! create-or-edit protocol against it.
//!
//! The model stands for the provider in reasoning and in tests: `retrieve`
//! is the provider's read, filtered to one (domain, name, type) query, and
//! the create and edit writes are applied to the stored records as the
//! provider's documentation describes them (a create stores the effective
//! ttl and priority, with the provider's "600" and "0" defaults).  A round
//! run against the model goes through the same verified `decide` the
//! transport-facing caller uses.

use vstd::prelude::*;
use crate::error::Error;
use crate::protocol::{decide, Decision};
use crate::record::{
    effective_prio,
    effective_ttl,
    spec_effective_prio,
    spec_effective_ttl,
    spec_is_modified,
    spec_merged,
    Params,
    Record,
    RecordType,
};
use crate::response::spec_has_domain;
use crate::text::str_eq;

verus! {

/// Whether `r` answers the query (domain, name, type).
pub open spec fn spec_matches_query(
    r: Record,
    domain: Seq<char>,
    name: Seq<char>,
    t: RecordType,
) -> bool {
    spec_has_domain(r, domain) && r.name@ == name && r.record_type == t
}

/// The query (domain, name, type) as a predicate on records.
pub open spec fn query_pred(domain: Seq<char>, name: Seq<char>, t: RecordType) -> spec_fn(
    Record,
) -> bool {
    |r: Record| spec_matches_query(r, domain, name, t)
}

/// The records among `records` that answer the query, in stored order.
pub open spec fn spec_matching(
    records: Seq<Record>,
    domain: Seq<char>,
    name: Seq<char>,
    t: RecordType,
) -> Seq<Record> {
    records.filter(query_pred(domain, name, t))
}

/// Whether `rec` is the record a create with `params` stores under `id`.
pub open spec fn spec_created(rec: Record, params: &Params, id: Seq<char>) -> bool {
    &&& rec.id@ == id
    &&& rec.name == params.name
    &&& rec.record_type == params.record_type
    &&& rec.content == params.content
    &&& rec.ttl@ == spec_effective_ttl(params)
    &&& rec.prio@ == spec_effective_prio(params)
    &&& spec_has_domain(rec, params.domain@)
}

/// How a create changes the store: the new record is appended, everything
/// else is untouched.
pub open spec fn spec_create_step(
    before: Seq<Record>,
    after: Seq<Record>,
    params: &Params,
    id: Seq<char>,
) -> bool {
    &&& after.len() == before.len() + 1
    &&& after.subrange(0, before.len() as int) == before
    &&& spec_created(after.last(), params, id)
}

/// How an edit changes the store: every stored record carrying the merged
/// record's id becomes the merged record, everything else is untouched.
pub open spec fn spec_edit_step(before: Seq<Record>, after: Seq<Record>, merged: Record) -> bool {
    &&& after.len() == before.len()
    &&& forall|k: int|
        0 <= k < before.len() ==> after[k] == (if before[k].id@ == merged.id@ {
            merged
        } else {
            before[k]
        })
}

/// Whether `r` answers the query, executably.
fn matches_query(r: &Record, domain: &str, name: &str, t: RecordType) -> (b: bool)
    ensures
        b == spec_matches_query(*r, domain@, name@, t),
{
    let dom_ok = match &r.domain {
        Some(d) => str_eq(d.as_str(), domain),
        None => false,
    };
    dom_ok && str_eq(r.name.as_str(), name) && r.record_type == t
}

/// A value-level provider: the records it stores, in order.
#[derive(Debug, PartialEq, Eq)]
pub struct ProviderModel {
    pub records: Vec<Record>,
}

impl ProviderModel {
    /// A provider storing nothing.
    pub fn new() -> (m: ProviderModel)
        ensures
            m.records@ =~= Seq::<Record>::empty(),
    {
        ProviderModel { records: Vec::new() }
    }

    /// The provider's read for one query: the matching records, in stored
    /// order.
    pub fn retrieve(&self, domain: &str, name: &str, t: RecordType) -> (r: Vec<Record>)
        ensures
            r@ == spec_matching(self.records@, domain@, name@, t),
    {
        let mut out: Vec<Record> = Vec::new();
        let mut i: usize = 0;
        while i < self.records.len()
            invariant
                i <= self.records@.len(),
                out@ == spec_matching(self.records@.subrange(0, i as int), domain@, name@, t),
            decreases self.records@.len() - i,
        {
            proof {
                let p = self.records@.subrange(0, i as int);
                let x = self.records@[i as int];
                reveal_with_fuel(Seq::filter, 2);
                assert(self.records@.subrange(0, i as int + 1) =~= p.push(x));
                assert(p.push(x).drop_last() =~= p);
                assert(p.push(x).last() == x);
                assert(spec_matching(p.push(x), domain@, name@, t)
                    == if spec_matches_query(x, domain@, name@, t) {
                    spec_matching(p, domain@, name@, t).push(x)
                } else {
                    spec_matching(p, domain@, name@, t)
                });
            }
            let rec = &self.records[i];
            if matches_query(rec, domain, name, t) {
                out.push(rec.clone());
            }
            i += 1;
        }
        proof {
            assert(self.records@.subrange(0, self.records@.len() as int) =~= self.records@);
        }
        out
    }

    /// Applies a create: stores the desired record under the given id, with
    /// the effective ttl and priority.
    pub fn apply_create(&mut self, params: &Params, id: String)
        ensures
            spec_create_step(old(self).records@, final(self).records@, params, id@),
    {
        let rec = Record {
            content: params.content.clone(),
            id,
            name: params.name.clone(),
            prio: effective_prio(params),
            ttl: effective_ttl(params),
            record_type: params.record_type,
            domain: Some(params.domain.clone()),
        };
        self.records.push(rec);
        proof {
            assert(self.records@.subrange(0, old(self).records@.len() as int) =~= old(
                self,
            ).records@);
        }
    }

    /// Applies an edit: every stored record carrying the merged record's id
    /// becomes the merged record.
    pub fn apply_edit(&mut self, merged: Record)
        ensures
            spec_edit_step(old(self).records@, final(self).records@, merged),
    {
        let mut i: usize = 0;
        while i < self.records.len()
            invariant
                i <= self.records@.len(),
                self.records@.len() == old(self).records@.len(),
                forall|k: int|
                    0 <= k < i ==> self.records@[k] == (if old(self).records@[k].id@
                        == merged.id@ {
                        merged
                    } else {
                        old(self).records@[k]
                    }),
                forall|k: int|
                    i <= k < self.records@.len() ==> self.records@[k] == old(self).records@[k],
            decreases self.records@.len() - i,
        {
            if str_eq(self.records[i].id.as_str(), merged.id.as_str()) {
                let m2 = merged.clone();
                self.records.set(i, m2);
            }
            i += 1;
        }
    }
}

/// One create-or-edit round against the model: the read, the decision, and
/// the chosen write.  `fresh_id` is the id the model assigns if the round
/// creates.  The result and the store afterwards are pinned down for every
/// case: create and "changed" when nothing matched the query, no write and
/// "unchanged" when the first match already agrees with the parameters,
/// edit of the first match and "changed" otherwise.
pub fn create_or_edit_model(m: &mut ProviderModel, params: &Params, fresh_id: String) -> (r: Result<
    (String, bool),
    Error,
>)
    ensures
        ({
            let found = spec_matching(old(m).records@, params.domain@, params.name@, params.record_type);
            &&& found.len() == 0 ==> (r matches Ok(p) && p.0 == fresh_id && p.1 == true
                && spec_create_step(old(m).records@, final(m).records@, params, fresh_id@))
            &&& (found.len() > 0 && !spec_is_modified(&found[0], params)) ==> (r == Ok::<
                (String, bool),
                Error,
            >((found[0].id, false)) && *final(m) == *old(m))
            &&& (found.len() > 0 && spec_is_modified(&found[0], params)) ==> (r matches Ok(p)
                && p.0 == found[0].id && p.1 == true && spec_edit_step(
                old(m).records@,
                final(m).records@,
                spec_merged(found[0], params),
            ))
        }),
{
    let records = m.retrieve(params.domain.as_str(), params.name.as_str(), params.record_type);
    proof {
        if records@.len() > 0 {
            old(m).records@.lemma_filter_pred(
                query_pred(params.domain@, params.name@, params.record_type),
                0,
            );
        }
    }
    match decide(records, params) {
        Ok(Decision::Create) => {
            m.apply_create(params, fresh_id.clone());
            Ok((fresh_id, true))
        },
        Ok(Decision::Edit(merged)) => {
            let id = merged.id.clone();
            m.apply_edit(merged);
            Ok((id, true))
        },
        Ok(Decision::Unchanged(id)) => Ok((id, false)),
        Err(e) => Err(e),
    }
}

/// One unfolding of the query filter at the end of a non-empty store.
proof fn lemma_matching_unfold(s: Seq<Record>, domain: Seq<char>, name: Seq<char>, t: RecordType)
    requires
        s.len() > 0,
    ensures
        spec_matching(s, domain, name, t) == (if spec_matches_query(s.last(), domain, name, t) {
            spec_matching(s.drop_last(), domain, name, t).push(s.last())
        } else {
            spec_matching(s.drop_last(), domain, name, t)
        }),
{
    reveal_with_fuel(Seq::filter, 2);
}

/// When no stored record answers the query, every match after an edit step
/// can only be the merged record itself.
proof fn lemma_matching_all_merged(
    s: Seq<Record>,
    s2: Seq<Record>,
    merged: Record,
    domain: Seq<char>,
    name: Seq<char>,
    t: RecordType,
)
    requires
        s2.len() == s.len(),
        forall|k: int|
            0 <= k < s.len() ==> s2[k] == (if s[k].id@ == merged.id@ {
                merged
            } else {
                s[k]
            }),
        spec_matching(s, domain, name, t).len() == 0,
    ensures
        forall|i: int|
            0 <= i < spec_matching(s2, domain, name, t).len() ==> spec_matching(
                s2,
                domain,
                name,
                t,
            )[i] == merged,
    decreases s.len(),
{
    if s.len() == 0 {
        assert(s2 =~= Seq::<Record>::empty());
        assert(spec_matching(s2, domain, name, t).len() == 0) by {
            reveal_with_fuel(Seq::filter, 1);
        }
    } else {
        let sp = s.drop_last();
        let s2p = s2.drop_last();
        lemma_matching_unfold(s, domain, name, t);
        lemma_matching_unfold(s2, domain, name, t);
        assert(spec_matching(sp, domain, name, t).len() == 0);
        lemma_matching_all_merged(sp, s2p, merged, domain, name, t);
        if spec_matches_query(s2.last(), domain, name, t) {
            assert(s2.last() == merged);
        }
    }
}

/// An edit step replaces the first match of the query by the merged record
/// and keeps it the first match.
proof fn lemma_first_match_after_edit(
    s: Seq<Record>,
    s2: Seq<Record>,
    merged: Record,
    domain: Seq<char>,
    name: Seq<char>,
    t: RecordType,
)
    requires
        s2.len() == s.len(),
        spec_matching(s, domain, name, t).len() > 0,
        merged.id@ == spec_matching(s, domain, name, t)[0].id@,
        spec_matches_query(merged, domain, name, t),
        forall|k: int|
            0 <= k < s.len() ==> s2[k] == (if s[k].id@ == merged.id@ {
                merged
            } else {
                s[k]
            }),
    ensures
        spec_matching(s2, domain, name, t).len() > 0,
        spec_matching(s2, domain, name, t)[0] == merged,
    decreases s.len(),
{
    if s.len() == 0 {
        assert(spec_matching(s, domain, name, t).len() == 0) by {
            reveal_with_fuel(Seq::filter, 1);
        }
    } else {
        let sp = s.drop_last();
        let s2p = s2.drop_last();
        lemma_matching_unfold(s, domain, name, t);
        lemma_matching_unfold(s2, domain, name, t);
        let foundp = spec_matching(sp, domain, name, t);
        if foundp.len() > 0 {
            assert(spec_matching(s, domain, name, t)[0] == foundp[0]);
            lemma_first_match_after_edit(sp, s2p, merged, domain, name, t);
        } else {
            assert(spec_matches_query(s.last(), domain, name, t));
            assert(spec_matching(s, domain, name, t)[0] == s.last());
            assert(s2.last() == merged);
            lemma_matching_all_merged(sp, s2p, merged, domain, name, t);
            let f2p = spec_matching(s2p, domain, name, t);
            assert(spec_matching(s2, domain, name, t) == f2p.push(merged));
            if f2p.len() > 0 {
                assert(f2p[0] == merged);
            }
        }
    }
}

/// Law: create-or-edit is idempotent.  After one round that reported a
/// change — a create when nothing matched the query, an edit of the first
/// match otherwise — a second round with the same parameters fetches a
/// first record that is no longer modified and carries the id the first
/// round returned; by the contract of `create_or_edit_model` it therefore
/// returns that id with `false` and writes nothing.  For the edit half the
/// parameters must give ttl and priority explicitly: an edit with an
/// absent ttl keeps the record's own ttl, which the next round again
/// compares against the "600" default.
pub proof fn lemma_create_or_edit_idempotent(
    before: Seq<Record>,
    after: Seq<Record>,
    params: &Params,
    fresh_id: Seq<char>,
)
    requires
        ({
            let found = spec_matching(before, params.domain@, params.name@, params.record_type);
            if found.len() == 0 {
                spec_create_step(before, after, params, fresh_id)
            } else {
                params.ttl is Some && params.prio is Some && spec_edit_step(
                    before,
                    after,
                    spec_merged(found[0], params),
                )
            }
        }),
    ensures
        ({
            let found = spec_matching(before, params.domain@, params.name@, params.record_type);
            let found2 = spec_matching(after, params.domain@, params.name@, params.record_type);
            &&& found2.len() > 0
            &&& !spec_is_modified(&found2[0], params)
            &&& found2[0].id@ == (if found.len() == 0 {
                fresh_id
            } else {
                found[0].id@
            })
        }),
{
    let found = spec_matching(before, params.domain@, params.name@, params.record_type);
    if found.len() == 0 {
        let rec = after.last();
        assert(after.drop_last() =~= before);
        assert(spec_matches_query(rec, params.domain@, params.name@, params.record_type));
        lemma_matching_unfold(after, params.domain@, params.name@, params.record_type);
        let found2 = spec_matching(after, params.domain@, params.name@, params.record_type);
        assert(found2 == found.push(rec));
        assert(found2[0] == rec);
        assert(!spec_is_modified(&rec, params));
    } else {
        let merged = spec_merged(found[0], params);
        before.lemma_filter_pred(
            query_pred(params.domain@, params.name@, params.record_type),
            0,
        );
        assert(spec_matches_query(
            found[0],
            params.domain@,
            params.name@,
            params.record_type,
        ));
        assert(spec_matches_query(merged, params.domain@, params.name@, params.record_type));
        lemma_first_match_after_edit(
            before,
            after,
            merged,
            params.domain@,
            params.name@,
            params.record_type,
        );
        assert(!spec_is_modified(&merged, params));
    }
}

} // verus!
