//! The per-tick reconciliation plan: diff the desired state against the
//! cache, latch changed names, and emit one update per changed address.
//!
//! The cache entry for a name is latched when the dispatch decision is
//! taken, before any update runs — a concurrent reader sees the latest
//! intended state, not the provider-confirmed one.

use vstd::prelude::*;
use crate::cache::{spec_assoc, spec_lookup_or_empty, spec_same_addr_set, Cache};
use crate::net::{ip_text, spec_ip_text, IpAddress};
use crate::record::{Params, RecordType};

verus! {

/// The record type an address family selects: A for IPv4, AAAA for IPv6.
pub open spec fn spec_desired_type(ip: IpAddress) -> RecordType {
    match ip {
        IpAddress::V4(_, _, _, _) => RecordType::A,
        IpAddress::V6(_, _, _, _, _, _, _, _) => RecordType::AAAA,
    }
}

/// Whether `p` is exactly the update the engine issues for one
/// (domain, name, address) triple.
pub open spec fn spec_params_for(
    p: Params,
    domain: Seq<char>,
    name: Seq<char>,
    ip: IpAddress,
) -> bool {
    &&& p.domain@ == domain
    &&& p.name@ == name
    &&& p.record_type == spec_desired_type(ip)
    &&& p.content@ == spec_ip_text(ip)
    &&& p.ttl matches Some(t) && t@ == "600"@
    &&& p.prio is None
}

/// Builds the update for one (name, address) pair: A or AAAA by family,
/// the canonical address text as content, ttl "600", no priority.
pub fn params_for(domain: &str, name: &str, ip: &IpAddress) -> (p: Params)
    ensures
        spec_params_for(p, domain@, name@, *ip),
{
    Params {
        domain: domain.to_owned(),
        record_type: match ip {
            IpAddress::V4(_, _, _, _) => RecordType::A,
            IpAddress::V6(_, _, _, _, _, _, _, _) => RecordType::AAAA,
        },
        name: name.to_owned(),
        content: ip_text(ip),
        ttl: Some("600".to_owned()),
        prio: None,
    }
}

/// An element-for-element copy of an address list.
fn copy_addrs(v: &Vec<IpAddress>) -> (r: Vec<IpAddress>)
    ensures
        r@ == v@,
{
    let mut out: Vec<IpAddress> = Vec::new();
    let mut i: usize = 0;
    while i < v.len()
        invariant
            i <= v@.len(),
            out@ == v@.subrange(0, i as int),
        decreases v@.len() - i,
    {
        out.push(v[i]);
        proof {
            assert(out@ =~= v@.subrange(0, i as int + 1));
        }
        i += 1;
    }
    proof {
        assert(v@.subrange(0, v@.len() as int) =~= v@);
    }
    out
}

/// Plans one name: when the desired address set differs from the cached
/// one, the cache entry is latched to the desired list and one update per
/// address is emitted; otherwise nothing changes and nothing is emitted.
pub fn plan_for_name(cache: &mut Cache, domain: &str, name: &str, addrs: &Vec<IpAddress>) -> (r:
    Vec<Params>)
    ensures
        ({
            let dispatch = !spec_same_addr_set(
                spec_lookup_or_empty(old(cache).entries@, name@),
                addrs@,
            );
            &&& !dispatch ==> (r@.len() == 0 && *final(cache) == *old(cache))
            &&& dispatch ==> (r@.len() == addrs@.len() && (forall|i: int|
                0 <= i < addrs@.len() ==> spec_params_for(
                    #[trigger] r@[i],
                    domain@,
                    name@,
                    addrs@[i],
                )) && spec_assoc(final(cache).entries@, name@) == Some(addrs@) && (forall|
                n: Seq<char>,
            |
                n != name@ ==> #[trigger] spec_assoc(final(cache).entries@, n) == spec_assoc(
                    old(cache).entries@,
                    n,
                )))
        }),
{
    if cache.should_dispatch(name, addrs) {
        cache.set(name, copy_addrs(addrs));
        let mut out: Vec<Params> = Vec::new();
        let mut i: usize = 0;
        while i < addrs.len()
            invariant
                i <= addrs@.len(),
                out@.len() == i,
                forall|k: int|
                    0 <= k < i ==> spec_params_for(#[trigger] out@[k], domain@, name@, addrs@[k]),
            decreases addrs@.len() - i,
        {
            out.push(params_for(domain, name, &addrs[i]));
            i += 1;
        }
        out
    } else {
        Vec::new()
    }
}

/// One reconciliation pass over the desired state: every name whose
/// desired address set differs from the cache is latched and contributes
/// one update per address, in the desired state's order; every other name
/// contributes nothing and keeps its cache entry.  The desired state is a
/// mapping, so its names are distinct.
pub fn reconcile_plan(
    cache: &mut Cache,
    domain: &str,
    desired: &Vec<(String, Vec<IpAddress>)>,
) -> (r: Vec<(String, Vec<Params>)>)
    requires
        forall|i: int, j: int|
            0 <= i < j < desired@.len() ==> #[trigger] desired@[i].0@ != #[trigger] desired@[j].0@,
    ensures
        r@.len() == desired@.len(),
        forall|i: int|
            0 <= i < desired@.len() ==> ({
                let dispatch = !spec_same_addr_set(
                    spec_lookup_or_empty(old(cache).entries@, desired@[i].0@),
                    desired@[i].1@,
                );
                &&& (#[trigger] r@[i]).0 == desired@[i].0
                &&& !dispatch ==> r@[i].1@.len() == 0
                &&& dispatch ==> (r@[i].1@.len() == desired@[i].1@.len() && (forall|k: int|
                    0 <= k < desired@[i].1@.len() ==> spec_params_for(
                        #[trigger] r@[i].1@[k],
                        domain@,
                        desired@[i].0@,
                        desired@[i].1@[k],
                    )))
                &&& spec_assoc(final(cache).entries@, desired@[i].0@) == (if dispatch {
                    Some(desired@[i].1@)
                } else {
                    spec_assoc(old(cache).entries@, desired@[i].0@)
                })
            }),
        forall|n: Seq<char>|
            (forall|i: int| 0 <= i < desired@.len() ==> desired@[i].0@ != n)
                ==> #[trigger] spec_assoc(final(cache).entries@, n) == spec_assoc(
                old(cache).entries@,
                n,
            ),
{
    let mut out: Vec<(String, Vec<Params>)> = Vec::new();
    let mut idx: usize = 0;
    while idx < desired.len()
        invariant
            idx <= desired@.len(),
            out@.len() == idx,
            forall|i: int, j: int|
                0 <= i < j < desired@.len() ==> #[trigger] desired@[i].0@ != #[trigger] desired@[j].0@,
            forall|i: int|
                0 <= i < idx ==> ({
                    let dispatch = !spec_same_addr_set(
                        spec_lookup_or_empty(old(cache).entries@, desired@[i].0@),
                        desired@[i].1@,
                    );
                    &&& (#[trigger] out@[i]).0 == desired@[i].0
                    &&& !dispatch ==> out@[i].1@.len() == 0
                    &&& dispatch ==> (out@[i].1@.len() == desired@[i].1@.len() && (forall|k: int|
                        0 <= k < desired@[i].1@.len() ==> spec_params_for(
                            #[trigger] out@[i].1@[k],
                            domain@,
                            desired@[i].0@,
                            desired@[i].1@[k],
                        )))
                    &&& spec_assoc(cache.entries@, desired@[i].0@) == (if dispatch {
                        Some(desired@[i].1@)
                    } else {
                        spec_assoc(old(cache).entries@, desired@[i].0@)
                    })
                }),
            forall|n: Seq<char>|
                (forall|i: int| 0 <= i < idx ==> desired@[i].0@ != n)
                    ==> #[trigger] spec_assoc(cache.entries@, n) == spec_assoc(
                    old(cache).entries@,
                    n,
                ),
        decreases desired@.len() - idx,
    {
        let name = &desired[idx].0;
        let addrs = &desired[idx].1;
        proof {
            assert(forall|i: int| 0 <= i < idx ==> desired@[i].0@ != name@);
            assert(spec_assoc(cache.entries@, name@) == spec_assoc(old(cache).entries@, name@));
        }
        let group = plan_for_name(cache, domain, name.as_str(), addrs);
        out.push((name.clone(), group));
        idx += 1;
    }
    out
}

} // verus!
