//! The reconciliation cache: the last address set the engine attempted to
//! reconcile, per logical record name, and the change detection that
//! drives dispatch.
//!
//! Address lists are compared as sets: the order in which the interface
//! enumeration reports addresses, and repeats, do not count as a change.

use vstd::prelude::*;
use crate::net::IpAddress;
use crate::text::str_eq;

verus! {

/// The list stored under `name`, first entry winning.
pub open spec fn spec_assoc(entries: Seq<(String, Vec<IpAddress>)>, name: Seq<char>) -> Option<
    Seq<IpAddress>,
>
    decreases entries.len(),
{
    if entries.len() == 0 {
        None
    } else if entries[0].0@ == name {
        Some(entries[0].1@)
    } else {
        spec_assoc(entries.drop_first(), name)
    }
}

/// The list stored under `name`, or empty: a name never reconciled counts
/// as having the empty address set.
pub open spec fn spec_lookup_or_empty(
    entries: Seq<(String, Vec<IpAddress>)>,
    name: Seq<char>,
) -> Seq<IpAddress> {
    match spec_assoc(entries, name) {
        Some(v) => v,
        None => Seq::empty(),
    }
}

/// Two address lists carry the same set of addresses, ignoring order and
/// repeats.
pub open spec fn spec_same_addr_set(a: Seq<IpAddress>, b: Seq<IpAddress>) -> bool {
    a.to_set() == b.to_set()
}

proof fn lemma_assoc_at(entries: Seq<(String, Vec<IpAddress>)>, name: Seq<char>, i: int)
    requires
        0 <= i < entries.len(),
        entries[i].0@ == name,
        forall|j: int| 0 <= j < i ==> entries[j].0@ != name,
    ensures
        spec_assoc(entries, name) == Some(entries[i].1@),
    decreases i,
{
    if i > 0 {
        lemma_assoc_at(entries.drop_first(), name, i - 1);
    }
}

proof fn lemma_assoc_absent(entries: Seq<(String, Vec<IpAddress>)>, name: Seq<char>)
    requires
        forall|j: int| 0 <= j < entries.len() ==> entries[j].0@ != name,
    ensures
        spec_assoc(entries, name) is None,
    decreases entries.len(),
{
    if entries.len() > 0 {
        lemma_assoc_absent(entries.drop_first(), name);
    }
}

proof fn lemma_assoc_update(
    s: Seq<(String, Vec<IpAddress>)>,
    i: int,
    pair: (String, Vec<IpAddress>),
    q: Seq<char>,
)
    requires
        0 <= i < s.len(),
        forall|j: int| 0 <= j < i ==> s[j].0@ != pair.0@,
        s[i].0@ == pair.0@,
    ensures
        spec_assoc(s.update(i, pair), q) == (if q == pair.0@ {
            Some(pair.1@)
        } else {
            spec_assoc(s, q)
        }),
    decreases i,
{
    let s2 = s.update(i, pair);
    if i == 0 {
        if q != pair.0@ {
            assert(s2.drop_first() =~= s.drop_first());
        }
    } else {
        assert(s2.drop_first() =~= s.drop_first().update(i - 1, pair));
        lemma_assoc_update(s.drop_first(), i - 1, pair, q);
    }
}

proof fn lemma_assoc_push(
    s: Seq<(String, Vec<IpAddress>)>,
    pair: (String, Vec<IpAddress>),
    q: Seq<char>,
)
    ensures
        spec_assoc(s.push(pair), q) == (if spec_assoc(s, q) is Some {
            spec_assoc(s, q)
        } else if q == pair.0@ {
            Some(pair.1@)
        } else {
            None
        }),
    decreases s.len(),
{
    if s.len() == 0 {
        assert(s.push(pair)[0] == pair);
        assert(s.push(pair).drop_first() =~= Seq::<(String, Vec<IpAddress>)>::empty());
        assert(spec_assoc(s.push(pair).drop_first(), q) is None);
    } else {
        assert(s.push(pair)[0] == s[0]);
        assert(s.push(pair).drop_first() =~= s.drop_first().push(pair));
        lemma_assoc_push(s.drop_first(), pair, q);
    }
}

/// Whether `x` occurs in `v`.
fn contains_addr(v: &Vec<IpAddress>, x: IpAddress) -> (r: bool)
    ensures
        r == v@.contains(x),
{
    let mut i: usize = 0;
    while i < v.len()
        invariant
            i <= v@.len(),
            forall|j: int| 0 <= j < i ==> v@[j] != x,
        decreases v@.len() - i,
    {
        if v[i] == x {
            return true;
        }
        i += 1;
    }
    false
}

/// Whether two address lists carry the same set of addresses.
fn same_addr_set(a: &Vec<IpAddress>, b: &Vec<IpAddress>) -> (r: bool)
    ensures
        r == spec_same_addr_set(a@, b@),
{
    let mut i: usize = 0;
    while i < a.len()
        invariant
            i <= a@.len(),
            forall|j: int| 0 <= j < i ==> b@.contains(#[trigger] a@[j]),
        decreases a@.len() - i,
    {
        if !contains_addr(b, a[i]) {
            proof {
                assert(a@.to_set().contains(a@[i as int]));
                assert(!b@.to_set().contains(a@[i as int]));
            }
            return false;
        }
        i += 1;
    }
    let mut k: usize = 0;
    while k < b.len()
        invariant
            k <= b@.len(),
            forall|j: int| 0 <= j < a@.len() ==> b@.contains(#[trigger] a@[j]),
            forall|j: int| 0 <= j < k ==> a@.contains(#[trigger] b@[j]),
        decreases b@.len() - k,
    {
        if !contains_addr(a, b[k]) {
            proof {
                assert(b@.to_set().contains(b@[k as int]));
                assert(!a@.to_set().contains(b@[k as int]));
            }
            return false;
        }
        k += 1;
    }
    proof {
        assert(a@.to_set() =~= b@.to_set()) by {
            assert forall|x: IpAddress| a@.to_set().contains(x) implies b@.to_set().contains(
                x,
            ) by {
                let j = choose|j: int| 0 <= j < a@.len() && a@[j] == x;
                assert(b@.contains(a@[j]));
            }
            assert forall|x: IpAddress| b@.to_set().contains(x) implies a@.to_set().contains(
                x,
            ) by {
                let j = choose|j: int| 0 <= j < b@.len() && b@[j] == x;
                assert(a@.contains(b@[j]));
            }
        }
    }
    true
}

/// The engine's memory of the last address set it attempted to reconcile,
/// per record name.
#[derive(Debug, PartialEq, Eq)]
pub struct Cache {
    pub entries: Vec<(String, Vec<IpAddress>)>,
}

impl Cache {
    /// An empty cache, as a fresh process starts with.
    pub fn new() -> (c: Cache)
        ensures
            c.entries@ =~= Seq::<(String, Vec<IpAddress>)>::empty(),
    {
        Cache { entries: Vec::new() }
    }

    /// The index of the first entry for `name`, if any.
    fn find(&self, name: &str) -> (r: Option<usize>)
        ensures
            match r {
                Some(i) => i < self.entries@.len() && self.entries@[i as int].0@ == name@
                    && forall|j: int| 0 <= j < i ==> self.entries@[j].0@ != name@,
                None => forall|j: int|
                    0 <= j < self.entries@.len() ==> self.entries@[j].0@ != name@,
            },
    {
        let mut i: usize = 0;
        while i < self.entries.len()
            invariant
                i <= self.entries@.len(),
                forall|j: int| 0 <= j < i ==> self.entries@[j].0@ != name@,
            decreases self.entries@.len() - i,
        {
            if str_eq(self.entries[i].0.as_str(), name) {
                return Some(i);
            }
            i += 1;
        }
        None
    }

    /// The address list last reconciled for `name`, if any.
    pub fn get(&self, name: &str) -> (r: Option<&Vec<IpAddress>>)
        ensures
            match r {
                Some(v) => spec_assoc(self.entries@, name@) == Some(v@),
                None => spec_assoc(self.entries@, name@) is None,
            },
    {
        match self.find(name) {
            Some(i) => {
                proof {
                    lemma_assoc_at(self.entries@, name@, i as int);
                }
                Some(&self.entries[i].1)
            },
            None => {
                proof {
                    lemma_assoc_absent(self.entries@, name@);
                }
                None
            },
        }
    }

    /// Change detection: dispatch exactly when the desired address set
    /// differs from the set last reconciled for `name`.
    pub fn should_dispatch(&self, name: &str, addrs: &Vec<IpAddress>) -> (r: bool)
        ensures
            r == !spec_same_addr_set(spec_lookup_or_empty(self.entries@, name@), addrs@),
    {
        match self.get(name) {
            Some(cached) => !same_addr_set(cached, addrs),
            None => {
                let empty: Vec<IpAddress> = Vec::new();
                !same_addr_set(&empty, addrs)
            },
        }
    }

    /// Latches `addrs` as the last reconciled set for `name`, leaving every
    /// other name's entry as it was.
    pub fn set(&mut self, name: &str, addrs: Vec<IpAddress>)
        ensures
            spec_assoc(final(self).entries@, name@) == Some(addrs@),
            forall|n: Seq<char>|
                n != name@ ==> #[trigger] spec_assoc(final(self).entries@, n) == spec_assoc(
                    old(self).entries@,
                    n,
                ),
    {
        let pair = (name.to_owned(), addrs);
        match self.find(name) {
            Some(i) => {
                proof {
                    let ghost s = self.entries@;
                    let ghost p = pair;
                    assert forall|n: Seq<char>| true implies #[trigger] spec_assoc(
                        s.update(i as int, p),
                        n,
                    ) == (if n == name@ {
                        Some(p.1@)
                    } else {
                        spec_assoc(s, n)
                    }) by {
                        lemma_assoc_update(s, i as int, p, n);
                    }
                }
                self.entries.set(i, pair);
            },
            None => {
                proof {
                    let ghost s = self.entries@;
                    let ghost p = pair;
                    lemma_assoc_absent(s, name@);
                    assert forall|n: Seq<char>| true implies #[trigger] spec_assoc(
                        s.push(p),
                        n,
                    ) == (if spec_assoc(s, n) is Some {
                        spec_assoc(s, n)
                    } else if n == p.0@ {
                        Some(p.1@)
                    } else {
                        None
                    }) by {
                        lemma_assoc_push(s, p, n);
                    }
                }
                self.entries.push(pair);
            },
        }
    }
}

} // verus!
