//! Configuration values the engine consumes: the interface-to-subdomain
//! mappings, and the assembly of the desired state from what the interface
//! enumeration observed.

use vstd::prelude::*;
use vstd::string::*;
use crate::net::{public_ips, public_pred, IpAddress};

verus! {

/// One interface-to-subdomain mapping, written `iface=sub`, or `iface`
/// alone to feed the apex (empty) record name.
#[derive(Debug, PartialEq, Eq)]
pub struct InterfaceSubdomain {
    pub interface: String,
    pub subdomain: Option<String>,
}

/// The position of the first '=' in `s`, or -1 when there is none.
pub open spec fn spec_eq_pos(s: Seq<char>) -> int
    decreases s.len(),
{
    if s.len() == 0 {
        -1
    } else if s[0] == '=' {
        0
    } else {
        let r = spec_eq_pos(s.drop_first());
        if r == -1 {
            -1
        } else {
            r + 1
        }
    }
}

proof fn lemma_eq_pos_found(s: Seq<char>, i: int)
    requires
        0 <= i < s.len(),
        s[i] == '=',
        forall|j: int| 0 <= j < i ==> s[j] != '=',
    ensures
        spec_eq_pos(s) == i,
    decreases i,
{
    if i > 0 {
        lemma_eq_pos_found(s.drop_first(), i - 1);
    }
}

proof fn lemma_eq_pos_absent(s: Seq<char>)
    requires
        forall|j: int| 0 <= j < s.len() ==> s[j] != '=',
    ensures
        spec_eq_pos(s) == -1,
    decreases s.len(),
{
    if s.len() > 0 {
        lemma_eq_pos_absent(s.drop_first());
    }
}

impl InterfaceSubdomain {
    /// Parses one mapping argument: everything before the first '=' is the
    /// interface, everything after it the subdomain; with no '=' the whole
    /// argument is the interface and there is no subdomain.
    pub fn parse(s: &str) -> (r: InterfaceSubdomain)
        ensures
            spec_eq_pos(s@) == -1 ==> (r.interface@ == s@ && r.subdomain is None),
            spec_eq_pos(s@) >= 0 ==> (r.interface@ == s@.subrange(0, spec_eq_pos(s@)) && (
            r.subdomain matches Some(sub) && sub@ == s@.subrange(
                spec_eq_pos(s@) + 1,
                s@.len() as int,
            ))),
    {
        let n = s.unicode_len();
        let mut i: usize = 0;
        while i < n
            invariant
                n == s@.len(),
                i <= n,
                forall|j: int| 0 <= j < i ==> s@[j] != '=',
            decreases n - i,
        {
            if s.get_char(i) == '=' {
                proof {
                    lemma_eq_pos_found(s@, i as int);
                }
                let interface = String::from_str(s.substring_char(0, i));
                let sub = String::from_str(s.substring_char(i + 1, n));
                return InterfaceSubdomain { interface, subdomain: Some(sub) };
            }
            i += 1;
        }
        proof {
            lemma_eq_pos_absent(s@);
        }
        InterfaceSubdomain { interface: s.to_owned(), subdomain: None }
    }

    /// The record name this mapping feeds: its subdomain, or the empty
    /// (apex) name.
    pub fn record_name(&self) -> (r: String)
        ensures
            r@ == match self.subdomain {
                Some(s) => s@,
                None => Seq::<char>::empty(),
            },
    {
        match &self.subdomain {
            Some(s) => s.clone(),
            None => String::new(),
        }
    }
}

/// Assembles the desired state for one tick: each mapping contributes its
/// record name, with the published addresses among the candidates its
/// interface reported, in order.
pub fn desired_state(observed: &Vec<(InterfaceSubdomain, Vec<IpAddress>)>) -> (r: Vec<
    (String, Vec<IpAddress>),
>)
    ensures
        r@.len() == observed@.len(),
        forall|i: int|
            0 <= i < observed@.len() ==> ({
                &&& (#[trigger] r@[i]).0@ == match observed@[i].0.subdomain {
                    Some(s) => s@,
                    None => Seq::<char>::empty(),
                }
                &&& r@[i].1@ == observed@[i].1@.filter(public_pred())
            }),
{
    let mut out: Vec<(String, Vec<IpAddress>)> = Vec::new();
    let mut i: usize = 0;
    while i < observed.len()
        invariant
            i <= observed@.len(),
            out@.len() == i,
            forall|k: int|
                0 <= k < i ==> ({
                    &&& (#[trigger] out@[k]).0@ == match observed@[k].0.subdomain {
                        Some(s) => s@,
                        None => Seq::<char>::empty(),
                    }
                    &&& out@[k].1@ == observed@[k].1@.filter(public_pred())
                }),
        decreases observed@.len() - i,
    {
        let name = observed[i].0.record_name();
        let ips = public_ips(&observed[i].1);
        out.push((name, ips));
        i += 1;
    }
    out
}

} // verus!
