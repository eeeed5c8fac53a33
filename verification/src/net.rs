//! The engine's model of an interface address, its public/private
//! classification, and its canonical text form.
//!
//! An IPv4 address is four octets, rendered in dotted decimal; an IPv6
//! address is eight 16-bit groups, rendered in the compressed lowercase
//! form: minimal hex digits per group, and the leftmost longest run of
//! two or more zero groups written `::`.

use vstd::prelude::*;
use vstd::string::*;
use crate::text::{spec_decimal, u64_to_string};

verus! {

/// An address of a local interface, as the engine sees it.
#[derive(Debug, PartialEq, Eq, Structural, Clone, Copy, Hash)]
pub enum IpAddress {
    V4(u8, u8, u8, u8),
    V6(u16, u16, u16, u16, u16, u16, u16, u16),
}

/// Whether the engine publishes this address: for IPv4, not private
/// (10/8, 172.16/12, 192.168/16), not link-local (169.254/16) and not
/// loopback (127/8); for IPv6, only the global-unicast block 2000::/3.
pub open spec fn spec_is_public(ip: IpAddress) -> bool {
    match ip {
        IpAddress::V4(a, b, _, _) => !(a == 10 || (a == 172 && 16 <= b && b < 32) || (a == 192
            && b == 168)) && !(a == 169 && b == 254) && !(a == 127),
        IpAddress::V6(s0, _, _, _, _, _, _, _) => s0 & 0xe000 == 0x2000,
    }
}

/// The publication test as a predicate on addresses.
pub open spec fn public_pred() -> spec_fn(IpAddress) -> bool {
    |ip: IpAddress| spec_is_public(ip)
}

/// Whether the engine publishes this address.
pub fn is_public(ip: &IpAddress) -> (r: bool)
    ensures
        r == spec_is_public(*ip),
{
    match ip {
        IpAddress::V4(a, b, _, _) => {
            let private = *a == 10 || (*a == 172 && 16 <= *b && *b < 32) || (*a == 192 && *b
                == 168);
            let link_local = *a == 169 && *b == 254;
            let loopback = *a == 127;
            !private && !link_local && !loopback
        },
        IpAddress::V6(s0, _, _, _, _, _, _, _) => *s0 & 0xe000 == 0x2000,
    }
}

/// The published addresses among `addrs`, in their given order.
pub fn public_ips(addrs: &Vec<IpAddress>) -> (r: Vec<IpAddress>)
    ensures
        r@ == addrs@.filter(public_pred()),
{
    let mut out: Vec<IpAddress> = Vec::new();
    let mut i: usize = 0;
    while i < addrs.len()
        invariant
            i <= addrs@.len(),
            out@ == addrs@.subrange(0, i as int).filter(public_pred()),
        decreases addrs@.len() - i,
    {
        proof {
            reveal_with_fuel(Seq::filter, 2);
            let p = addrs@.subrange(0, i as int);
            let x = addrs@[i as int];
            assert(addrs@.subrange(0, i as int + 1) =~= p.push(x));
            assert(p.push(x).drop_last() =~= p);
            assert(p.push(x).last() == x);
        }
        let ip = addrs[i];
        if is_public(&ip) {
            out.push(ip);
        }
        i += 1;
    }
    proof {
        assert(addrs@.subrange(0, addrs@.len() as int) =~= addrs@);
    }
    out
}

/// The hex digit character for `d`, lowercase.
pub open spec fn spec_hex_digit(d: int) -> char {
    if d < 10 {
        crate::text::spec_digit(d)
    } else if d == 10 {
        'a'
    } else if d == 11 {
        'b'
    } else if d == 12 {
        'c'
    } else if d == 13 {
        'd'
    } else if d == 14 {
        'e'
    } else {
        'f'
    }
}

/// One IPv6 group in lowercase hex, without leading zeros.
pub open spec fn spec_hex_min(n: int) -> Seq<char>
    decreases n,
{
    if n < 16 {
        seq![spec_hex_digit(n)]
    } else {
        spec_hex_min(n / 16).push(spec_hex_digit(n % 16))
    }
}

/// The length of the run of zero groups starting at `i`.
pub open spec fn spec_run_len(g: Seq<u16>, i: int) -> int
    decreases g.len() - i when 0 <= i <= g.len()
{
    if 0 <= i < g.len() && g[i] == 0 {
        1 + spec_run_len(g, i + 1)
    } else {
        0
    }
}

/// The start of the leftmost longest run of zero groups at or after `i`
/// (`g.len()` when every run from `i` on is empty).
pub open spec fn spec_best_start(g: Seq<u16>, i: int) -> int
    decreases g.len() - i when 0 <= i <= g.len()
{
    if i >= g.len() {
        g.len() as int
    } else {
        let rest = spec_best_start(g, i + 1);
        if spec_run_len(g, i) >= spec_run_len(g, rest) {
            i
        } else {
            rest
        }
    }
}

/// The groups `g`, each in minimal hex, joined by single colons.
pub open spec fn spec_join_groups(g: Seq<u16>) -> Seq<char>
    decreases g.len(),
{
    if g.len() == 0 {
        Seq::empty()
    } else if g.len() == 1 {
        spec_hex_min(g[0] as int)
    } else {
        spec_hex_min(g[0] as int) + seq![':'] + spec_join_groups(g.drop_first())
    }
}

/// The compressed text of the eight groups: the leftmost longest run of
/// at least two zero groups becomes `::`, the rest are minimal lowercase
/// hex joined by colons; with no such run, all eight groups are written.
pub open spec fn spec_v6_text(g: Seq<u16>) -> Seq<char> {
    let b = spec_best_start(g, 0);
    let l = spec_run_len(g, b);
    if l >= 2 {
        spec_join_groups(g.subrange(0, b)) + seq![':', ':'] + spec_join_groups(
            g.subrange(b + l, g.len() as int),
        )
    } else {
        spec_join_groups(g)
    }
}

/// The canonical text of an address: dotted decimal for IPv4; for IPv6
/// the compressed lowercase form — minimal hex digits per group, the
/// leftmost longest run of two or more zero groups written `::`.
pub open spec fn spec_ip_text(ip: IpAddress) -> Seq<char> {
    match ip {
        IpAddress::V4(a, b, c, d) => spec_decimal(a as int) + "."@ + spec_decimal(b as int) + "."@
            + spec_decimal(c as int) + "."@ + spec_decimal(d as int),
        IpAddress::V6(s0, s1, s2, s3, s4, s5, s6, s7) => spec_v6_text(
            seq![s0, s1, s2, s3, s4, s5, s6, s7],
        ),
    }
}

fn hex_digit_str(d: u16) -> (r: &'static str)
    requires
        d < 16,
    ensures
        r@ =~= seq![spec_hex_digit(d as int)],
{
    proof {
        reveal_strlit("0");
        reveal_strlit("1");
        reveal_strlit("2");
        reveal_strlit("3");
        reveal_strlit("4");
        reveal_strlit("5");
        reveal_strlit("6");
        reveal_strlit("7");
        reveal_strlit("8");
        reveal_strlit("9");
        reveal_strlit("a");
        reveal_strlit("b");
        reveal_strlit("c");
        reveal_strlit("d");
        reveal_strlit("e");
        reveal_strlit("f");
    }
    if d == 0 {
        "0"
    } else if d == 1 {
        "1"
    } else if d == 2 {
        "2"
    } else if d == 3 {
        "3"
    } else if d == 4 {
        "4"
    } else if d == 5 {
        "5"
    } else if d == 6 {
        "6"
    } else if d == 7 {
        "7"
    } else if d == 8 {
        "8"
    } else if d == 9 {
        "9"
    } else if d == 10 {
        "a"
    } else if d == 11 {
        "b"
    } else if d == 12 {
        "c"
    } else if d == 13 {
        "d"
    } else if d == 14 {
        "e"
    } else {
        "f"
    }
}

/// Renders one group in minimal lowercase hex.
fn hex_min(n: u16) -> (r: String)
    ensures
        r@ == spec_hex_min(n as int),
    decreases n,
{
    if n < 16 {
        String::from_str(hex_digit_str(n))
    } else {
        let high = hex_min(n / 16);
        let r = high.concat(hex_digit_str(n % 16));
        proof {
            assert(r@ =~= spec_hex_min(n as int));
        }
        r
    }
}

/// Renders the groups `g[from..to]` joined by single colons.
fn join_groups(g: &Vec<u16>, from: usize, to: usize) -> (r: String)
    requires
        from <= to <= g@.len(),
    ensures
        r@ == spec_join_groups(g@.subrange(from as int, to as int)),
    decreases to - from,
{
    proof {
        let sub = g@.subrange(from as int, to as int);
        if sub.len() > 1 {
            assert(sub.drop_first() =~= g@.subrange(from as int + 1, to as int));
        }
    }
    if from == to {
        String::new()
    } else if from + 1 == to {
        hex_min(g[from])
    } else {
        let mut s = hex_min(g[from]);
        s.append(":");
        s.append(join_groups(g, from + 1, to).as_str());
        proof {
            reveal_strlit(":");
            assert(":"@ =~= seq![':']);
            let sub = g@.subrange(from as int, to as int);
            assert(sub[0] == g@[from as int]);
            assert(s@ =~= spec_hex_min(sub[0] as int) + seq![':'] + spec_join_groups(
                sub.drop_first(),
            ));
        }
        s
    }
}

/// Renders the eight groups in the compressed form `spec_v6_text` fixes.
fn v6_groups_text(g: &Vec<u16>) -> (r: String)
    requires
        g@.len() == 8,
    ensures
        r@ == spec_v6_text(g@),
{
    // run lengths of zero groups, rl[i] for i in 0..=8
    let mut rl: Vec<usize> = Vec::new();
    let mut k: usize = 0;
    while k < 9
        invariant
            rl@.len() == k,
            k <= 9,
            forall|j: int| 0 <= j < k ==> rl@[j] == 0,
        decreases 9 - k,
    {
        rl.push(0);
        k += 1;
    }
    proof {
        assert(spec_run_len(g@, 8) == 0);
    }
    let mut i: usize = 8;
    while i > 0
        invariant
            g@.len() == 8,
            rl@.len() == 9,
            i <= 8,
            forall|j: int| i <= j <= 8 ==> rl@[j] == spec_run_len(g@, j),
            forall|j: int| i <= j <= 8 ==> rl@[j] <= 8 - j,
        decreases i,
    {
        i -= 1;
        let v: usize = if g[i] == 0 {
            1 + rl[i + 1]
        } else {
            0
        };
        rl.set(i, v);
    }
    let mut best: usize = 8;
    let mut i2: usize = 8;
    while i2 > 0
        invariant
            g@.len() == 8,
            rl@.len() == 9,
            i2 <= 8,
            best <= 8,
            forall|j: int| 0 <= j <= 8 ==> rl@[j] == spec_run_len(g@, j),
            forall|j: int| 0 <= j <= 8 ==> rl@[j] <= 8 - j,
            best == spec_best_start(g@, i2 as int),
        decreases i2,
    {
        i2 -= 1;
        if rl[i2] >= rl[best] {
            best = i2;
        }
    }
    let run = rl[best];
    if run >= 2 {
        let mut s = join_groups(g, 0, best);
        s.append("::");
        s.append(join_groups(g, best + run, 8).as_str());
        proof {
            reveal_strlit("::");
            assert("::"@ =~= seq![':', ':']);
            assert(s@ =~= spec_v6_text(g@));
        }
        s
    } else {
        let s = join_groups(g, 0, 8);
        proof {
            assert(g@.subrange(0, 8) =~= g@);
        }
        s
    }
}

/// Renders an address in its canonical text form.
pub fn ip_text(ip: &IpAddress) -> (r: String)
    ensures
        r@ == spec_ip_text(*ip),
{
    match ip {
        IpAddress::V4(a, b, c, d) => {
            let mut s = u64_to_string(*a as u64);
            s.append(".");
            s.append(u64_to_string(*b as u64).as_str());
            s.append(".");
            s.append(u64_to_string(*c as u64).as_str());
            s.append(".");
            s.append(u64_to_string(*d as u64).as_str());
            proof {
                assert(s@ =~= spec_ip_text(*ip));
            }
            s
        },
        IpAddress::V6(s0, s1, s2, s3, s4, s5, s6, s7) => {
            let g: Vec<u16> = vec![*s0, *s1, *s2, *s3, *s4, *s5, *s6, *s7];
            proof {
                assert(g@ =~= seq![*s0, *s1, *s2, *s3, *s4, *s5, *s6, *s7]);
            }
            v6_groups_text(&g)
        },
    }
}

} // verus!
