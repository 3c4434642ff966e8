//! Address-family normalization for resolved service addresses.
//!
//! A discovery consumer gets the addresses of a resolved service as an ordered
//! list of text entries.  The engine hands them out in no particular order, so
//! before they are reported every IPv4 entry is moved in front of every IPv6
//! entry, keeping the relative order within each family: the primary consumer
//! cannot use a link-local IPv6 address as a plain host string.

use vstd::prelude::*;
use vstd::seq_lib::*;

verus! {

/// One resolved network address, reduced to what the discovery logic reads:
/// its family and its textual form.
#[derive(Debug)]
pub struct AddrEntry {
    /// True when the address is IPv4, false when it is IPv6.
    pub v4: bool,
    /// The textual form of the address, e.g. "192.168.1.42" or "fe80::1".
    pub text: String,
}

impl AddrEntry {
    /// Builds an entry from its family flag and its textual form.
    pub fn new(v4: bool, text: String) -> (r: AddrEntry)
        ensures
            r.v4 == v4,
            r.text@ == text@,
    {
        AddrEntry { v4, text }
    }
}

/// The canonical family-first ordering of an address list: the IPv4 entries in
/// their original order, then the IPv6 entries in their original order.
pub open spec fn v4_first(s: Seq<AddrEntry>) -> Seq<AddrEntry> {
    s.filter(|a: AddrEntry| a.v4) + s.filter(|a: AddrEntry| !a.v4)
}

/// An address list is family-ordered when no IPv6 entry stands before an IPv4
/// entry.
pub open spec fn family_ordered(s: Seq<AddrEntry>) -> bool {
    forall|i: int, j: int| 0 <= i < j < s.len() && s[j].v4 ==> s[i].v4
}

/// Reorders `addrs` so that every IPv4 address precedes every IPv6 address,
/// preserving the relative order within each family.
pub fn sort_v4_first(addrs: Vec<AddrEntry>) -> (r: Vec<AddrEntry>)
    ensures
        r@ == v4_first(addrs@),
        family_ordered(r@),
{
    let ghost orig = addrs@;
    let mut rest = addrs;
    let mut v4s: Vec<AddrEntry> = Vec::new();
    let mut v6s: Vec<AddrEntry> = Vec::new();
    let ghost mut done = Seq::<AddrEntry>::empty();
    proof {
        assert(done + rest@ =~= orig);
        assert(done.filter(|a: AddrEntry| a.v4) =~= Seq::<AddrEntry>::empty());
        assert(done.filter(|a: AddrEntry| !a.v4) =~= Seq::<AddrEntry>::empty());
    }
    while rest.len() > 0
        invariant
            done + rest@ == orig,
            v4s@ == done.filter(|a: AddrEntry| a.v4),
            v6s@ == done.filter(|a: AddrEntry| !a.v4),
            forall|k: int| 0 <= k < v4s@.len() ==> #[trigger] v4s@[k].v4,
            forall|k: int| 0 <= k < v6s@.len() ==> !(#[trigger] v6s@[k].v4),
        decreases rest@.len(),
    {
        let a = rest.remove(0);
        proof {
            let ghost one = seq![a];
            assert(one.filter(|x: AddrEntry| x.v4) =~= if a.v4 { one } else {
                Seq::<AddrEntry>::empty()
            }) by {
                reveal_with_fuel(Seq::filter, 2);
            }
            assert(one.filter(|x: AddrEntry| !x.v4) =~= if !a.v4 { one } else {
                Seq::<AddrEntry>::empty()
            }) by {
                reveal_with_fuel(Seq::filter, 2);
            }
            Seq::filter_distributes_over_add(done, one, |x: AddrEntry| x.v4);
            Seq::filter_distributes_over_add(done, one, |x: AddrEntry| !x.v4);
            assert((done + one) + rest@ =~= orig);
            done = done + one;
        }
        if a.v4 {
            v4s.push(a);
        } else {
            v6s.push(a);
        }
    }
    proof {
        assert(done =~= orig);
    }
    let mut r = v4s;
    let ghost head = r@;
    let ghost tail = v6s@;
    r.append(&mut v6s);
    proof {
        assert forall|i: int, j: int| 0 <= i < j < r@.len() && r@[j].v4 implies r@[i].v4 by {
            if j >= head.len() {
                assert(r@[j] == tail[j - head.len()]);
            }
            if i >= head.len() {
                assert(r@[i] == tail[i - head.len()]);
            } else {
                assert(r@[i] == head[i]);
            }
        }
    }
    r
}

} // verus!
