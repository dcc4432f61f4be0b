//! Static resolution of the DoH servers' own hostnames.
//!
//! The HTTPS connection to a resolver cannot depend on system DNS, so each
//! configured server carries a fixed candidate address list, and this
//! resolver cycles through that list in round-robin order, one address per
//! resolution.
use vstd::prelude::*;
use crate::DnsHttpsServer;
use crate::text::str_eq;

verus! {

/// The model of one resolver entry: a hostname, its candidate addresses in
/// their fixed order, and the round-robin cursor.
pub struct EntryModel {
    pub host: Seq<char>,
    pub addrs: Seq<Seq<char>>,
    pub cursor: nat,
}

struct ResolverEntry {
    host: String,
    addrs: Vec<String>,
    cursor: usize,
}

impl View for ResolverEntry {
    type V = EntryModel;

    closed spec fn view(&self) -> EntryModel {
        EntryModel { host: self.host@, addrs: self.addrs.deep_view(), cursor: self.cursor as nat }
    }
}

/// Resolves the configured servers' hostnames to their static candidate
/// addresses, advancing a per-hostname round-robin cursor on every
/// resolution.
pub struct StaticResolver {
    entries: Vec<ResolverEntry>,
}

impl View for StaticResolver {
    type V = Seq<EntryModel>;

    closed spec fn view(&self) -> Seq<EntryModel> {
        self.entries@.map_values(|e: ResolverEntry| e@)
    }
}

/// The entries a server list registers: one per distinct hostname, in
/// order of first appearance, each with the addresses of the last server
/// naming that hostname and a cursor at the start of the list.
pub open spec fn entries_of(servers: Seq<DnsHttpsServer>) -> Seq<EntryModel>
    decreases servers.len(),
{
    if servers.len() == 0 {
        Seq::empty()
    } else {
        let rest = entries_of(servers.drop_last());
        let s = servers.last();
        let entry = EntryModel { host: s.domain_view(), addrs: s.addrs_view(), cursor: 0 };
        if exists|j: int| 0 <= j < rest.len() && (#[trigger] rest[j].host) == s.domain_view() {
            let j = choose|j: int|
                0 <= j < rest.len() && (#[trigger] rest[j].host) == s.domain_view();
            rest.update(j, entry)
        } else {
            rest.push(entry)
        }
    }
}

/// The index of the first entry with the given hostname, if any.
fn find_host(entries: &Vec<ResolverEntry>, host: &str) -> (r: Option<usize>)
    ensures
        match r {
            Some(j) => j < entries@.len() && entries@[j as int]@.host == host@,
            None => forall|p: int| 0 <= p < entries@.len() ==> (#[trigger] entries@[p]@.host) != host@,
        },
{
    let m = entries.len();
    let mut j: usize = 0;
    while j < m
        invariant
            m == entries@.len(),
            j <= m,
            forall|p: int| 0 <= p < j ==> (#[trigger] entries@[p]@.host) != host@,
        decreases m - j,
    {
        if str_eq(entries[j].host.as_str(), host) {
            return Some(j);
        }
        j = j + 1;
    }
    None
}

impl StaticResolver {
    /// Well-formed: hostnames are distinct, and every cursor indexes into
    /// its candidate list when that list is non-empty.
    pub open spec fn wf(&self) -> bool {
        &&& forall|i: int, j: int|
            0 <= i < j < self@.len() ==> (#[trigger] self@[i].host) != (#[trigger] self@[j].host)
        &&& forall|i: int|
            0 <= i < self@.len() ==> ((#[trigger] self@[i].addrs).len() > 0 ==> self@[i].cursor
                < self@[i].addrs.len())
    }

    /// Registers the given servers' hostnames for static resolution,
    /// each with the candidate addresses of the last server naming it.
    pub fn new(servers: &[DnsHttpsServer]) -> (r: StaticResolver)
        ensures
            r.wf(),
            r@ == entries_of(servers@),
    {
        let mut entries: Vec<ResolverEntry> = Vec::new();
        let n = servers.len();
        let mut i: usize = 0;
        while i < n
            invariant
                n == servers@.len(),
                i <= n,
                entries@.map_values(|e: ResolverEntry| e@) == entries_of(servers@.take(i as int)),
                forall|p: int, q: int|
                    0 <= p < q < entries@.len() ==> (#[trigger] entries@[p]@.host) != (
                    #[trigger] entries@[q]@.host),
                forall|p: int| 0 <= p < entries@.len() ==> (#[trigger] entries@[p]@).cursor == 0,
            decreases n - i,
        {
            let server = &servers[i];
            let domain = server.domain();
            let found_at = find_host(&entries, domain);
            proof {
                assert(servers@.take(i as int + 1).drop_last() =~= servers@.take(i as int));
                assert(servers@.take(i as int + 1).last() == servers@[i as int]);
            }
            let ghost rest = entries_of(servers@.take(i as int));
            let ghost dom = servers@[i as int].domain_view();
            proof {
                assert(dom == domain@);
                assert(rest =~= entries@.map_values(|e: ResolverEntry| e@));
            }
            if found_at.is_none() {
                proof {
                    assert forall|p: int| 0 <= p < rest.len() implies (#[trigger] rest[p].host)
                        != dom by {
                        assert(rest[p] == entries@[p]@);
                    }
                }
                let entry = ResolverEntry {
                    host: domain.to_owned(),
                    addrs: server.addr(),
                    cursor: 0,
                };
                proof {
                    assert(entry@.host == dom);
                    assert(entry@.addrs == servers@[i as int].addrs_view());
                }
                entries.push(entry);
                proof {
                    assert(entries@.map_values(|e: ResolverEntry| e@) =~= rest.push(
                        EntryModel { host: dom, addrs: servers@[i as int].addrs_view(), cursor: 0 },
                    ));
                    assert(entries@.map_values(|e: ResolverEntry| e@) == entries_of(
                        servers@.take(i as int + 1),
                    ));
                }
            } else {
                let j = found_at.unwrap();
                let ghost entry = EntryModel {
                    host: dom,
                    addrs: servers@[i as int].addrs_view(),
                    cursor: 0,
                };
                proof {
                    assert(rest[j as int].host == dom);
                    assert(exists|p: int| 0 <= p < rest.len() && (#[trigger] rest[p].host) == dom);
                }
                entries[j].addrs = server.addr();
                proof {
                    let jc = choose|p: int|
                        0 <= p < rest.len() && (#[trigger] rest[p].host) == dom;
                    assert(rest[jc].host == dom);
                    assert(jc == j as int) by {
                        if jc < j as int {
                            assert(rest[jc] == entries@[jc]@);
                        } else if (j as int) < jc {
                            assert(rest[jc] == entries@[jc]@);
                        }
                    }
                    assert(entries@[j as int]@ == entry);
                    assert(entries@.map_values(|e: ResolverEntry| e@) =~= rest.update(
                        j as int,
                        entry,
                    ));
                    assert(entries@.map_values(|e: ResolverEntry| e@) == entries_of(
                        servers@.take(i as int + 1),
                    ));
                }
            }
            i = i + 1;
        }
        proof {
            assert(servers@.take(n as int) =~= servers@);
        }
        StaticResolver { entries }
    }

    /// Resolves a hostname to the address its round-robin cursor points
    /// at, advancing the cursor; a hostname that was never registered, or
    /// whose candidate list is empty, is not available and leaves the
    /// resolver unchanged.
    pub fn resolve(&mut self, host: &str) -> (r: Option<String>)
        requires
            old(self).wf(),
        ensures
            final(self).wf(),
            final(self)@.len() == old(self)@.len(),
            (r is Some) == exists|i: int| 0 <= i < old(self)@.len() && (#[trigger] old(self)@[i].host) == host@ && old(self)@[i].addrs.len() > 0,
            forall|i: int| 0 <= i < old(self)@.len() && (#[trigger] old(self)@[i].host) == host@ && old(self)@[i].addrs.len() > 0 ==> ((r matches Some(a) && a@ == old(self)@[i].addrs[old(self)@[i].cursor as int]) && final(self)@[i].host == old(self)@[i].host && final(self)@[i].addrs == old(self)@[i].addrs && final(self)@[i].cursor == (old(self)@[i].cursor + 1) % (old(self)@[i].addrs.len() as nat)),
            forall|i: int| 0 <= i < old(self)@.len() && ((#[trigger] old(self)@[i].host) != host@ || old(self)@[i].addrs.len() == 0) ==> final(self)@[i] == old(self)@[i],
    {
        let n = self.entries.len();
        let mut i: usize = 0;
        while i < n
            invariant
                n == self.entries@.len(),
                i <= n,
                *self == *old(self),
                old(self).wf(),
                forall|p: int| 0 <= p < i ==> (#[trigger] self@[p].host) != host@,
            decreases n - i,
        {
            proof {
                assert(self@[i as int] == self.entries@[i as int]@);
            }
            if str_eq(self.entries[i].host.as_str(), host) {
                proof {
                    assert(old(self)@[i as int].host == host@);
                    assert forall|p: int|
                        0 <= p < old(self)@.len() && p != i as int implies (#[trigger] old(self)@[p].host) != host@ by {
                        if p < i as int {
                            assert(old(self)@[p].host != host@);
                        } else {
                            assert(old(self)@[i as int].host != old(self)@[p].host);
                        }
                    }
                }
                let len = self.entries[i].addrs.len();
                proof {
                    assert(old(self)@[i as int].addrs =~= self.entries@[i as int].addrs.deep_view());
                    assert(old(self)@[i as int].addrs.len() == len);
                }
                if len == 0 {
                    return None;
                }
                let cur = self.entries[i].cursor;
                proof {
                    assert(old(self)@[i as int].addrs.len() > 0);
                    assert(old(self)@[i as int].cursor < old(self)@[i as int].addrs.len());
                    assert(cur < len);
                }
                let a = self.entries[i].addrs[cur].clone();
                proof {
                    assert(a@ == old(self)@[i as int].addrs[cur as int]);
                }
                self.entries[i].cursor = (cur + 1) % len;
                proof {
                    assert(self@ =~= old(self)@.update(
                        i as int,
                        EntryModel {
                            host: old(self)@[i as int].host,
                            addrs: old(self)@[i as int].addrs,
                            cursor: ((cur + 1) as nat) % (len as nat),
                        },
                    ));
                    vstd::arithmetic::div_mod::lemma_mod_division_less_than_divisor(
                        (cur + 1) as int,
                        len as int,
                    );
                }
                return Some(a);
            }
            i = i + 1;
        }
        proof {
            assert forall|p: int|
                0 <= p < old(self)@.len() implies (#[trigger] old(self)@[p].host) != host@ by {
                assert(self@[p].host != host@);
            }
        }
        None
    }
}

/// The cursor of a hostname with `n` candidate addresses after `k`
/// resolutions, starting from a fresh resolver.
pub open spec fn cursor_after(k: nat, n: nat) -> nat
    decreases k,
{
    if k == 0 {
        0
    } else {
        (cursor_after((k - 1) as nat, n) + 1) % n
    }
}

/// Law: resolution is round-robin, indefinitely.  For a hostname with `n`
/// candidate addresses, the cursor before the `k`-th resolution (counted
/// from one) is `(k - 1) % n`, so that resolution returns the candidate at
/// `(k - 1) % n`, and the cursor never resets within the resolver's
/// lifetime.
pub proof fn lemma_round_robin(k: nat, n: nat)
    requires
        n > 0,
    ensures
        cursor_after(k, n) == k % n,
    decreases k,
{
    if k > 0 {
        lemma_round_robin((k - 1) as nat, n);
        let prev = cursor_after((k - 1) as nat, n);
        assert(prev == ((k - 1) as nat) % n);
        assert(cursor_after(k, n) == (prev + 1) % n);
        if n == 1 {
            vstd::arithmetic::div_mod::lemma_mod_division_less_than_divisor(
                (prev + 1) as int,
                1int,
            );
            assert((prev + 1) % n == 0);
            vstd::arithmetic::div_mod::lemma_mod_division_less_than_divisor(k as int, 1int);
            assert(k % n == 0);
        } else {
            vstd::arithmetic::div_mod::lemma_add_mod_noop((k - 1) as int, 1int, n as int);
            vstd::arithmetic::div_mod::lemma_small_mod(1nat, n);
            assert(1int % (n as int) == 1int);
            assert((((k - 1) as int) % (n as int) + 1int % (n as int)) % (n as int) == (((k - 1) as int) + 1int) % (n as int));
            assert((prev + 1) % n == k % n);
        }
    } else {
        vstd::arithmetic::div_mod::lemma_small_mod(0nat, n);
    }
}

} // verus!
