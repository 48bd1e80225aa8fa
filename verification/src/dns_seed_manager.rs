//! The registry of DNS seed hostnames, and the aggregation of the peer
//! addresses their resolution yields.
//!
//! The registry is a fixed, ordered table of nine hostnames; it is never
//! mutated and its order is stable. Resolution itself is DNS I/O and
//! happens outside this crate; callers hand the per-hostname results (or
//! their failures) to [`DnsSeedManager::from_lookup_results`], which unions
//! the successes and silently skips the failures.

use vstd::prelude::*;

use crate::peer::PeerAddr;

verus! {

/// A DNS seed lookup failed: the seed index was out of range, or the
/// hostname could not be resolved.
#[derive(Clone, Copy, Debug, PartialEq, Eq, Structural)]
pub struct DnsLookupError;

/// The default port peers listen on, on the target network's main net.
pub const DEFAULT_PORT_MAINNET: u16 = 8333;

/// How many seed hostnames the registry holds.
pub const SEED_COUNT: usize = 9;

/// The fixed seed hostname at index `i`, for `0 <= i < 9`.
pub open spec fn spec_dns_seed(i: int) -> Seq<char> {
    if i == 0 {
        "seed.bitcoin.sipa.be."@
    } else if i == 1 {
        "dnsseed.bluematt.me."@
    } else if i == 2 {
        "dnsseed.bitcoin.dashjr.org."@
    } else if i == 3 {
        "seed.bitcoinstats.com."@
    } else if i == 4 {
        "seed.bitcoin.jonasschnelli.ch."@
    } else if i == 5 {
        "seed.btc.petertodd.org."@
    } else if i == 6 {
        "seed.bitcoin.sprovoost.nl."@
    } else if i == 7 {
        "dnsseed.emzy.de."@
    } else {
        "seed.bitcoin.wiz.biz."@
    }
}

/// The addresses that a sequence of per-hostname lookup results yields:
/// the concatenation of the successful results, in order; failed lookups
/// contribute nothing.
pub open spec fn spec_union_resolved(rs: Seq<Option<Vec<PeerAddr>>>) -> Seq<PeerAddr>
    decreases rs.len(),
{
    if rs.len() == 0 {
        Seq::empty()
    } else {
        (match rs[0] {
            Some(v) => v@,
            None => Seq::empty(),
        }) + spec_union_resolved(rs.skip(1))
    }
}

/// When every hostname fails to resolve, the union is empty — and the
/// aggregation still succeeds.
pub proof fn lemma_union_of_failures_is_empty(rs: Seq<Option<Vec<PeerAddr>>>)
    requires
        forall|i: int| 0 <= i < rs.len() ==> rs[i] is None,
    ensures
        spec_union_resolved(rs).len() == 0,
    decreases rs.len(),
{
    if rs.len() > 0 {
        assert(forall|i: int| 0 <= i < rs.skip(1).len() ==> rs.skip(1)[i] == rs[i + 1]);
        lemma_union_of_failures_is_empty(rs.skip(1));
    }
}

/// Holds the resolved addresses of active nodes, gathered from the seed
/// registry.
#[derive(Debug)]
pub struct DnsSeedManager {
    pub active_nodes: Vec<PeerAddr>,
}

impl DnsSeedManager {
    /// An empty manager: no addresses resolved yet.
    pub fn new() -> (r: Self)
        ensures
            r.active_nodes@ == Seq::<PeerAddr>::empty(),
    {
        DnsSeedManager { active_nodes: Vec::new() }
    }

    /// The ordered table of seed hostnames. The table is fixed: every call
    /// returns the same nine hostnames in the same order.
    pub fn default_dns_seeds() -> (r: Vec<&'static str>)
        ensures
            r@.len() == SEED_COUNT,
            forall|i: int| 0 <= i < SEED_COUNT ==> #[trigger] r@[i]@ == spec_dns_seed(i),
    {
        let mut v: Vec<&'static str> = Vec::new();
        v.push("seed.bitcoin.sipa.be.");
        v.push("dnsseed.bluematt.me.");
        v.push("dnsseed.bitcoin.dashjr.org.");
        v.push("seed.bitcoinstats.com.");
        v.push("seed.bitcoin.jonasschnelli.ch.");
        v.push("seed.btc.petertodd.org.");
        v.push("seed.bitcoin.sprovoost.nl.");
        v.push("dnsseed.emzy.de.");
        v.push("seed.bitcoin.wiz.biz.");
        assert(forall|i: int| 0 <= i < SEED_COUNT ==> #[trigger] v@[i]@ == spec_dns_seed(i)) by {
            assert(v@[0]@ == spec_dns_seed(0));
            assert(v@[1]@ == spec_dns_seed(1));
            assert(v@[2]@ == spec_dns_seed(2));
            assert(v@[3]@ == spec_dns_seed(3));
            assert(v@[4]@ == spec_dns_seed(4));
            assert(v@[5]@ == spec_dns_seed(5));
            assert(v@[6]@ == spec_dns_seed(6));
            assert(v@[7]@ == spec_dns_seed(7));
            assert(v@[8]@ == spec_dns_seed(8));
        }
        v
    }

    /// The seed hostname at index `i`; `None` when the index is out of
    /// range. Deterministic and stable across calls.
    pub fn dns_seed_at_index(i: usize) -> (r: Option<&'static str>)
        ensures
            i < SEED_COUNT ==> r is Some && r->Some_0@ == spec_dns_seed(i as int),
            i >= SEED_COUNT ==> r is None,
    {
        if i >= SEED_COUNT {
            return None;
        }
        let seeds = Self::default_dns_seeds();
        Some(seeds[i])
    }

    /// The resolved address at index `i`; `None` when the index is out of
    /// range.
    pub fn get(&self, i: usize) -> (r: Option<&PeerAddr>)
        ensures
            i < self.active_nodes@.len() ==> r is Some && *r->Some_0 == self.active_nodes@[
                i as int],
            i >= self.active_nodes@.len() ==> r is None,
    {
        if i < self.active_nodes.len() {
            Some(&self.active_nodes[i])
        } else {
            None
        }
    }

    /// Gathers per-hostname lookup results into one manager: the addresses
    /// of every successful lookup, in order; hostnames that failed to
    /// resolve contribute nothing and do not fail the aggregation.
    pub fn from_lookup_results(results: &Vec<Option<Vec<PeerAddr>>>) -> (r: Self)
        ensures
            r.active_nodes@ == spec_union_resolved(results@),
    {
        let mut nodes: Vec<PeerAddr> = Vec::new();
        let n = results.len();
        let mut i: usize = 0;
        assert(results@.skip(0) =~= results@);
        while i < n
            invariant
                n == results@.len(),
                i <= n,
                nodes@ + spec_union_resolved(results@.skip(i as int)) == spec_union_resolved(
                    results@,
                ),
            decreases n - i,
        {
            let ghost tail = results@.skip(i as int);
            assert(tail[0] == results@[i as int]);
            match &results[i] {
                Some(v) => {
                    let m = v.len();
                    let mut j: usize = 0;
                    while j < m
                        invariant
                            m == v@.len(),
                            j <= m,
                            nodes@ + v@.skip(j as int) + spec_union_resolved(
                                results@.skip(i as int).skip(1),
                            ) == spec_union_resolved(results@),
                        decreases m - j,
                    {
                        let ghost nodes_prev = nodes@;
                        nodes.push(v[j]);
                        assert(nodes@ + v@.skip(j + 1) =~= nodes_prev + v@.skip(j as int));
                        assert(nodes@ + v@.skip(j + 1) + spec_union_resolved(
                            results@.skip(i as int).skip(1),
                        ) =~= spec_union_resolved(results@));
                        j = j + 1;
                    }
                    assert(v@.skip(m as int) =~= Seq::<PeerAddr>::empty());
                    assert(nodes@ + spec_union_resolved(results@.skip(i as int).skip(1))
                        =~= spec_union_resolved(results@));
                },
                None => {
                    assert(nodes@ + spec_union_resolved(results@.skip(i as int).skip(1))
                        =~= spec_union_resolved(results@));
                },
            }
            assert(results@.skip(i as int).skip(1) =~= results@.skip(i + 1));
            i = i + 1;
        }
        assert(results@.skip(n as int) =~= Seq::<Option<Vec<PeerAddr>>>::empty());
        assert(nodes@ =~= spec_union_resolved(results@));
        DnsSeedManager { active_nodes: nodes }
    }
}

} // verus!
