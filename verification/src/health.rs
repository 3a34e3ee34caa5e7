//! The peer-qualification rule and the evaluation of one snapshot.
//!
//! P2P negotiation is disabled by configuration, so only a directly
//! connected, non-relay, non-self peer can certify connectivity: the
//! evaluator scans the peer-route pairs in their given order and the first
//! qualifying pair wins.

use vstd::prelude::*;

use crate::config::self_hostname;
use crate::config::self_hostname_str;
use crate::errors::HealthFailure;
use crate::snapshot::InstanceSnapshot;
use crate::snapshot::PeerRoutePair;
use crate::snapshot::RouteInfo;
use crate::snapshot::SummaryEntry;

verus! {

/// Whether a route's feature flags mark it as a public relay server; absent
/// flags count as not public.
pub open spec fn route_is_public(r: RouteInfo) -> bool {
    match r.feature_flags {
        Some(f) => f.is_public_server,
        None => false,
    }
}

/// The qualification rule: the route is present, not a public relay and not
/// the probe itself, and the peer record is present with at least one active
/// connection.
pub open spec fn pair_qualifies_spec(p: PeerRoutePair) -> bool {
    match (p.route, p.peer) {
        (Some(route), Some(peer)) => {
            &&& !route_is_public(route)
            &&& route.hostname@ != self_hostname()
            &&& peer.conn_count > 0
        },
        _ => false,
    }
}

/// Some pair of the sequence qualifies.
pub open spec fn has_qualifying(pairs: Seq<PeerRoutePair>) -> bool {
    exists|i: int| 0 <= i < pairs.len() && pair_qualifies_spec(pairs[i])
}

/// `i` is the position of the first qualifying pair.
pub open spec fn is_first_qualifying(pairs: Seq<PeerRoutePair>, i: int) -> bool {
    &&& 0 <= i < pairs.len()
    &&& pair_qualifies_spec(pairs[i])
    &&& forall|k: int| 0 <= k < i ==> !pair_qualifies_spec(pairs[k])
}

/// The position of the first qualifying pair, where one exists.
pub open spec fn first_qualifying_idx(pairs: Seq<PeerRoutePair>) -> int {
    choose|i: int| is_first_qualifying(pairs, i)
}

/// The identifier of the peer of the first qualifying pair.
pub open spec fn qualifying_peer_id(pairs: Seq<PeerRoutePair>) -> u32 {
    pairs[first_qualifying_idx(pairs)].peer->Some_0.peer_id
}

/// The count the summary holds for `peer_id`: the entry of the first record
/// with that identifier, or 0 where none carries it.
pub open spec fn summary_lookup(entries: Seq<SummaryEntry>, peer_id: u32) -> u32
    decreases entries.len(),
{
    if entries.len() == 0 {
        0
    } else if entries[0].peer_id == peer_id {
        entries[0].network_count
    } else {
        summary_lookup(entries.drop_first(), peer_id)
    }
}

/// Connection count reported for `peer_id`: what the summary holds under
/// that identifier, defaulting to 0 when nothing is known.
pub open spec fn summary_count(summary: Option<Vec<SummaryEntry>>, peer_id: u32) -> u32 {
    match summary {
        Some(entries) => summary_lookup(entries@, peer_id),
        None => 0,
    }
}

/// What one evaluation of a snapshot yields: the connection count of the
/// first qualifying pair's peer, or the failure to retry on.
pub open spec fn health_verdict(snapshot: Option<InstanceSnapshot>) -> Result<u32, HealthFailure> {
    match snapshot {
        None => Err(HealthFailure::NotStarted),
        Some(s) => if !s.running {
            Err(HealthFailure::NotRunning)
        } else if s.error_msg is Some {
            Err(HealthFailure::EngineReportedError { message: s.error_msg->Some_0 })
        } else if !has_qualifying(s.peer_route_pairs@) {
            Err(HealthFailure::NoQualifyingPeer)
        } else {
            Ok(summary_count(s.foreign_network_summary, qualifying_peer_id(s.peer_route_pairs@)))
        },
    }
}

/// Applies the qualification rule to one pair.
pub fn pair_qualifies(p: &PeerRoutePair) -> (r: bool)
    ensures
        r == pair_qualifies_spec(*p),
{
    match (&p.route, &p.peer) {
        (Some(route), Some(peer)) => {
            let is_public = match &route.feature_flags {
                Some(f) => f.is_public_server,
                None => false,
            };
            if is_public {
                return false;
            }
            let sentinel = String::from_str(self_hostname_str());
            if route.hostname == sentinel {
                false
            } else {
                peer.conn_count > 0
            }
        },
        _ => false,
    }
}

/// Looks `peer_id` up in the summary's records.
fn summary_lookup_exec(entries: &Vec<SummaryEntry>, peer_id: u32) -> (r: u32)
    ensures
        r == summary_lookup(entries@, peer_id),
{
    let n = entries.len();
    let mut i: usize = 0;
    proof {
        assert(entries@.skip(0) =~= entries@);
    }
    while i < n
        invariant
            n == entries@.len(),
            0 <= i <= n,
            summary_lookup(entries@, peer_id) == summary_lookup(entries@.skip(i as int), peer_id),
        decreases n - i,
    {
        if entries[i].peer_id == peer_id {
            proof {
                assert(entries@.skip(i as int)[0] == entries@[i as int]);
            }
            return entries[i].network_count;
        }
        proof {
            assert(entries@.skip(i as int)[0] == entries@[i as int]);
            assert(entries@.skip(i as int).drop_first() =~= entries@.skip(i as int + 1));
        }
        i += 1;
    }
    proof {
        assert(entries@.skip(i as int).len() == 0);
    }
    0
}

/// Evaluates one snapshot, as the engine handed it back: absent, not
/// running, or carrying an engine-reported error are retryable failures;
/// otherwise the first qualifying pair decides, and its peer's count is
/// looked up in the foreign-network summary.
pub fn test_node_healthy(snapshot: Option<InstanceSnapshot>) -> (r: Result<u32, HealthFailure>)
    ensures
        r == health_verdict(snapshot),
{
    let s = match snapshot {
        None => {
            return Err(HealthFailure::NotStarted);
        },
        Some(s) => s,
    };
    let InstanceSnapshot { running, error_msg, peer_route_pairs, foreign_network_summary } = s;
    if !running {
        return Err(HealthFailure::NotRunning);
    }
    if let Some(message) = error_msg {
        return Err(HealthFailure::EngineReportedError { message });
    }
    let n = peer_route_pairs.len();
    let mut i: usize = 0;
    while i < n
        invariant
            n == peer_route_pairs@.len(),
            0 <= i <= n,
            forall|k: int| 0 <= k < i ==> !pair_qualifies_spec(peer_route_pairs@[k]),
            snapshot matches Some(ss) && ss.running && ss.error_msg is None
                && ss.peer_route_pairs == peer_route_pairs
                && ss.foreign_network_summary == foreign_network_summary,
        decreases n - i,
    {
        if pair_qualifies(&peer_route_pairs[i]) {
            proof {
                let pairs = peer_route_pairs@;
                assert(is_first_qualifying(pairs, i as int));
                assert(has_qualifying(pairs));
                let j = first_qualifying_idx(pairs);
                assert(is_first_qualifying(pairs, j));
                if j < i as int {
                    assert(!pair_qualifies_spec(pairs[j]));
                } else if j > i as int {
                    assert(!pair_qualifies_spec(pairs[i as int]));
                }
                assert(first_qualifying_idx(pairs) == i as int);
            }
            let peer_id = match &peer_route_pairs[i].peer {
                Some(p) => p.peer_id,
                None => 0,
            };
            proof {
                assert(qualifying_peer_id(peer_route_pairs@) == peer_id);
            }
            let count = match &foreign_network_summary {
                Some(entries) => summary_lookup_exec(entries, peer_id),
                None => 0,
            };
            return Ok(count);
        }
        i += 1;
    }
    proof {
        assert(!has_qualifying(peer_route_pairs@));
    }
    Err(HealthFailure::NoQualifyingPeer)
}

} // verus!
