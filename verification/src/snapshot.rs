//! The read-only view of a running instance that the engine reports.
//!
//! The engine's own records are structurally rich; the probe reads only the
//! fields below, so its snapshot holds exactly those as plain values. The
//! unverified shell converts each engine record into this form.

use vstd::prelude::*;

verus! {

/// The feature flags of a route, reduced to the one flag the probe reads.
#[derive(Clone, Copy, Debug, PartialEq, Eq, Structural)]
pub struct RouteFeatureFlags {
    /// Whether the routed peer is a shared public relay server.
    pub is_public_server: bool,
}

/// Routing metadata of one remote node.
#[derive(Debug)]
pub struct RouteInfo {
    pub hostname: String,
    pub feature_flags: Option<RouteFeatureFlags>,
}

/// Live connection metadata of one remote node.
#[derive(Clone, Copy, Debug, PartialEq, Eq, Structural)]
pub struct PeerInfo {
    pub peer_id: u32,
    /// How many active connections the peer record holds.
    pub conn_count: u64,
}

/// Route and peer records of one remote node, either of which the engine
/// may omit.
#[derive(Debug)]
pub struct PeerRoutePair {
    pub route: Option<RouteInfo>,
    pub peer: Option<PeerInfo>,
}

/// One entry of the foreign-network summary: how many networks a peer
/// maintains.
#[derive(Clone, Copy, Debug, PartialEq, Eq, Structural)]
pub struct SummaryEntry {
    pub peer_id: u32,
    pub network_count: u32,
}

/// The state of the instance at one poll.
#[derive(Debug)]
pub struct InstanceSnapshot {
    pub running: bool,
    pub error_msg: Option<String>,
    /// Peer-route pairs in the order the engine reports them.
    pub peer_route_pairs: Vec<PeerRoutePair>,
    /// The foreign-network summary, absent when the engine reports none.
    pub foreign_network_summary: Option<Vec<SummaryEntry>>,
}

} // verus!
