//! Building the one-shot join configuration of a probe session.
//!
//! A probe wants as little of the engine as possible: it joins with the
//! user-space network stack only, keeps clear of the host's interfaces, and
//! switches off every feature that is not needed to reach one peer.

use vstd::prelude::*;

use crate::errors::ProbeError;

verus! {

/// The sentinel hostname under which the probe joins; a peer that carries it
/// is the probe itself and never qualifies.
pub open spec fn self_hostname() -> Seq<char> {
    "HealthCheckCLI"@
}

/// The sentinel hostname as a string slice.
pub fn self_hostname_str() -> (r: &'static str)
    ensures
        r@ == self_hostname(),
{
    "HealthCheckCLI"
}

/// The engine feature flags that the probe fixes for every session.
#[derive(Clone, Copy, Debug, PartialEq, Eq, Structural)]
pub struct ConfigFlags {
    pub no_tun: bool,
    pub disable_p2p: bool,
    pub disable_udp_hole_punching: bool,
    pub bind_device: bool,
    pub use_smoltcp: bool,
    pub enable_ipv6: bool,
    pub proxy_forward_by_system: bool,
    pub accept_dns: bool,
    pub private_mode: bool,
    pub latency_first: bool,
    pub enable_exit_node: bool,
}

/// The fixed flag set of a probe: virtual-interface creation, device
/// binding, P2P negotiation, UDP hole punching, IPv6, system proxy
/// forwarding, DNS acceptance, latency-first routing and exit-node behavior
/// are all off; the private synthetic-stack mode is on.
pub open spec fn probe_flags() -> ConfigFlags {
    ConfigFlags {
        no_tun: true,
        disable_p2p: true,
        disable_udp_hole_punching: true,
        bind_device: false,
        use_smoltcp: true,
        enable_ipv6: false,
        proxy_forward_by_system: false,
        accept_dns: false,
        private_mode: true,
        latency_first: false,
        enable_exit_node: false,
    }
}

/// The fixed IPv4 STUN server list of a probe.
pub open spec fn stun_server_views() -> Seq<Seq<char>> {
    seq![
        "stun.miwifi.com"@,
        "stun.chat.bilibili.com"@,
        "stun.hitv.com"@,
        "stun.nextcloud.com"@,
    ]
}

/// An immutable one-shot join configuration: a single peer entry, a fresh
/// random instance identifier, a network identity derived from name and
/// secret, the sentinel hostname, the fixed flag set and the restricted
/// STUN lists.
#[derive(Debug)]
pub struct ProbeConfig {
    pub server_uri: String,
    pub network_name: String,
    pub network_secret: String,
    pub instance_id: u128,
    pub hostname: String,
    pub flags: ConfigFlags,
    pub stun_servers: Vec<String>,
    pub stun_servers_v6: Vec<String>,
}

impl ProbeConfig {
    /// What every built configuration satisfies.
    pub open spec fn wf(self) -> bool {
        &&& uri_parses(self.server_uri@)
        &&& self.hostname@ == self_hostname()
        &&& self.flags == probe_flags()
        &&& self.stun_servers@.len() == stun_server_views().len()
        &&& forall|i: int|
            0 <= i < self.stun_servers@.len() ==> self.stun_servers@[i]@ == stun_server_views()[i]
        &&& self.stun_servers_v6@.len() == 0
    }
}

/// Whether a string parses as an absolute URL; the answer depends on the
/// string alone.
pub uninterp spec fn uri_parses(s: Seq<char>) -> bool;

/// Relies on url::Url::parse to decide whether `s` is a well-formed peer
/// address of the form scheme://host:port.
#[verifier::external_body]
fn check_peer_uri(s: &str) -> (r: bool)
    ensures
        r == uri_parses(s@),
{
    match url::Url::parse(s) {
        Ok(_) => true,
        Err(_) => false,
    }
}

/// Relies on uuid::Uuid::new_v4 for a fresh random instance identifier;
/// nothing is assumed of the value drawn.
#[verifier::external_body]
fn fresh_instance_id() -> u128 {
    uuid::Uuid::new_v4().as_u128()
}

/// Builds the join configuration for one probe session, or reports
/// `ConfigError` exactly when the server address does not parse.
pub fn create_config(server_uri: &str, network_name: &str, network_secret: &str) -> (r: Result<
    ProbeConfig,
    ProbeError,
>)
    ensures
        r is Ok <==> uri_parses(server_uri@),
        r matches Ok(cfg) ==> {
            &&& cfg.wf()
            &&& cfg.server_uri@ == server_uri@
            &&& cfg.network_name@ == network_name@
            &&& cfg.network_secret@ == network_secret@
        },
        r matches Err(e) ==> e is ConfigError,
{
    if !check_peer_uri(server_uri) {
        return Err(ProbeError::ConfigError);
    }
    let instance_id = fresh_instance_id();
    let mut stun_servers: Vec<String> = Vec::new();
    stun_servers.push(String::from_str("stun.miwifi.com"));
    stun_servers.push(String::from_str("stun.chat.bilibili.com"));
    stun_servers.push(String::from_str("stun.hitv.com"));
    stun_servers.push(String::from_str("stun.nextcloud.com"));
    let cfg = ProbeConfig {
        server_uri: String::from_str(server_uri),
        network_name: String::from_str(network_name),
        network_secret: String::from_str(network_secret),
        instance_id,
        hostname: String::from_str(self_hostname_str()),
        flags: ConfigFlags {
            no_tun: true,
            disable_p2p: true,
            disable_udp_hole_punching: true,
            bind_device: false,
            use_smoltcp: true,
            enable_ipv6: false,
            proxy_forward_by_system: false,
            accept_dns: false,
            private_mode: true,
            latency_first: false,
            enable_exit_node: false,
        },
        stun_servers,
        stun_servers_v6: Vec::new(),
    };
    Ok(cfg)
}

} // verus!
