//! Plain data exchanged with callers.
use std::collections::HashMap;
use vstd::prelude::*;

verus! {

/// Local port on which the proxy engine listens.
pub const PROXY_PORT: u16 = 10808;

/// Snapshot of the proxy's state, recomputed on every query.
#[derive(Debug, Clone)]
pub struct ProxyStatus {
    pub running: bool,
    pub system_proxy: bool,
    pub current_node: Option<String>,
    pub port: u16,
}

impl Default for ProxyStatus {
    fn default() -> (r: Self)
        ensures
            !r.running,
            !r.system_proxy,
            r.current_node is None,
            r.port == PROXY_PORT,
    {
        ProxyStatus { running: false, system_proxy: false, current_node: None, port: PROXY_PORT }
    }
}

/// One node as listed to the user.
#[derive(Debug, Clone)]
pub struct NodeInfo {
    pub name: String,
    pub protocol: String,
    pub address: String,
    pub port: u16,
    pub file_name: String,
}

/// Throughput in bytes per second and cumulative bytes.
#[derive(Debug, Clone, Copy, PartialEq, Eq, Structural)]
pub struct TrafficStats {
    pub upload_speed: u64,
    pub download_speed: u64,
    pub upload_total: u64,
    pub download_total: u64,
}

/// Public and local address of this machine, where known.
#[derive(Debug, Clone)]
pub struct IpInfo {
    pub external_ip: Option<String>,
    pub internal_ip: Option<String>,
}

/// DNS section of the engine configuration.
#[derive(Debug, Clone)]
pub struct DnsConfig {
    pub tag: String,
    pub query_strategy: String,
    pub disable_fallback_if_match: bool,
    pub hosts: HashMap<String, String>,
    pub servers: Vec<DnsServer>,
}

/// A DNS server: a bare address, or an address limited to some domains.
#[derive(Debug, Clone)]
pub enum DnsServer {
    Simple(String),
    Complex { address: String, domains: Vec<String> },
}

/// Routing section of the engine configuration.
#[derive(Debug, Clone)]
pub struct RoutingConfig {
    pub domain_strategy: String,
    pub rules: Vec<RoutingRule>,
}

/// One routing rule of the engine configuration.
#[derive(Debug, Clone)]
pub struct RoutingRule {
    pub rule_type: String,
    pub inbound_tag: Vec<String>,
    pub outbound_tag: String,
    pub domain: Vec<String>,
    pub ip: Vec<String>,
    pub port: Option<String>,
}

} // verus!
