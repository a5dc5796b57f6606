//! Latency probe of a node: a TCP connection to each address the node's
//! host resolves to, in turn, until one succeeds.
//!
//! The program around this library resolves and connects; the target, the
//! time limit and the failure report are decided here.
use crate::system_proxy::{decimal, decimal_string};
use vstd::prelude::*;

verus! {

/// Ceiling on each connection attempt, in seconds.
pub const PROBE_TIMEOUT_SECONDS: u64 = 3;

/// The `host:port` text that is resolved to the addresses to try.
pub fn ping_target(address: &str, port: u16) -> (r: String)
    ensures
        r@ == address@ + ":"@ + decimal(port as nat),
{
    let digits = decimal_string(port as u64);
    let mut r = String::from_str(address);
    r.append(":");
    r.append(digits.as_str());
    r
}

/// The failure reported when no address could be reached: the last
/// attempt's error, or, where the host resolved to no address, a message
/// that says so.
pub fn probe_failure(last_error: Option<String>) -> (r: String)
    ensures
        last_error matches Some(e) ==> r@ == e@,
        last_error is None ==> r@ == "无法解析地址"@,
{
    match last_error {
        Some(e) => e,
        None => String::from_str("无法解析地址"),
    }
}

} // verus!
