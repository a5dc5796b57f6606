//! What is written to and read from the operating system's proxy setting.
//!
//! The setting is two registry values: a flag that turns the proxy on and
//! the `host:port` of the server. The program around this library performs
//! the registry access and the change notification; the values and their
//! reading are decided here.
use vstd::prelude::*;

verus! {

/// Registry key, under the current user, that holds the proxy setting.
pub const INTERNET_SETTINGS: &'static str = "Software\\Microsoft\\Windows\\CurrentVersion\\Internet Settings";

/// Registry value that turns the system proxy on (1) or off (0).
pub const PROXY_ENABLE_VALUE: &'static str = "ProxyEnable";

/// Registry value that holds the proxy server as `host:port`.
pub const PROXY_SERVER_VALUE: &'static str = "ProxyServer";

/// The character of a decimal digit.
pub open spec fn digit_char(d: int) -> char {
    if d == 0 {
        '0'
    } else if d == 1 {
        '1'
    } else if d == 2 {
        '2'
    } else if d == 3 {
        '3'
    } else if d == 4 {
        '4'
    } else if d == 5 {
        '5'
    } else if d == 6 {
        '6'
    } else if d == 7 {
        '7'
    } else if d == 8 {
        '8'
    } else {
        '9'
    }
}

/// Decimal notation of `n`, without leading zeros.
pub open spec fn decimal(n: nat) -> Seq<char>
    decreases n,
{
    if n < 10 {
        seq![digit_char(n as int)]
    } else {
        decimal(n / 10).push(digit_char((n % 10) as int))
    }
}

/// The server string for a proxy on this machine at `port`.
pub open spec fn local_server(port: u16) -> Seq<char> {
    "127.0.0.1:"@ + decimal(port as nat)
}

fn digit_str(d: u64) -> (r: &'static str)
    requires
        d < 10,
    ensures
        r@ == seq![digit_char(d as int)],
{
    proof {
        reveal_strlit("0");
        reveal_strlit("1");
        reveal_strlit("2");
        reveal_strlit("3");
        reveal_strlit("4");
        reveal_strlit("5");
        reveal_strlit("6");
        reveal_strlit("7");
        reveal_strlit("8");
        reveal_strlit("9");
    }
    if d == 0 {
        "0"
    } else if d == 1 {
        "1"
    } else if d == 2 {
        "2"
    } else if d == 3 {
        "3"
    } else if d == 4 {
        "4"
    } else if d == 5 {
        "5"
    } else if d == 6 {
        "6"
    } else if d == 7 {
        "7"
    } else if d == 8 {
        "8"
    } else {
        "9"
    }
}

/// Writes `n` in decimal.
pub fn decimal_string(n: u64) -> (r: String)
    ensures
        r@ == decimal(n as nat),
    decreases n,
{
    if n < 10 {
        String::from_str(digit_str(n))
    } else {
        let mut r = decimal_string(n / 10);
        r.append(digit_str(n % 10));
        assert(r@ == decimal(n as nat));
        r
    }
}

/// The server string for a proxy on this machine at `port`.
pub fn local_server_string(port: u16) -> (r: String)
    ensures
        r@ == local_server(port),
{
    let digits = decimal_string(port as u64);
    let mut r = String::from_str("127.0.0.1:");
    r.append(digits.as_str());
    r
}

/// The registry values to write for one change of the system proxy.
#[derive(Debug, Clone, PartialEq, Eq)]
pub struct ProxySettings {
    /// Value of the enable flag.
    pub proxy_enable: u32,
    /// Server to record, if any. Turning the proxy off leaves the recorded
    /// server as it was: the system ignores it while the flag is off.
    pub proxy_server: Option<String>,
}

/// What to write to turn the system proxy on at `port`, or off.
pub fn proxy_settings(enable: bool, port: u16) -> (r: ProxySettings)
    ensures
        r.proxy_enable == (if enable { 1u32 } else { 0u32 }),
        enable ==> r.proxy_server is Some && r.proxy_server->Some_0@ == local_server(port),
        !enable ==> r.proxy_server is None,
{
    if enable {
        ProxySettings { proxy_enable: 1, proxy_server: Some(local_server_string(port)) }
    } else {
        ProxySettings { proxy_enable: 0, proxy_server: None }
    }
}

/// Reads the enable flag as found in the registry: the proxy is on only
/// where the flag could be read and is 1. A missing key or value counts as
/// off.
pub fn is_enabled_from(flag: Option<u32>) -> (r: bool)
    ensures
        r == (flag == Some(1u32)),
{
    match flag {
        Some(v) => v == 1,
        None => false,
    }
}

} // verus!
