//! Summary of a node's configuration file: protocol, server address and
//! port, for listing nodes to the user.
//!
//! A file holds one outbound, or an object whose `outbounds` array holds it
//! first. The server is the first entry of `settings.vnext` (vmess, vless,
//! trojan) or else of `settings.servers` (shadowsocks).
use vstd::prelude::*;

verus! {

#[verifier::external_type_specification]
#[verifier::external_body]
pub struct ExValue(serde_json::Value);

/// Whether `text` is a JSON document.
pub uninterp spec fn is_json(text: Seq<char>) -> bool;

/// Relies on serde_json::from_str: the JSON document in `text`, if it is
/// one; whether it is depends on the text alone.
#[verifier::external_body]
fn parse_json(text: &str) -> (r: Option<serde_json::Value>)
    ensures
        r is Some <==> is_json(text@),
{
    serde_json::from_str::<serde_json::Value>(text).ok()
}

/// Relies on serde_json::Value::get: the member `key` of an object.
#[verifier::external_body]
fn member<'a>(v: &'a serde_json::Value, key: &str) -> (r: Option<&'a serde_json::Value>) {
    v.get(key)
}

/// Relies on serde_json::Value::as_array: the elements of an array.
#[verifier::external_body]
fn as_array<'a>(v: &'a serde_json::Value) -> (r: Option<&'a Vec<serde_json::Value>>) {
    v.as_array()
}

/// Relies on serde_json::Value::as_str: the text of a string.
#[verifier::external_body]
fn as_text<'a>(v: &'a serde_json::Value) -> (r: Option<&'a str>) {
    v.as_str()
}

/// Relies on serde_json::Value::as_u64: a number that is a `u64`.
#[verifier::external_body]
fn as_unsigned(v: &serde_json::Value) -> (r: Option<u64>) {
    v.as_u64()
}

/// The view of an optional string slice.
pub open spec fn opt_str_view(o: Option<&str>) -> Option<Seq<char>> {
    match o {
        Some(s) => Some(s@),
        None => None,
    }
}

/// The protocol, address and port shown for a node whose file names
/// `protocol` and whose first server entry is `server` (its address and
/// port, each where present). A missing protocol reads "unknown"; a direct
/// ("freedom") outbound has no server; a port is taken modulo 65536.
pub open spec fn node_summary(
    protocol: Option<Seq<char>>,
    server: Option<(Option<Seq<char>>, Option<u64>)>,
) -> (Seq<char>, Seq<char>, u16) {
    let p = match protocol {
        Some(p) => p,
        None => "unknown"@,
    };
    if p == "freedom"@ {
        (p, "Direct/Local"@, 0)
    } else {
        match server {
            Some((address, port)) => (
                p,
                match address {
                    Some(a) => a,
                    None => ""@,
                },
                match port {
                    Some(n) => (n % 65536) as u16,
                    None => 0,
                },
            ),
            None => (p, ""@, 0),
        }
    }
}

/// Protocol, address and port shown for a node, from what its file names.
pub fn describe_node(protocol: Option<&str>, server: Option<(Option<&str>, Option<u64>)>) -> (r: (
    String,
    String,
    u16,
))
    ensures
        (r.0@, r.1@, r.2) == node_summary(
            opt_str_view(protocol),
            match server {
                Some((a, p)) => Some((opt_str_view(a), p)),
                None => None,
            },
        ),
{
    proof {
        reveal_strlit("");
    }
    let p = match protocol {
        Some(p) => String::from_str(p),
        None => String::from_str("unknown"),
    };
    if p == String::from_str("freedom") {
        return (p, String::from_str("Direct/Local"), 0);
    }
    match server {
        Some((address, port)) => {
            let a = match address {
                Some(a) => String::from_str(a),
                None => String::new(),
            };
            let n: u16 = match port {
                Some(n) => (n % 65536) as u16,
                None => 0,
            };
            (p, a, n)
        },
        None => (p, String::new(), 0),
    }
}

/// The first element of the array member `key` of `v`.
fn first_of<'a>(v: &'a serde_json::Value, key: &str) -> (r: Option<&'a serde_json::Value>) {
    match member(v, key) {
        Some(m) => match as_array(m) {
            Some(items) => if items.len() > 0 {
                Some(&items[0])
            } else {
                None
            },
            None => None,
        },
        None => None,
    }
}

/// Address and port of a server entry.
fn server_of(entry: &serde_json::Value) -> (r: (Option<&str>, Option<u64>)) {
    let address = match member(entry, "address") {
        Some(a) => as_text(a),
        None => None,
    };
    let port = match member(entry, "port") {
        Some(p) => as_unsigned(p),
        None => None,
    };
    (address, port)
}

/// Protocol, address and port of the node whose configuration file holds
/// `content`. Text that is no JSON reads as a node with no protocol and no
/// server.
pub fn parse_node_details(content: &str) -> (r: (String, String, u16))
    ensures
        !is_json(content@) ==> (r.0@, r.1@, r.2) == node_summary(None, None),
        exists|protocol: Option<Seq<char>>, server: Option<(Option<Seq<char>>, Option<u64>)>|
            (r.0@, r.1@, r.2) == node_summary(protocol, server),
{
    let parsed = parse_json(content);
    let json = match &parsed {
        Some(j) => j,
        None => {
            let r = describe_node(None, None);
            return r;
        },
    };
    let outbound = match first_of(json, "outbounds") {
        Some(first) => first,
        None => json,
    };
    let protocol = match member(outbound, "protocol") {
        Some(p) => as_text(p),
        None => None,
    };
    let server = match member(outbound, "settings") {
        Some(settings) => match first_of(settings, "vnext") {
            Some(entry) => Some(server_of(entry)),
            None => match first_of(settings, "servers") {
                Some(entry) => Some(server_of(entry)),
                None => None,
            },
        },
        None => None,
    };
    describe_node(protocol, server)
}

} // verus!
