use netproxy::nodes::{describe_node, parse_node_details};

fn details(p: &str, a: &str, port: u16) -> (String, String, u16) {
    (p.to_string(), a.to_string(), port)
}

#[test]
fn vnext_server() {
    let text = r#"{"protocol":"vless","settings":{"vnext":[{"address":"example.com","port":443}]}}"#;
    assert_eq!(parse_node_details(text), details("vless", "example.com", 443));
}

#[test]
fn shadowsocks_servers() {
    let text = r#"{"protocol":"shadowsocks","settings":{"servers":[{"address":"1.2.3.4","port":8388}]}}"#;
    assert_eq!(parse_node_details(text), details("shadowsocks", "1.2.3.4", 8388));
}

#[test]
fn wrapped_in_outbounds() {
    let text = r#"{"outbounds":[{"protocol":"trojan","settings":{"vnext":[{"address":"t.example","port":8443}]}},{"protocol":"freedom"}]}"#;
    assert_eq!(parse_node_details(text), details("trojan", "t.example", 8443));
}

#[test]
fn freedom_is_direct() {
    assert_eq!(parse_node_details(r#"{"protocol":"freedom"}"#), details("freedom", "Direct/Local", 0));
}

#[test]
fn not_json_is_unknown() {
    assert_eq!(parse_node_details("not json"), details("unknown", "", 0));
    assert_eq!(parse_node_details("{}"), details("unknown", "", 0));
}

#[test]
fn port_is_taken_modulo() {
    let text = r#"{"protocol":"vmess","settings":{"vnext":[{"address":"h","port":70000}]}}"#;
    assert_eq!(parse_node_details(text), details("vmess", "h", 4464));
    assert_eq!(describe_node(Some("vmess"), Some((None, None))), details("vmess", "", 0));
}
