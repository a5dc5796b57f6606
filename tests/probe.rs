use netproxy::models::ProxyStatus;
use netproxy::probe::{ping_target, probe_failure, PROBE_TIMEOUT_SECONDS};

#[test]
fn target_joins_host_and_port() {
    assert_eq!(ping_target("example.com", 443), "example.com:443");
    assert_eq!(ping_target("10.0.0.1", 0), "10.0.0.1:0");
    assert_eq!(PROBE_TIMEOUT_SECONDS, 3);
}

#[test]
fn failure_reports_last_error() {
    assert_eq!(probe_failure(Some("connection timed out".to_string())), "connection timed out");
    assert_eq!(probe_failure(None), "无法解析地址");
}

#[test]
fn default_status_is_stopped_on_fixed_port() {
    let s = ProxyStatus::default();
    assert!(!s.running);
    assert!(!s.system_proxy);
    assert_eq!(s.current_node, None);
    assert_eq!(s.port, 10808);
}
