use netproxy::system_proxy::{decimal_string, is_enabled_from, local_server_string, proxy_settings};

#[test]
fn decimal_notation() {
    assert_eq!(decimal_string(0), "0");
    assert_eq!(decimal_string(7), "7");
    assert_eq!(decimal_string(10808), "10808");
    assert_eq!(decimal_string(u64::MAX), "18446744073709551615");
}

#[test]
fn enabling_writes_flag_and_server() {
    let s = proxy_settings(true, 10808);
    assert_eq!(s.proxy_enable, 1);
    assert_eq!(s.proxy_server, Some("127.0.0.1:10808".to_string()));
    assert_eq!(local_server_string(65535), "127.0.0.1:65535");
}

#[test]
fn disabling_clears_flag_only() {
    let s = proxy_settings(false, 10808);
    assert_eq!(s.proxy_enable, 0);
    assert_eq!(s.proxy_server, None);
}

#[test]
fn enabled_only_when_flag_reads_one() {
    assert!(is_enabled_from(Some(1)));
    assert!(!is_enabled_from(Some(0)));
    assert!(!is_enabled_from(Some(2)));
    assert!(!is_enabled_from(None));
}

#[test]
fn external_change_is_seen_on_next_read() {
    // Nothing is cached: each read goes by the flag as found.
    assert!(!is_enabled_from(Some(0)));
    assert!(is_enabled_from(Some(1)));
    assert!(!is_enabled_from(Some(0)));
}
