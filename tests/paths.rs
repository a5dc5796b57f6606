use netproxy::paths::{
    get_confdir, get_logs_dir, get_outbounds_dir, get_proxylink_path, get_selection_file, get_xray_path, join_path,
};

#[test]
fn engine_and_tool_paths() {
    assert_eq!(get_xray_path("C:\\App\\NetProxy"), "C:\\App\\NetProxy\\bin\\xray.exe");
    assert_eq!(
        get_proxylink_path("C:\\App\\NetProxy"),
        "C:\\App\\NetProxy\\tools\\proxylink\\proxylink.exe"
    );
}

#[test]
fn configuration_directories() {
    assert_eq!(get_confdir("C:\\NetProxy"), "C:\\NetProxy\\config\\xray\\confdir");
    assert_eq!(get_outbounds_dir("C:\\NetProxy"), "C:\\NetProxy\\config\\xray\\outbounds");
    assert_eq!(get_logs_dir("C:\\NetProxy"), "C:\\NetProxy\\logs");
    assert_eq!(get_selection_file("C:\\NetProxy"), "C:\\NetProxy\\selected_node.txt");
}

#[test]
fn join_under_empty_base_keeps_part() {
    assert_eq!(join_path("", "NetProxy"), "NetProxy");
    assert_eq!(get_xray_path(""), "bin\\xray.exe");
}
