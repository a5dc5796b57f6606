//! Layout of the data directory: where the engine, its tools and its
//! configuration live.
use vstd::prelude::*;

verus! {

/// Component separator of the paths this library builds.
pub open spec fn separator() -> Seq<char> {
    seq!['\\']
}

/// `part` placed under `base`; an empty base leaves `part` as it is.
pub open spec fn joined(base: Seq<char>, part: Seq<char>) -> Seq<char> {
    if base.len() == 0 {
        part
    } else {
        base + separator() + part
    }
}

/// Places `part` under the directory `base`.
pub fn join_path(base: &str, part: &str) -> (r: String)
    ensures
        r@ == joined(base@, part@),
{
    if base.is_empty() {
        String::from_str(part)
    } else {
        let sep = "\\";
        proof {
            reveal_strlit("\\");
        }
        let mut r = String::from_str(base);
        r.append(sep);
        r.append(part);
        r
    }
}

/// Path of the proxy-engine executable.
pub fn get_xray_path(data_dir: &str) -> (r: String)
    ensures
        r@ == joined(joined(data_dir@, "bin"@), "xray.exe"@),
{
    let bin = join_path(data_dir, "bin");
    join_path(bin.as_str(), "xray.exe")
}

/// Path of the link and subscription parser executable.
pub fn get_proxylink_path(data_dir: &str) -> (r: String)
    ensures
        r@ == joined(joined(joined(data_dir@, "tools"@), "proxylink"@), "proxylink.exe"@),
{
    let tools = join_path(data_dir, "tools");
    let dir = join_path(tools.as_str(), "proxylink");
    join_path(dir.as_str(), "proxylink.exe")
}

/// Directory of the engine configuration shared by every node.
pub open spec fn xray_config_dir(data_dir: Seq<char>) -> Seq<char> {
    joined(joined(data_dir, "config"@), "xray"@)
}

fn get_xray_config_dir(data_dir: &str) -> (r: String)
    ensures
        r@ == xray_config_dir(data_dir@),
{
    let config = join_path(data_dir, "config");
    join_path(config.as_str(), "xray")
}

/// Directory of the configuration fragments shared by every node.
pub fn get_confdir(data_dir: &str) -> (r: String)
    ensures
        r@ == joined(xray_config_dir(data_dir@), "confdir"@),
{
    let xray = get_xray_config_dir(data_dir);
    join_path(xray.as_str(), "confdir")
}

/// Directory that holds one configuration file per node.
pub fn get_outbounds_dir(data_dir: &str) -> (r: String)
    ensures
        r@ == joined(xray_config_dir(data_dir@), "outbounds"@),
{
    let xray = get_xray_config_dir(data_dir);
    join_path(xray.as_str(), "outbounds")
}

/// Directory the engine writes its logs to.
pub fn get_logs_dir(data_dir: &str) -> (r: String)
    ensures
        r@ == joined(data_dir@, "logs"@),
{
    join_path(data_dir, "logs")
}

/// File that keeps the selected node across restarts.
pub fn get_selection_file(data_dir: &str) -> (r: String)
    ensures
        r@ == joined(data_dir@, "selected_node.txt"@),
{
    join_path(data_dir, "selected_node.txt")
}

} // verus!
