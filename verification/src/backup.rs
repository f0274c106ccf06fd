//! Configuration backup bundles: the manifest stored in each bundle and the
//! bundle's file name.
use vstd::prelude::*;
use vstd::string::*;

use crate::command::{combined_text, console, CmdOutput, CmdSpec};
use crate::netsh::{run_netsh, runs};
use crate::topology::views;

verus! {

/// What a backup bundle records about itself.
#[derive(Debug, Clone)]
pub struct Manifest {
    pub version: u32,
    pub source: String,
    pub time: String,
    pub kind: String,
}

impl Manifest {
    /// The manifest of a bundle of `kind`, taken on host `source` at `time`
    /// (`%Y-%m-%d %H:%M:%S`); the bundle format version is 1.
    pub fn new(kind: &str, source: String, time: String) -> (r: Manifest)
        ensures
            r.version == 1,
            r.source == source,
            r.time == time,
            r.kind@ == kind@,
    {
        Manifest { version: 1, source, time, kind: String::from_str(kind) }
    }
}

/// The host name used when the machine reports none.
pub open spec fn unknown_host() -> Seq<char> {
    "unknown"@
}

/// The host name: the reported one, else `unknown`.
pub fn hostname_or_unknown(reported: Option<String>) -> (r: String)
    ensures
        r@ == match reported {
            Some(h) => h@,
            None => unknown_host(),
        },
{
    match reported {
        Some(h) => h,
        None => String::from_str("unknown"),
    }
}

/// The file name of a bundle: `<timestamp>_<host>.nmtsbak`.
pub open spec fn bundle_name_text(stamp: Seq<char>, host: Seq<char>) -> Seq<char> {
    stamp + "_"@ + host + ".nmtsbak"@
}

/// The file name of a bundle taken at `stamp` (`%Y%m%d-%H%M%S`) on `host`.
pub fn bundle_name(stamp: &str, host: &str) -> (r: String)
    ensures
        r@ == bundle_name_text(stamp@, host@),
{
    let mut s = String::from_str(stamp);
    s.append("_");
    s.append(host);
    s.append(".nmtsbak");
    s
}

/// The IPv4 configuration as a `netsh` script.
pub fn ip_dump() -> (r: CmdSpec)
    ensures
        runs(r, "netsh"@, seq!["interface"@, "ip"@, "dump"@], 20),
{
    let r = run_netsh(&["interface", "ip", "dump"]);
    assert(views(r.args@) =~= seq!["interface"@, "ip"@, "dump"@]);
    r
}

/// The IPv6 configuration as a `netsh` script.
pub fn ipv6_dump() -> (r: CmdSpec)
    ensures
        runs(r, "netsh"@, seq!["interface"@, "ipv6"@, "dump"@], 20),
{
    let r = run_netsh(&["interface", "ipv6", "dump"]);
    assert(views(r.args@) =~= seq!["interface"@, "ipv6"@, "dump"@]);
    r
}

/// The global TCP settings.
pub fn tcp_global() -> (r: CmdSpec)
    ensures
        runs(r, "netsh"@, seq!["int"@, "tcp"@, "show"@, "global"@], 20),
{
    let r = run_netsh(&["int", "tcp", "show", "global"]);
    assert(views(r.args@) =~= seq!["int"@, "tcp"@, "show"@, "global"@]);
    r
}

/// Exports every wireless profile, keys in clear, into `folder`.
pub fn wlan_export(folder: &str) -> (r: CmdSpec)
    ensures
        runs(r, "netsh"@, seq!["wlan"@, "export"@, "profile"@, "folder="@, folder@, "key=clear"@], 20),
{
    let r = run_netsh(&["wlan", "export", "profile", "folder=", folder, "key=clear"]);
    assert(views(r.args@) =~= seq!["wlan"@, "export"@, "profile"@, "folder="@, folder@, "key=clear"@]);
    r
}

/// Exports the proxy settings of the current user into `file`.
pub fn registry_export(file: &str) -> (r: CmdSpec)
    ensures
        runs(
            r,
            "reg"@,
            seq![
                "export"@,
                "HKCU\\Software\\Microsoft\\Windows\\CurrentVersion\\Internet Settings"@,
                file@,
                "/y"@,
            ], 20),
{
    let r = console(
        "reg",
        &["export", "HKCU\\Software\\Microsoft\\Windows\\CurrentVersion\\Internet Settings", file, "/y"],
        20,
    );
    assert(views(r.args@) =~= seq![
        "export"@,
        "HKCU\\Software\\Microsoft\\Windows\\CurrentVersion\\Internet Settings"@,
        file@,
        "/y"@,
    ]);
    r
}

/// Runs a saved `netsh` script.
pub fn netsh_script(file: &str) -> (r: CmdSpec)
    ensures
        runs(r, "netsh"@, seq!["-f"@, file@], 30),
{
    let r = console("netsh", &["-f", file], 30);
    assert(views(r.args@) =~= seq!["-f"@, file@]);
    r
}

/// Imports a saved wireless profile.
pub fn wlan_import(file: &str) -> (r: CmdSpec)
    ensures
        runs(r, "netsh"@, seq!["wlan"@, "add"@, "profile"@, "filename="@, file@], 15),
{
    let r = console("netsh", &["wlan", "add", "profile", "filename=", file], 15);
    assert(views(r.args@) =~= seq!["wlan"@, "add"@, "profile"@, "filename="@, file@]);
    r
}

/// Imports saved registry settings.
pub fn registry_import(file: &str) -> (r: CmdSpec)
    ensures
        runs(r, "reg"@, seq!["import"@, file@], 20),
{
    let r = console("reg", &["import", file], 20);
    assert(views(r.args@) =~= seq!["import"@, file@]);
    r
}

/// The outcome of replaying the saved IPv4 script: restoring stops with
/// an error when it failed.
pub fn ip_restore_outcome(out: &CmdOutput) -> (r: Result<(), String>)
    ensures
        out.success ==> r is Ok,
        !out.success ==> (r matches Err(m) && m@ == "恢复 IP 配置失败: "@ + combined_text(
            out.stdout@,
            out.stderr@,
        )),
{
    if out.success {
        Ok(())
    } else {
        let mut m = String::from_str("恢复 IP 配置失败: ");
        m.append(out.combined().as_str());
        Err(m)
    }
}

} // verus!
