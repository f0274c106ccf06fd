//! Quick network settings: the commands that change addresses, DNS servers,
//! IPv6 and TCP tuning, and the merged result of a release/renew pair.
use vstd::prelude::*;
use vstd::string::*;

use crate::command::{CmdOutput, CmdSpec};
use crate::netsh::{self, run_netsh, runs};
use crate::topology::views;

verus! {

/// Flushes the DNS resolver cache.
pub fn flush_dns() -> (r: CmdSpec)
    ensures
        runs(r, "ipconfig"@, seq!["/flushdns"@], 20),
{
    netsh::flush_dns()
}

/// A static IPv4 address, mask and gateway.
pub fn set_static_ip(iface: &str, ip: &str, mask: &str, gw: &str) -> (r: CmdSpec)
    ensures
        runs(
            r,
            "netsh"@,
            seq!["interface"@, "ip"@, "set"@, "address"@, iface@, "static"@, ip@, mask@, gw@], 20),
{
    netsh::set_static_ip(iface, ip, mask, gw)
}

/// The primary static IPv4 DNS server.
pub fn set_dns(iface: &str, dns: &str) -> (r: CmdSpec)
    ensures
        runs(r, "netsh"@, seq!["interface"@, "ip"@, "set"@, "dns"@, iface@, "static"@, dns@], 20),
{
    netsh::set_dns(iface, dns)
}

/// A second IPv4 DNS server.
pub fn add_dns(iface: &str, dns: &str) -> (r: CmdSpec)
    ensures
        runs(r, "netsh"@, seq!["interface"@, "ip"@, "add"@, "dns"@, iface@, dns@, "index=2"@], 20),
{
    let r = run_netsh(&["interface", "ip", "add", "dns", iface, dns, "index=2"]);
    assert(views(r.args@) =~= seq![
        "interface"@,
        "ip"@,
        "add"@,
        "dns"@,
        iface@,
        dns@,
        "index=2"@,
    ]);
    r
}

/// The primary static IPv6 DNS server.
pub fn set_dns_v6(iface: &str, dns: &str) -> (r: CmdSpec)
    ensures
        runs(r, "netsh"@, seq!["interface"@, "ipv6"@, "set"@, "dns"@, iface@, "static"@, dns@], 20),
{
    netsh::set_dns_v6(iface, dns)
}

/// A second IPv6 DNS server.
pub fn add_dns_v6(iface: &str, dns: &str) -> (r: CmdSpec)
    ensures
        runs(r, "netsh"@, seq!["interface"@, "ipv6"@, "add"@, "dns"@, iface@, dns@, "index=2"@], 20),
{
    netsh::add_dns_v6(iface, dns)
}

/// DNS servers from DHCP again.
pub fn set_dns_dhcp(iface: &str) -> (r: CmdSpec)
    ensures
        runs(r, "netsh"@, seq!["interface"@, "ip"@, "set"@, "dns"@, iface@, "dhcp"@], 20),
{
    netsh::set_dns_dhcp(iface)
}

/// The IPv4 address from DHCP again.
pub fn set_ip_dhcp(iface: &str) -> (r: CmdSpec)
    ensures
        runs(r, "netsh"@, seq!["interface"@, "ip"@, "set"@, "address"@, iface@, "dhcp"@], 20),
{
    netsh::set_dhcp(iface)
}

/// The release and renew commands run one after the other.
pub fn release_renew(iface: &str) -> (r: (CmdSpec, CmdSpec))
    ensures
        runs(r.0, "ipconfig"@, seq!["/release"@, iface@], 20),
        runs(r.1, "ipconfig"@, seq!["/renew"@, iface@], 20),
{
    (netsh::ipconfig_release(iface), netsh::ipconfig_renew(iface))
}

/// One result for a release/renew pair: the renew decides success and exit
/// code; each stream is the release's and the renew's joined by a newline.
pub fn release_renew_output(rel: &CmdOutput, ren: &CmdOutput) -> (r: CmdOutput)
    ensures
        r.success == ren.success,
        r.exit_code == ren.exit_code,
        r.stdout@ == rel.stdout@ + "\n"@ + ren.stdout@,
        r.stderr@ == rel.stderr@ + "\n"@ + ren.stderr@,
{
    let mut stdout = rel.stdout.clone();
    stdout.append("\n");
    stdout.append(ren.stdout.as_str());
    let mut stderr = rel.stderr.clone();
    stderr.append("\n");
    stderr.append(ren.stderr.as_str());
    CmdOutput { success: ren.success, exit_code: ren.exit_code, stdout, stderr }
}

/// Turns IPv6 on or off globally.
pub fn set_ipv6(enabled: bool) -> (r: CmdSpec)
    ensures
        runs(
            r,
            "netsh"@,
            seq![
                "interface"@,
                "ipv6"@,
                "set"@,
                "state"@,
                if enabled {
                    "enabled"@
                } else {
                    "disabled"@
                },
            ], 20),
{
    let state = if enabled {
        "enabled"
    } else {
        "disabled"
    };
    let r = run_netsh(&["interface", "ipv6", "set", "state", state]);
    assert(views(r.args@) =~= seq!["interface"@, "ipv6"@, "set"@, "state"@, state@]);
    r
}

/// Global TCP tuning: normal receive-window auto-tuning and ECN.
pub fn tcp_optimize() -> (r: CmdSpec)
    ensures
        runs(
            r,
            "netsh"@,
            seq![
                "int"@,
                "tcp"@,
                "set"@,
                "global"@,
                "autotuninglevel=normal"@,
                "ecncapability=enabled"@,
            ], 20),
{
    let r = run_netsh(
        &["int", "tcp", "set", "global", "autotuninglevel=normal", "ecncapability=enabled"],
    );
    assert(views(r.args@) =~= seq![
        "int"@,
        "tcp"@,
        "set"@,
        "global"@,
        "autotuninglevel=normal"@,
        "ecncapability=enabled"@,
    ]);
    r
}

/// The query for the IPv6 `DisabledComponents` registry value.
pub const IPV6_QUERY_SCRIPT: &'static str = "$d=(Get-ItemProperty 'HKLM:\\SYSTEM\\CurrentControlSet\\Services\\Tcpip6\\Parameters' -Name DisabledComponents -ErrorAction SilentlyContinue).DisabledComponents; [PSCustomObject]@{ v=[int]$d } | ConvertTo-Json -Compress";

/// Whether IPv6 counts as enabled, given what the registry query gave:
/// no answer counts as enabled; otherwise enabled exactly when the value
/// `v` is zero or absent.
pub fn ipv6_enabled_from(answered: bool, v: Option<i64>) -> (r: bool)
    ensures
        r == (!answered || match v {
            Some(x) => x == 0,
            None => true,
        }),
{
    if !answered {
        return true;
    }
    match v {
        Some(x) => x == 0,
        None => true,
    }
}

} // verus!
