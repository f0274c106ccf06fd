//! The `netsh`, `ipconfig`, `route` and `arp` invocations the tool issues.
use vstd::prelude::*;
use vstd::string::*;

use crate::command::{console, CmdSpec};
use crate::topology::views;

verus! {

/// Whether `c` runs `program` on exactly the words `args`, reading console
/// text, and is given `secs` seconds to finish.
pub open spec fn runs(c: CmdSpec, program: Seq<char>, args: Seq<Seq<char>>, secs: u64) -> bool {
    c.program@ == program && views(c.args@) == args && !c.utf8 && c.timeout_secs == secs
}

/// The time limit of `netsh`, `ipconfig`, `route` and `arp` runs.
pub const NETSH_TIMEOUT_SECS: u64 = 20;

/// A `netsh` command with the given arguments.
pub fn run_netsh(args: &[&str]) -> (r: CmdSpec)
    ensures
        runs(r, "netsh"@, args@.map_values(|p: &str| p@), 20),
{
    console("netsh", args, NETSH_TIMEOUT_SECS)
}

/// The DNS configuration of an interface.
pub fn show_dns(iface: &str) -> (r: CmdSpec)
    ensures
        runs(r, "netsh"@, seq!["interface"@, "ip"@, "show"@, "dns"@, iface@], 20),
{
    let r = run_netsh(&["interface", "ip", "show", "dns", iface]);
    assert(views(r.args@) =~= seq!["interface"@, "ip"@, "show"@, "dns"@, iface@]);
    r
}

/// A static IPv4 DNS server.
pub fn set_dns(iface: &str, dns: &str) -> (r: CmdSpec)
    ensures
        runs(r, "netsh"@, seq!["interface"@, "ip"@, "set"@, "dns"@, iface@, "static"@, dns@], 20),
{
    let r = run_netsh(&["interface", "ip", "set", "dns", iface, "static", dns]);
    assert(views(r.args@) =~= seq![
        "interface"@,
        "ip"@,
        "set"@,
        "dns"@,
        iface@,
        "static"@,
        dns@,
    ]);
    r
}

/// A static IPv6 DNS server.
pub fn set_dns_v6(iface: &str, dns: &str) -> (r: CmdSpec)
    ensures
        runs(r, "netsh"@, seq!["interface"@, "ipv6"@, "set"@, "dns"@, iface@, "static"@, dns@], 20),
{
    let r = run_netsh(&["interface", "ipv6", "set", "dns", iface, "static", dns]);
    assert(views(r.args@) =~= seq![
        "interface"@,
        "ipv6"@,
        "set"@,
        "dns"@,
        iface@,
        "static"@,
        dns@,
    ]);
    r
}

/// A second IPv6 DNS server.
pub fn add_dns_v6(iface: &str, dns: &str) -> (r: CmdSpec)
    ensures
        runs(r, "netsh"@, seq!["interface"@, "ipv6"@, "add"@, "dns"@, iface@, dns@, "index=2"@], 20),
{
    let r = run_netsh(&["interface", "ipv6", "add", "dns", iface, dns, "index=2"]);
    assert(views(r.args@) =~= seq![
        "interface"@,
        "ipv6"@,
        "add"@,
        "dns"@,
        iface@,
        dns@,
        "index=2"@,
    ]);
    r
}

/// DNS servers from DHCP again.
pub fn set_dns_dhcp(iface: &str) -> (r: CmdSpec)
    ensures
        runs(r, "netsh"@, seq!["interface"@, "ip"@, "set"@, "dns"@, iface@, "dhcp"@], 20),
{
    let r = run_netsh(&["interface", "ip", "set", "dns", iface, "dhcp"]);
    assert(views(r.args@) =~= seq!["interface"@, "ip"@, "set"@, "dns"@, iface@, "dhcp"@]);
    r
}

/// A static IPv4 address, mask and gateway.
pub fn set_static_ip(iface: &str, ip: &str, mask: &str, gw: &str) -> (r: CmdSpec)
    ensures
        runs(
            r,
            "netsh"@,
            seq!["interface"@, "ip"@, "set"@, "address"@, iface@, "static"@, ip@, mask@, gw@], 20),
{
    let r = run_netsh(&["interface", "ip", "set", "address", iface, "static", ip, mask, gw]);
    assert(views(r.args@) =~= seq![
        "interface"@,
        "ip"@,
        "set"@,
        "address"@,
        iface@,
        "static"@,
        ip@,
        mask@,
        gw@,
    ]);
    r
}

/// The IPv4 address from DHCP again.
pub fn set_dhcp(iface: &str) -> (r: CmdSpec)
    ensures
        runs(r, "netsh"@, seq!["interface"@, "ip"@, "set"@, "address"@, iface@, "dhcp"@], 20),
{
    let r = run_netsh(&["interface", "ip", "set", "address", iface, "dhcp"]);
    assert(views(r.args@) =~= seq!["interface"@, "ip"@, "set"@, "address"@, iface@, "dhcp"@]);
    r
}

/// Flushes the DNS resolver cache.
pub fn flush_dns() -> (r: CmdSpec)
    ensures
        runs(r, "ipconfig"@, seq!["/flushdns"@], 20),
{
    let r = console("ipconfig", &["/flushdns"], NETSH_TIMEOUT_SECS);
    assert(views(r.args@) =~= seq!["/flushdns"@]);
    r
}

/// Releases the DHCP lease of an interface.
pub fn ipconfig_release(iface: &str) -> (r: CmdSpec)
    ensures
        runs(r, "ipconfig"@, seq!["/release"@, iface@], 20),
{
    let r = console("ipconfig", &["/release", iface], NETSH_TIMEOUT_SECS);
    assert(views(r.args@) =~= seq!["/release"@, iface@]);
    r
}

/// Renews the DHCP lease of an interface.
pub fn ipconfig_renew(iface: &str) -> (r: CmdSpec)
    ensures
        runs(r, "ipconfig"@, seq!["/renew"@, iface@], 20),
{
    let r = console("ipconfig", &["/renew", iface], NETSH_TIMEOUT_SECS);
    assert(views(r.args@) =~= seq!["/renew"@, iface@]);
    r
}

/// The full IP configuration listing.
pub fn ipconfig_all() -> (r: CmdSpec)
    ensures
        runs(r, "ipconfig"@, seq!["/all"@], 20),
{
    let r = console("ipconfig", &["/all"], NETSH_TIMEOUT_SECS);
    assert(views(r.args@) =~= seq!["/all"@]);
    r
}

/// The routing table.
pub fn route_print() -> (r: CmdSpec)
    ensures
        runs(r, "route"@, seq!["print"@], 20),
{
    let r = console("route", &["print"], NETSH_TIMEOUT_SECS);
    assert(views(r.args@) =~= seq!["print"@]);
    r
}

/// The ARP table.
pub fn arp_table() -> (r: CmdSpec)
    ensures
        runs(r, "arp"@, seq!["-a"@], 20),
{
    let r = console("arp", &["-a"], NETSH_TIMEOUT_SECS);
    assert(views(r.args@) =~= seq!["-a"@]);
    r
}

} // verus!
