//! The combined environment probe: the PowerShell script that gathers every
//! static network fact in one run, and the data it reports.
use vstd::prelude::*;
use vstd::string::*;

use crate::adapter::{has_index, Adapter};
use crate::seqs::{collect_somes, first_such, lemma_filter_take_step, lemma_first_hit, lemma_take_all, somes};
use crate::text::{decimal, push_decimal, replace_all, replace_str};

verus! {

broadcast use vstd::seq_lib::group_seq_properties;

/// Everything one probe run reports.
#[derive(Debug, Clone)]
pub struct NetProbe {
    pub is_admin: bool,
    pub adapters: Vec<Adapter>,
    pub active_index: u32,
    pub next_hop: String,
    pub ip: String,
    pub prefix_len: u32,
    pub gateway: String,
    pub dns: Vec<String>,
    pub dhcp_enabled: bool,
    pub mtu: u32,
    /// Number of default routes; more than one hints at several exits.
    pub route_count: u32,
    pub ie_proxy_enabled: bool,
    pub ie_proxy_server: String,
    pub winhttp_proxy: String,
    /// Whether the probe's name resolution succeeded.
    pub dns_ok: bool,
    pub ipv6_enabled: bool,
    pub mac: String,
    /// Network devices in an error state.
    pub problem_devices: Vec<String>,
    pub threat_count: u32,
    pub ipv6_addr: String,
    pub ipv6_prefix: u32,
    pub ipv6_gateway: String,
    pub ipv6_dns: Vec<String>,
    pub ipv6_static: bool,
}

impl Default for NetProbe {
    /// Nothing probed: no adapters, empty texts and lists, zero numbers,
    /// every flag false.
    fn default() -> (r: NetProbe)
        ensures
            !r.is_admin && !r.dhcp_enabled && !r.ie_proxy_enabled && !r.dns_ok,
            !r.ipv6_enabled && !r.ipv6_static,
            r.adapters@.len() == 0 && r.dns@.len() == 0 && r.problem_devices@.len() == 0
                && r.ipv6_dns@.len() == 0,
            r.active_index == 0 && r.prefix_len == 0 && r.mtu == 0 && r.route_count == 0
                && r.threat_count == 0 && r.ipv6_prefix == 0,
            r.next_hop@.len() == 0 && r.ip@.len() == 0 && r.gateway@.len() == 0,
            r.ie_proxy_server@.len() == 0 && r.winhttp_proxy@.len() == 0 && r.mac@.len() == 0,
            r.ipv6_addr@.len() == 0 && r.ipv6_gateway@.len() == 0,
    {
        NetProbe {
            is_admin: false,
            adapters: Vec::new(),
            active_index: 0,
            next_hop: String::new(),
            ip: String::new(),
            prefix_len: 0,
            gateway: String::new(),
            dns: Vec::new(),
            dhcp_enabled: false,
            mtu: 0,
            route_count: 0,
            ie_proxy_enabled: false,
            ie_proxy_server: String::new(),
            winhttp_proxy: String::new(),
            dns_ok: false,
            ipv6_enabled: false,
            mac: String::new(),
            problem_devices: Vec::new(),
            threat_count: 0,
            ipv6_addr: String::new(),
            ipv6_prefix: 0,
            ipv6_gateway: String::new(),
            ipv6_dns: Vec::new(),
            ipv6_static: false,
        }
    }
}

impl NetProbe {
    /// The internet adapter: the first adapter with the probed interface index.
    pub fn active_adapter(&self) -> (r: Option<&Adapter>)
        ensures
            match r {
                Some(a) => first_such(self.adapters@, has_index(self.active_index)) == Some(*a),
                None => first_such(self.adapters@, has_index(self.active_index)) is None,
            },
    {
        let ghost p = has_index(self.active_index);
        let mut i: usize = 0;
        while i < self.adapters.len()
            invariant
                i <= self.adapters@.len(),
                p == has_index(self.active_index),
                self.adapters@.take(i as int).filter(p).len() == 0,
            decreases self.adapters@.len() - i,
        {
            proof {
                lemma_filter_take_step(self.adapters@, p, i as int);
            }
            if self.adapters[i].interface_index == self.active_index {
                proof {
                    lemma_first_hit(self.adapters@, p, i as int);
                }
                return Some(&self.adapters[i]);
            }
            i = i + 1;
        }
        proof {
            lemma_take_all(self.adapters@);
        }
        None
    }
}

/// The probe script; `__IDX_SETUP__` marks where the interface is chosen.
pub const PROBE_SCRIPT: &'static str = r#"
$ErrorActionPreference='SilentlyContinue';
__IDX_SETUP__
$adapters=Get-NetAdapter | Select-Object InterfaceIndex,Name,InterfaceDescription,@{N='InterfaceType';E={[string]$_.InterfaceType}},Status,@{N='HardwareInterface';E={[bool]$_.HardwareInterface}};
$ipaddr=Get-NetIPAddress -InterfaceIndex $idx -AddressFamily IPv4 | Where-Object {$_.IPAddress -notlike '169.254*'} | Select-Object -First 1;
$ipiface=Get-NetIPInterface -InterfaceIndex $idx -AddressFamily IPv4;
$dnsv=Get-DnsClientServerAddress -InterfaceIndex $idx -AddressFamily IPv4 | Select-Object -ExpandProperty ServerAddresses;
$gateway=(Get-NetRoute -InterfaceIndex $idx -DestinationPrefix '0.0.0.0/0' | Select-Object -First 1).NextHop;
$p=Get-ItemProperty 'HKCU:\Software\Microsoft\Windows\CurrentVersion\Internet Settings';
$wh=((netsh winhttp show proxy) | Out-String);
$bad=@(Get-PnpDevice -Class Net -PresentOnly | Where-Object {$_.Status -eq 'Error' -or $_.Status -eq 'Unknown'} | Select-Object -ExpandProperty FriendlyName);
$threat=@(Get-MpThreat | Select-Object -ExpandProperty ThreatName);
$dnsok=[bool](Resolve-DnsName 'www.baidu.com' -DnsOnly -ErrorAction SilentlyContinue | Select-Object -First 1);
$mac=(Get-NetAdapter -InterfaceIndex $idx).MacAddress;
$ipv6a=@(Get-NetIPAddress -InterfaceIndex $idx -AddressFamily IPv6 -ErrorAction SilentlyContinue | Where-Object {$_.PrefixOrigin -ne 'WellKnown'});
$ipv6addr=$ipv6a | Where-Object {$_.AddressState -eq 'Preferred'} | Select-Object -First 1;
$ipv6gw=(Get-NetRoute -InterfaceIndex $idx -AddressFamily IPv6 -DestinationPrefix '::/0' -ErrorAction SilentlyContinue | Select-Object -First 1).NextHop;
$ipv6dns=@(Get-DnsClientServerAddress -InterfaceIndex $idx -AddressFamily IPv6 -ErrorAction SilentlyContinue | Select-Object -ExpandProperty ServerAddresses);
$ipv6static=if($ipv6addr){ ($ipv6addr.PrefixOrigin -eq 'Manual') -or ($ipv6addr.SuffixOrigin -eq 'Manual') }else{$false};
$ipv6bind=(Get-NetAdapterBinding -InterfaceIndex $idx -ComponentID ms_tcpip6 -ErrorAction SilentlyContinue).Enabled;
$ipv6reg=(Get-ItemProperty 'HKLM:\SYSTEM\CurrentControlSet\Services\Tcpip6\Parameters' -Name DisabledComponents -ErrorAction SilentlyContinue).DisabledComponents;
$regFullyDisabled=(([int]$ipv6reg) -band 0xFF) -eq 0xFF;
$ipv6_enabled=if($null -eq $ipv6bind){ -not $regFullyDisabled }else{ ([bool]$ipv6bind) -and (-not $regFullyDisabled) };
[PSCustomObject]@{
  admin=[bool]$admin;
  adapters=@($adapters);
  active_index=$idx;
  next_hop=[string]$gateway;
  route_count=$route_count;
  ip=[string]$ipaddr.IPAddress;
  prefix=[int]$ipaddr.PrefixLength;
  gateway=[string]$gateway;
  dns=@($dnsv | Where-Object {$_});
  dhcp=($ipiface.Dhcp -eq 'Enabled');
  mtu=[int]$ipiface.NlMtu;
  ie_proxy_enabled=($p.ProxyEnable -eq 1);
  ie_proxy_server=[string]$p.ProxyServer;
  winhttp_proxy=$wh;
  dns_ok=[bool]$dnsok;
  ipv6_addr=[string]$ipv6addr.IPAddress;
  ipv6_prefix=[int]($ipv6addr.PrefixLength);
  ipv6_gateway=[string]$ipv6gw;
  ipv6_dns=@($ipv6dns | Where-Object {$_});
  ipv6_static=[bool]$ipv6static;
  ipv6_enabled=[bool]$ipv6_enabled;
  mac=[string]$mac;
  problem_devices=@($bad);
  threat_count=@($threat).Count;
} | ConvertTo-Json -Compress -Depth 4
"#;

/// The interface choice when none is forced: the interface of the best
/// default route, and the number of default routes.
pub open spec fn auto_setup() -> Seq<char> {
    "$routes=@(Get-NetRoute -DestinationPrefix '0.0.0.0/0' | Sort-Object RouteMetric,InterfaceMetric);$route=$routes|Select-Object -First 1;$idx=$route.InterfaceIndex;$route_count=$routes.Count;"@
}

/// The interface choice for a forced interface index.
pub open spec fn forced_setup(i: u32) -> Seq<char> {
    "$idx="@ + decimal(i as nat) + ";$route_count=0;"@
}

/// The probe script for the automatically chosen interface, or for the given one.
pub open spec fn probe_script(forced: Option<u32>) -> Seq<char> {
    replace_all(
        PROBE_SCRIPT@,
        "__IDX_SETUP__"@,
        match forced {
            Some(i) => forced_setup(i),
            None => auto_setup(),
        },
    )
}

/// Builds the probe script (interface chosen automatically, or forced).
pub fn build_script(forced: Option<u32>) -> (r: String)
    ensures
        r@ == probe_script(forced),
{
    let setup = match forced {
        Some(i) => {
            let mut s = String::from_str("$idx=");
            push_decimal(&mut s, i as u64);
            s.append(";$route_count=0;");
            s
        },
        None => String::from_str("$routes=@(Get-NetRoute -DestinationPrefix '0.0.0.0/0' | Sort-Object RouteMetric,InterfaceMetric);$route=$routes|Select-Object -First 1;$idx=$route.InterfaceIndex;$route_count=$routes.Count;"),
    };
    proof {
        reveal_strlit("__IDX_SETUP__");
    }
    replace_str(PROBE_SCRIPT, "__IDX_SETUP__", setup.as_str())
}

/// The probe's report as read from its JSON object: each field as present
/// with the expected type, or `None`; list entries of another type are `None`.
#[derive(Debug)]
pub struct RawProbe {
    pub admin: Option<bool>,
    pub adapters: Option<Vec<Option<Adapter>>>,
    pub active_index: Option<u64>,
    pub next_hop: Option<String>,
    pub ip: Option<String>,
    pub prefix: Option<u64>,
    pub gateway: Option<String>,
    pub dns: Option<Vec<Option<String>>>,
    pub dhcp: Option<bool>,
    pub mtu: Option<u64>,
    pub route_count: Option<u64>,
    pub ie_proxy_enabled: Option<bool>,
    pub ie_proxy_server: Option<String>,
    pub winhttp_proxy: Option<String>,
    pub dns_ok: Option<bool>,
    pub ipv6_enabled: Option<bool>,
    pub mac: Option<String>,
    pub problem_devices: Option<Vec<Option<String>>>,
    pub threat_count: Option<u64>,
    pub ipv6_addr: Option<String>,
    pub ipv6_prefix: Option<u64>,
    pub ipv6_gateway: Option<String>,
    pub ipv6_dns: Option<Vec<Option<String>>>,
    pub ipv6_static: Option<bool>,
}

/// A reported flag; absent means false.
pub open spec fn flag_or_false(o: Option<bool>) -> bool {
    match o {
        Some(b) => b,
        None => false,
    }
}

/// A reported number, absent meaning zero, cut to its low 32 bits.
pub open spec fn low32_or_zero(o: Option<u64>) -> u32 {
    match o {
        Some(n) => (n % 0x1_0000_0000) as u32,
        None => 0,
    }
}

/// A reported text; absent means empty.
pub open spec fn text_or_empty(o: Option<String>) -> Seq<char> {
    match o {
        Some(s) => s@,
        None => Seq::empty(),
    }
}

/// The entries of a reported list that have the expected type; an absent
/// list has none.
pub open spec fn present_entries<A>(o: Option<Vec<Option<A>>>) -> Seq<A> {
    match o {
        Some(v) => somes(v@),
        None => Seq::empty(),
    }
}

fn flag_of(o: Option<bool>) -> (r: bool)
    ensures
        r == flag_or_false(o),
{
    match o {
        Some(b) => b,
        None => false,
    }
}

fn low32_of(o: Option<u64>) -> (r: u32)
    ensures
        r == low32_or_zero(o),
{
    match o {
        Some(n) => (n % 0x1_0000_0000) as u32,
        None => 0,
    }
}

fn text_of(o: Option<String>) -> (r: String)
    ensures
        r@ == text_or_empty(o),
{
    match o {
        Some(s) => s,
        None => String::new(),
    }
}

fn entries_of<A>(o: Option<Vec<Option<A>>>) -> (r: Vec<A>)
    ensures
        r@ == present_entries(o),
{
    match o {
        Some(v) => collect_somes(v),
        None => Vec::new(),
    }
}

/// The probe data from its raw report: absent flags are false, absent
/// numbers zero (kept to their low 32 bits), absent texts empty, and of each
/// list only the entries of the expected type.
pub fn probe_from_raw(raw: RawProbe) -> (p: NetProbe)
    ensures
        p.is_admin == flag_or_false(raw.admin),
        p.adapters@ == present_entries(raw.adapters),
        p.active_index == low32_or_zero(raw.active_index),
        p.next_hop@ == text_or_empty(raw.next_hop),
        p.ip@ == text_or_empty(raw.ip),
        p.prefix_len == low32_or_zero(raw.prefix),
        p.gateway@ == text_or_empty(raw.gateway),
        p.dns@ == present_entries(raw.dns),
        p.dhcp_enabled == flag_or_false(raw.dhcp),
        p.mtu == low32_or_zero(raw.mtu),
        p.route_count == low32_or_zero(raw.route_count),
        p.ie_proxy_enabled == flag_or_false(raw.ie_proxy_enabled),
        p.ie_proxy_server@ == text_or_empty(raw.ie_proxy_server),
        p.winhttp_proxy@ == text_or_empty(raw.winhttp_proxy),
        p.dns_ok == flag_or_false(raw.dns_ok),
        p.ipv6_enabled == flag_or_false(raw.ipv6_enabled),
        p.mac@ == text_or_empty(raw.mac),
        p.problem_devices@ == present_entries(raw.problem_devices),
        p.threat_count == low32_or_zero(raw.threat_count),
        p.ipv6_addr@ == text_or_empty(raw.ipv6_addr),
        p.ipv6_prefix == low32_or_zero(raw.ipv6_prefix),
        p.ipv6_gateway@ == text_or_empty(raw.ipv6_gateway),
        p.ipv6_dns@ == present_entries(raw.ipv6_dns),
        p.ipv6_static == flag_or_false(raw.ipv6_static),
{
    NetProbe {
        is_admin: flag_of(raw.admin),
        adapters: entries_of(raw.adapters),
        active_index: low32_of(raw.active_index),
        next_hop: text_of(raw.next_hop),
        ip: text_of(raw.ip),
        prefix_len: low32_of(raw.prefix),
        gateway: text_of(raw.gateway),
        dns: entries_of(raw.dns),
        dhcp_enabled: flag_of(raw.dhcp),
        mtu: low32_of(raw.mtu),
        route_count: low32_of(raw.route_count),
        ie_proxy_enabled: flag_of(raw.ie_proxy_enabled),
        ie_proxy_server: text_of(raw.ie_proxy_server),
        winhttp_proxy: text_of(raw.winhttp_proxy),
        dns_ok: flag_of(raw.dns_ok),
        ipv6_enabled: flag_of(raw.ipv6_enabled),
        mac: text_of(raw.mac),
        problem_devices: entries_of(raw.problem_devices),
        threat_count: low32_of(raw.threat_count),
        ipv6_addr: text_of(raw.ipv6_addr),
        ipv6_prefix: low32_of(raw.ipv6_prefix),
        ipv6_gateway: text_of(raw.ipv6_gateway),
        ipv6_dns: entries_of(raw.ipv6_dns),
        ipv6_static: flag_of(raw.ipv6_static),
    }
}

} // verus!
