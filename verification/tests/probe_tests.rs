use nmts::adapter::{adapters_from, Adapter, Listed};
use nmts::probe::{probe_from_raw, RawProbe};

fn s(x: &str) -> Option<String> {
    Some(x.to_string())
}

fn empty_raw() -> RawProbe {
    RawProbe {
        admin: None,
        adapters: None,
        active_index: None,
        next_hop: None,
        ip: None,
        prefix: None,
        gateway: None,
        dns: None,
        dhcp: None,
        mtu: None,
        route_count: None,
        ie_proxy_enabled: None,
        ie_proxy_server: None,
        winhttp_proxy: None,
        dns_ok: None,
        ipv6_enabled: None,
        mac: None,
        problem_devices: None,
        threat_count: None,
        ipv6_addr: None,
        ipv6_prefix: None,
        ipv6_gateway: None,
        ipv6_dns: None,
        ipv6_static: None,
    }
}

// The fields of {"admin":true,"adapters":[],"active_index":9,"next_hop":"1.2.3.4",
// "ip":"192.168.1.1","prefix":24,"gateway":"1.2.3.4","dns":["223.5.5.5"],"dhcp":true,
// "mtu":1500,"ie_proxy_enabled":false,"ie_proxy_server":"","winhttp_proxy":"direct",
// "ipv6_addr":"","ipv6_prefix":0,"ipv6_gateway":"","ipv6_dns":[],"ipv6_static":false,
// "ipv6_enabled":true,"problem_devices":[],"threat_count":0}
#[test]
fn parse_minimal() {
    let raw = RawProbe {
        admin: Some(true),
        adapters: Some(vec![]),
        active_index: Some(9),
        next_hop: s("1.2.3.4"),
        ip: s("192.168.1.1"),
        prefix: Some(24),
        gateway: s("1.2.3.4"),
        dns: Some(vec![s("223.5.5.5")]),
        dhcp: Some(true),
        mtu: Some(1500),
        route_count: None,
        ie_proxy_enabled: Some(false),
        ie_proxy_server: s(""),
        winhttp_proxy: s("direct"),
        dns_ok: None,
        ipv6_enabled: Some(true),
        mac: None,
        problem_devices: Some(vec![]),
        threat_count: Some(0),
        ipv6_addr: s(""),
        ipv6_prefix: Some(0),
        ipv6_gateway: s(""),
        ipv6_dns: Some(vec![]),
        ipv6_static: Some(false),
    };
    let p = probe_from_raw(raw);
    assert!(p.is_admin);
    assert_eq!(p.active_index, 9);
    assert_eq!(p.dns.len(), 1);
    assert_eq!(p.mtu, 1500);
    assert!(p.ipv6_enabled);
}

#[test]
fn probe_defaults_and_filtering() {
    let mut raw = empty_raw();
    raw.dns = Some(vec![s("8.8.8.8"), None, s("1.1.1.1")]);
    raw.mtu = Some((1u64 << 32) + 1400);
    raw.adapters = Some(vec![None, Some(Adapter { interface_index: 7, ..Default::default() })]);
    let p = probe_from_raw(raw);
    assert!(!p.is_admin);
    assert_eq!(p.dns, vec!["8.8.8.8", "1.1.1.1"]);
    assert_eq!(p.mtu, 1400);
    assert_eq!(p.adapters.len(), 1);
    assert_eq!(p.adapters[0].interface_index, 7);
    assert_eq!(p.next_hop, "");
    assert_eq!(p.route_count, 0);
    assert!(p.problem_devices.is_empty());
    assert_eq!(p.active_adapter().map(|a| a.interface_index), None);
}

fn named(i: u32, n: &str) -> Adapter {
    Adapter { interface_index: i, name: n.into(), ..Default::default() }
}

#[test]
fn parse_single_or_array() {
    // {"InterfaceIndex":12,"Name":"以太网"}
    let single = Listed::One(Some(named(12, "以太网")));
    assert_eq!(adapters_from(single).len(), 1);
    // [{"InterfaceIndex":12,"Name":"以太网"},{"InterfaceIndex":1,"Name":"Loopback"}]
    let arr = Listed::Many(vec![Some(named(12, "以太网")), Some(named(1, "Loopback"))]);
    assert_eq!(adapters_from(arr).len(), 2);
}

#[test]
fn listing_skips_unreadable_entries() {
    let v = adapters_from(Listed::Many(vec![None, Some(named(3, "a")), None]));
    assert_eq!(v.len(), 1);
    assert_eq!(v[0].name, "a");
    assert!(adapters_from(Listed::One(None)).is_empty());
    assert!(adapters_from(Listed::Neither).is_empty());
}
