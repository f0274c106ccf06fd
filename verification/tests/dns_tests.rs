use nmts::dns::{parse_rtt, rank, rtt_from_probes, DnsBench, DnsCategory, DnsDb, DnsProvider};

fn mk(country: &str, lat: Option<u32>) -> DnsBench {
    DnsBench {
        provider: DnsProvider {
            country: country.into(),
            name: "x".into(),
            category: "ipv4_default".into(),
            primary: "1.1.1.1".into(),
            secondary: String::new(),
            recommended: true,
        },
        latency_ms: lat,
        reachable: lat.is_some(),
    }
}

#[test]
fn rank_prefers_country_then_latency() {
    let v = vec![mk("US", Some(10)), mk("CN", Some(50)), mk("CN", Some(5))];
    let r = rank(v, "CN");
    assert_eq!(r[0].provider.country, "CN");
    assert_eq!(r[0].latency_ms, Some(5));
    assert_eq!(r[1].provider.country, "CN");
}

#[test]
fn rank_puts_unreachable_last_and_keeps_ties() {
    let mut a = mk("US", Some(7));
    a.provider.name = "a".into();
    let mut b = mk("US", Some(7));
    b.provider.name = "b".into();
    let v = vec![mk("US", None), a, b, mk("DE", Some(1))];
    let r = rank(v, "CN");
    assert_eq!(r.len(), 4);
    assert_eq!(r[0].latency_ms, Some(1));
    assert_eq!(r[1].provider.name, "a");
    assert_eq!(r[2].provider.name, "b");
    assert!(!r[3].reachable);
}

#[test]
fn parse_rtt_zh_en() {
    assert_eq!(parse_rtt("来自 223.5.5.5 的回复: 字节=32 时间=8ms TTL=117"), Some(8));
    assert_eq!(parse_rtt("Reply from 8.8.8.8: bytes=32 time=12ms TTL=117"), Some(12));
    assert_eq!(parse_rtt("时间<1ms TTL=64"), Some(0));
    assert_eq!(parse_rtt("请求超时"), None);
}

#[test]
fn rtt_from_probe_results() {
    assert_eq!(rtt_from_probes(Some(true), Some("99")), Some(0));
    assert_eq!(rtt_from_probes(Some(false), Some("42")), Some(42));
    assert_eq!(rtt_from_probes(None, Some("4294967296")), None);
    assert_eq!(rtt_from_probes(Some(false), None), None);
}

fn db() -> DnsDb {
    let cat = |id: &str, protocol: &str, kind: &str| DnsCategory {
        id: id.into(),
        protocol: protocol.into(),
        kind: kind.into(),
        label: String::new(),
    };
    let prov = |country: &str, name: &str, category: &str| DnsProvider {
        country: country.into(),
        name: name.into(),
        category: category.into(),
        primary: "1.1.1.1".into(),
        secondary: String::new(),
        recommended: false,
    };
    DnsDb {
        categories: vec![
            cat("ipv4_default", "ipv4", "default"),
            cat("ipv6_default", "ipv6", "default"),
            cat("ipv4_family", "ipv4", "family"),
        ],
        providers: vec![
            prov("CN", "a", "ipv4_default"),
            prov("US", "b", "ipv6_default"),
            prov("CN", "c", "ipv4_family"),
            prov("CN", "d", "unknown"),
        ],
    }
}

#[test]
fn filter_by_kind_and_protocol() {
    let d = db();
    let v4: Vec<String> = d
        .filter(&["default".into()], "ipv4")
        .into_iter()
        .map(|p| p.name)
        .collect();
    assert_eq!(v4, vec!["a"]);
    let both: Vec<String> = d
        .filter(&["default".into(), "family".into()], "both")
        .into_iter()
        .map(|p| p.name)
        .collect();
    assert_eq!(both, vec!["a", "b", "c"]);
}

#[test]
fn load_and_filter() {
    let d = db();
    let v4 = d.filter(&["default".into()], "ipv4");
    assert!(!v4.is_empty());
    assert!(v4.iter().any(|p| p.country == "CN"));
}
