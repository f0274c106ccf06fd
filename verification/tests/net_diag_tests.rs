use nmts::adapter::Adapter;
use nmts::command::CmdOutput;
use nmts::net_diag::{
    dns_resolve_ok, ip_config_script, ping_ok, summarize, BasicProbes, CheckResult, DiagContext,
    Diagnoser, Fix, FixKind, IeProxy, IpConfig, Layer, Status,
};

#[test]
fn summarize_counts() {
    let r = vec![
        CheckResult {
            id: "a",
            name: "a".into(),
            layer: Layer::Basic,
            status: Status::Normal,
            detail: String::new(),
            fix: None,
            scope: None,
        },
        CheckResult {
            id: "b",
            name: "b".into(),
            layer: Layer::Basic,
            status: Status::Error,
            detail: String::new(),
            fix: Some(Fix {
                kind: FixKind::Auto("ipconfig /flushdns".into()),
                label: "x".into(),
            }),
            scope: None,
        },
    ];
    let s = summarize(&r);
    assert!(s.contains("正常 1"));
    assert!(s.contains("异常 1"));
    assert!(s.contains("可自动修复 1"));
}

#[test]
fn summarize_exact_sentence() {
    assert_eq!(summarize(&[]), "检测完成：正常 0 项。");
    let warn = CheckResult {
        id: "w",
        name: "w".into(),
        layer: Layer::Basic,
        status: Status::Warn,
        detail: String::new(),
        fix: Some(Fix { kind: FixKind::Manual("m".into()), label: "l".into() }),
        scope: None,
    };
    assert_eq!(summarize(&[warn]), "检测完成：正常 0 项，警告 1 项，需手动处理 1 项。");
}

#[test]
fn apipa_detection() {
    assert!(IpConfig { ip: "169.254.1.1".into(), ..Default::default() }.ip.starts_with("169.254."));
}

fn physical() -> Adapter {
    Adapter {
        interface_index: 7,
        name: "以太网".into(),
        description: "Realtek PCIe GbE".into(),
        interface_type: "Ethernet".into(),
        status: "Up".into(),
        hardware_interface: true,
    }
}

fn diagnoser(active: Option<Adapter>, adapters: Vec<Adapter>) -> Diagnoser {
    Diagnoser::new(DiagContext { active_adapter: active, adapters, is_admin: false })
}

#[test]
fn active_adapter_verdicts() {
    let d = diagnoser(Some(physical()), vec![physical()]);
    let r = d.check_active_adapter();
    assert_eq!(r.status, Status::Normal);
    assert_eq!(r.detail, "当前上网网卡「以太网」（物理，Up），判定为物理网卡。");
    assert_eq!(r.scope.as_deref(), Some("以太网"));
    let none = diagnoser(None, vec![]).check_active_adapter();
    assert_eq!(none.status, Status::Error);
    assert!(matches!(none.fix.unwrap().kind, FixKind::Manual(_)));
}

#[test]
fn dhcp_failure_offers_renew() {
    let d = diagnoser(Some(physical()), vec![]);
    let cfg = Some(IpConfig { ip: "169.254.3.4".into(), ..Default::default() });
    let r = d.check_dhcp_ip(&cfg);
    assert_eq!(r.status, Status::Error);
    match r.fix.unwrap().kind {
        FixKind::Auto(c) => assert_eq!(c, "ipconfig /release \"以太网\" && ipconfig /renew \"以太网\""),
        _ => panic!("expected an automatic fix"),
    }
}

#[test]
fn dhcp_without_gateway_warns() {
    let d = diagnoser(Some(physical()), vec![]);
    let cfg = Some(IpConfig {
        ip: "192.168.1.9".into(),
        prefix_len: 24,
        dhcp_enabled: true,
        ..Default::default()
    });
    let r = d.check_dhcp_ip(&cfg);
    assert_eq!(r.status, Status::Warn);
    assert_eq!(
        r.detail,
        "网卡「以太网」DHCP 自动获取：IP 192.168.1.9，前缀长度 24，网关 无。 未发现默认网关。"
    );
}

#[test]
fn gateway_ping_target_and_verdict() {
    let d = diagnoser(Some(physical()), vec![]);
    let cfg = Some(IpConfig { ip: "192.168.1.9".into(), gateway: "192.168.1.1".into(), ..Default::default() });
    assert_eq!(d.gateway_target(&cfg).as_deref(), Some("192.168.1.1"));
    assert_eq!(d.check_gateway_ping(&cfg, true).status, Status::Normal);
    let bad = d.check_gateway_ping(&cfg, false);
    assert_eq!(bad.status, Status::Error);
    assert_eq!(bad.detail, "网关 192.168.1.1 不可达，局域网链路可能中断。");
    assert!(diagnoser(None, vec![]).gateway_target(&cfg).is_none());
}

#[test]
fn proxy_detection() {
    let d = diagnoser(None, vec![]);
    let direct = IeProxy::default();
    assert_eq!(d.check_system_proxy("当前的 WinHTTP 代理服务器设置: 直接访问(没有代理服务器)。", &direct).status, Status::Normal);
    assert_eq!(d.check_system_proxy("Current WinHTTP proxy settings: Direct Access (no proxy server).", &direct).status, Status::Normal);
    let ie = IeProxy { enabled: true, server: "127.0.0.1:7890".into() };
    let r = d.check_system_proxy("Direct access", &ie);
    assert_eq!(r.status, Status::Warn);
    assert_eq!(r.detail, "检测到系统代理已开启： 系统代理 127.0.0.1:7890");
    let w = d.check_system_proxy("Proxy Server(s): 10.0.0.1:8080", &direct);
    assert_eq!(w.detail, "检测到系统代理已开启： WinHTTP 代理已设置；");
}

#[test]
fn virtual_nic_interference() {
    let vpn = Adapter {
        interface_index: 9,
        name: "WireGuard Tunnel".into(),
        description: "VPN adapter".into(),
        interface_type: String::new(),
        status: "up".into(),
        hardware_interface: true,
    };
    let d = diagnoser(Some(physical()), vec![physical(), vpn.clone()]);
    let r = d.check_virtual_nic();
    assert_eq!(r.status, Status::Warn);
    assert_eq!(r.detail, "检测到启用的虚拟网卡：WireGuard Tunnel（仅供参考，不计入上网判定）。");
    let d2 = diagnoser(Some(vpn.clone()), vec![vpn]);
    assert_eq!(d2.check_virtual_nic().status, Status::Error);
    assert_eq!(diagnoser(None, vec![physical()]).check_virtual_nic().status, Status::Normal);
}

#[test]
fn dispatch_by_check_id() {
    let d = diagnoser(Some(physical()), vec![physical()]);
    let probes = BasicProbes {
        ip_config: None,
        next_hop: Some("192.168.1.1".into()),
        gateway_reachable: false,
        dns_ok: true,
        winhttp: "直接访问".into(),
        ie_proxy: IeProxy::default(),
    };
    for id in Diagnoser::basic_check_ids() {
        assert_eq!(d.run_basic_check(id, &probes).id, id);
    }
    assert_eq!(Diagnoser::basic_check_names().len(), 7);
    let r = d.run_basic_check("default_route", &probes);
    assert_eq!(r.detail, "存在默认路由，下一跳 192.168.1.1");
    let u = d.run_basic_check("nope", &probes);
    assert_eq!((u.id, u.status), ("unknown", Status::Info));
    let dns = d.run_basic_check("dns_resolve", &probes);
    assert_eq!(dns.status, Status::Normal);
}

#[test]
fn ping_and_lookup_output() {
    let out = |success: bool, stdout: &str, stderr: &str| CmdOutput {
        success,
        exit_code: None,
        stdout: stdout.into(),
        stderr: stderr.into(),
    };
    assert!(ping_ok(&out(false, "Reply from 1.1.1.1: bytes=32 time=3ms ttl=57", "")));
    assert!(!ping_ok(&out(false, "Request timed out.", "")));
    assert!(ping_ok(&out(true, "", "")));
    assert!(dns_resolve_ok(&out(true, "Name: www.baidu.com\nAddresses: 1.2.3.4", "")));
    assert!(!dns_resolve_ok(&out(true, "Address: 1.1.1.1", "*** can't find x: Non-existent domain")));
    assert!(!dns_resolve_ok(&out(false, "", "")));
}

#[test]
fn ip_config_query_names_interface() {
    let s = ip_config_script(12);
    assert!(s.starts_with("$c=Get-NetIPConfiguration -InterfaceIndex 12 -ErrorAction SilentlyContinue;"));
    assert!(s.ends_with("| ConvertTo-Json -Compress"));
}

#[test]
fn labels() {
    assert_eq!(Layer::Basic.label(), "基础层");
    assert_eq!(Status::Normal.label(), "正常");
    assert_eq!(nmts::widgets::status_icon(Status::Error), "✗");
}

#[test]
fn every_check_is_scoped_to_the_internet_adapter() {
    let mut vpn = physical();
    vpn.name = "VPN".into();
    vpn.hardware_interface = false;
    let d = diagnoser(Some(physical()), vec![physical(), vpn]);
    let probes = BasicProbes {
        ip_config: Some(IpConfig { ip: "192.168.1.5".into(), gateway: "192.168.1.1".into(), ..Default::default() }),
        next_hop: None,
        gateway_reachable: true,
        dns_ok: false,
        winhttp: "Proxy Server(s) : 10.0.0.1:8080".into(),
        ie_proxy: IeProxy { enabled: true, server: "10.0.0.1:8080".into() },
    };
    for id in Diagnoser::basic_check_ids() {
        let r = d.run_basic_check(id, &probes);
        assert!(r.scope.is_none() || r.scope.as_deref() == Some(physical().name.as_str()), "{id}");
    }
}
