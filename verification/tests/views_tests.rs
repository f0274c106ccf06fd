use nmts::adapter::{default_route_prefixes, route_script, ADAPTER_LIST_SCRIPT};
use nmts::backup::{ip_dump, ip_restore_outcome, netsh_script, registry_export, wlan_export, wlan_import};
use nmts::command::{stream_text, CmdOutput, CmdSpec};
use nmts::design_check::fits_graph;
use nmts::dns::{bench_candidates, bench_result, dns_ping_command, DnsBench, DnsProvider};
use nmts::keys::{Key, UiState};
use nmts::net_diag::{ie_proxy_from_raw, ip_config_from_raw, nslookup_command, ping_command, CheckResult, Fix, FixKind, Layer, Status};
use nmts::net_set::ipv6_enabled_from;
use nmts::netsh::run_netsh;
use nmts::powershell::run_ps;
use nmts::panel::quick_panel;
use nmts::probe::NetProbe;
use nmts::quick::finish_dns_test;
use nmts::state::{trace_command, trace_log, field_labels, BackupState, DiagState, DnsState, QuickSetState, TermState, TopoState};
use nmts::topology::demo_topology;
use nmts::serial::PortInfo;
use nmts::vendor_cli::{Category, CommandTemplate, VendorDb, VendorTemplate};
use nmts::views::{
    backup_action_at, backup_action_items, cli_panel_lines, command_items, dns_items, dns_tip, device_items, diag_items, drill_lines, field_marker,
    field_value, footer_text,
    finding_items, port_items, topo_list_items, BackupAction,
};

fn provider(name: &str, country: &str) -> DnsProvider {
    DnsProvider {
        country: country.into(),
        name: name.into(),
        category: "ipv4_default".into(),
        primary: "1.1.1.1".into(),
        secondary: String::new(),
        recommended: false,
    }
}

#[test]
fn check_list_rows() {
    let mut d = DiagState::default();
    let idle = diag_items(&d);
    assert_eq!(idle.len(), 4);
    assert_eq!(idle[0], " 尚未运行诊断。");
    assert_eq!(idle[1], "");
    d.started = true;
    d.names = vec!["DNS 解析".into(), "网关连通性".into()];
    d.results = vec![
        Some(CheckResult {
            id: "dns_resolve",
            name: "DNS 解析".into(),
            layer: Layer::Basic,
            status: Status::Error,
            detail: "失败".into(),
            fix: Some(Fix { kind: FixKind::Auto("ipconfig /flushdns".into()), label: "刷新".into() }),
            scope: None,
        }),
        None,
    ];
    d.summary = Some("检测完成".into());
    assert_eq!(
        diag_items(&d),
        vec!["✗ DNS 解析 [异常] 失败  → [一键修复]", "… 网关连通性 [检测中…] ", "", "▶ 检测完成"]
    );
}

#[test]
fn form_cells() {
    assert_eq!(field_marker(true, false), " ▶ ");
    assert_eq!(field_marker(true, true), " ▸ ");
    assert_eq!(field_marker(false, false), "   ");
    assert_eq!(field_value("", false, true), "（自动获取）");
    assert_eq!(field_value("10.0.0.1", true, false), "10.0.0.1_");
    assert_eq!(field_value("", false, false), "（未填）");
    assert_eq!(field_value("x", false, false), "x");
    assert_eq!(field_labels(), vec!["网关", "子网掩码", "IP 地址", "主 DNS", "备 DNS"]);
}

#[test]
fn backup_commands() {
    let args = |c: &CmdSpec| c.args.clone();
    assert_eq!(ip_dump().program, "netsh");
    assert_eq!(args(&ip_dump()), vec!["interface", "ip", "dump"]);
    assert_eq!(args(&wlan_export("C:\\w")), vec!["wlan", "export", "profile", "folder=", "C:\\w", "key=clear"]);
    assert_eq!(registry_export("r.reg").program, "reg");
    assert_eq!(
        args(&registry_export("r.reg")),
        vec!["export", "HKCU\\Software\\Microsoft\\Windows\\CurrentVersion\\Internet Settings", "r.reg", "/y"]
    );
    assert_eq!(args(&netsh_script("d.txt")), vec!["-f", "d.txt"]);
    assert_eq!(args(&wlan_import("p.xml")), vec!["wlan", "add", "profile", "filename=", "p.xml"]);
    let bad = CmdOutput { success: false, exit_code: Some(1), stdout: "x".into(), stderr: String::new() };
    assert_eq!(ip_restore_outcome(&bad), Err("恢复 IP 配置失败: x".to_string()));
    let good = CmdOutput { success: true, exit_code: Some(0), stdout: String::new(), stderr: String::new() };
    assert_eq!(ip_restore_outcome(&good), Ok(()));
}

#[test]
fn dns_speed_test_pieces() {
    let ps = vec![provider("a", "US"), provider("b", "CN"), provider("c", "CN")];
    let first = bench_candidates(&ps, 2);
    assert_eq!(first.len(), 2);
    assert_eq!(first[1].name, "b");
    assert_eq!(bench_candidates(&ps, 15).len(), 3);
    assert_eq!(dns_ping_command("8.8.8.8").args, vec!["-n", "1", "-w", "1000", "8.8.8.8"]);
    let r = bench_result(provider("a", "US"), None);
    assert!(!r.reachable);
    let u = finish_dns_test(
        vec![bench_result(provider("a", "US"), Some(3)), bench_result(provider("b", "CN"), Some(40))],
        "CN",
    );
    assert_eq!(u.results[0].provider.name, "b");
    assert_eq!(u.status, "测速完成，↑/↓ 选择 · Enter 应用 · Esc 返回");
    assert_eq!(finish_dns_test(vec![], "CN").status, "无可达候选 DNS");
}

#[test]
fn reported_fields_with_defaults() {
    let c = ip_config_from_raw(Some("10.0.0.2".into()), Some(24), None, Some(vec![None, Some("1.1.1.1".into())]), None);
    assert_eq!(c.ip, "10.0.0.2");
    assert_eq!(c.prefix_len, 24);
    assert_eq!(c.gateway, "");
    assert_eq!(c.dns, vec!["1.1.1.1"]);
    assert!(!c.dhcp_enabled);
    let p = ie_proxy_from_raw(Some(true), None);
    assert!(p.enabled);
    assert_eq!(p.server, "");
    assert!(ipv6_enabled_from(false, None));
    assert!(ipv6_enabled_from(true, None));
    assert!(ipv6_enabled_from(true, Some(0)));
    assert!(!ipv6_enabled_from(true, Some(255)));
    let n = NetProbe::default();
    assert!(n.adapters.is_empty());
    assert_eq!(n.mtu, 0);
}

#[test]
fn queries_and_decoding() {
    assert!(ADAPTER_LIST_SCRIPT.starts_with("Get-NetAdapter -ErrorAction SilentlyContinue"));
    assert_eq!(default_route_prefixes(), vec!["0.0.0.0/0", "::/0"]);
    assert!(route_script("::/0").starts_with("Get-NetRoute -DestinationPrefix '::/0' -ErrorAction"));
    let utf8 = CmdSpec { program: "powershell".into(), args: vec![], utf8: true, timeout_secs: 30 };
    let gbk = CmdSpec { program: "netsh".into(), args: vec![], utf8: false, timeout_secs: 20 };
    assert_eq!(stream_text(&utf8, "中文".as_bytes().to_vec()), "中文");
    assert_eq!(stream_text(&gbk, vec![0xD6, 0xD0, 0xCE, 0xC4]), "中文");
    assert!(fits_graph(&demo_topology()));
}

#[test]
fn every_key_is_handled_in_a_fresh_state() {
    let mut s = UiState {
        tab: 0,
        show_help: false,
        running: true,
        ipv6_on: false,
        diag: DiagState::default(),
        quick_set: QuickSetState::default(),
        term: TermState::default(),
        dns: DnsState::default(),
        topo: TopoState::default(),
        backup: BackupState::default(),
        vendor_db: VendorDb::empty(),
    };
    assert!(s.keys_handled());
    for k in [Key::Tab, Key::Down, Key::Enter, Key::Char('x'), Key::Esc, Key::BackTab] {
        assert!(s.keys_handled());
        s.on_key(k, false);
    }
    s.quick_set.editing = true;
    s.quick_set.field_idx = 5;
    assert!(!s.keys_handled());
    // only the keys that would push past the edited field are undefined
    s.tab = 1;
    assert!(!s.key_defined(Key::Backspace, false));
    assert!(!s.key_defined(Key::Char('7'), false));
    assert!(s.key_defined(Key::Char('q'), false));
    assert!(s.key_defined(Key::Tab, false));
    assert!(s.key_defined(Key::Up, false));
    s.quick_set.field_idx = usize::MAX;
    assert!(!s.key_defined(Key::Down, false));
    s.quick_set.editing = false;
    s.tab = usize::MAX;
    assert!(!s.key_defined(Key::Tab, false));
    assert!(s.key_defined(Key::Esc, false));
}

#[test]
fn topology_panels() {
    let mut t = TopoState::default();
    t.new_demo();
    assert_eq!(topo_list_items(&t), vec![" [新建拓扑图]  (N)", " [导入拓扑图]  (I)", "  演示拓扑", "▶ 拓扑2"]);
    let rows = device_items(&t.entries[0]);
    assert_eq!(rows[0], " 核心交换机 [华为·核心]");
    assert_eq!(rows[5], "");
    assert_eq!(rows[6], " 链路：");
    assert!(rows[7].starts_with("   core ↔ dist"));
    assert_eq!(rows.len(), 5 + 2 + t.entries[0].topology.links.len());
    let findings = finding_items(&t);
    assert_eq!(findings.len(), t.entries[1].findings.len().max(1));
    t.selected = 9;
    assert_eq!(finding_items(&t), vec![" （无拓扑）"]);
}

#[test]
fn terminal_and_backup_panels() {
    assert_eq!(port_items(&[]), vec![" （未检测到串口）"]);
    let ports = vec![PortInfo { name: "COM3".into(), description: "USB 串口".into() }];
    assert_eq!(port_items(&ports), vec![" COM3 — USB 串口"]);
    let cmd = |id: &str, cat: &str| CommandTemplate {
        id: id.into(),
        category: cat.into(),
        label: "查看版本".into(),
        command: "display version".into(),
        args: vec![],
        interactive: false,
        confirm: None,
    };
    let v = VendorTemplate {
        vendor: "huawei_vrp".into(),
        label: "华为 (VRP)".into(),
        prompt_features: vec![],
        enter_config: String::new(),
        exit_config: String::new(),
        show_run: String::new(),
        save_config: String::new(),
        categories: vec![Category { id: "info".into(), label: "信息".into() }],
        commands: vec![cmd("v", "info"), cmd("w", "other")],
    };
    assert_eq!(command_items(&v), vec!["查看版本  [信息]  display version", "查看版本  []  display version"]);
    let rows = backup_action_items();
    assert_eq!(rows.len(), 4);
    assert_eq!(rows[2], "恢复最近备份 — netsh -f + wlan add + reg import");
    assert_eq!(backup_action_at(1), Some(BackupAction::BackupDevice));
    assert_eq!(backup_action_at(3), Some(BackupAction::Refresh));
    assert_eq!(backup_action_at(4), None);
}

#[test]
fn command_line_modes() {
    use_cli();
}

fn use_cli() {
    let quick = nmts::cli::Cli { command: Some(nmts::cli::Commands::Diag { quick: true }) };
    assert!(quick.quick_diag());
    let slow = nmts::cli::Cli { command: Some(nmts::cli::Commands::Diag { quick: false }) };
    assert!(!slow.quick_diag());
    assert!(!nmts::cli::Cli { command: None }.quick_diag());
}

#[test]
fn quick_settings_panel_lines() {
    let qs = QuickSetState::default();
    let p = quick_panel(&qs, false, "", &None);
    assert_eq!(
        p.lines,
        vec![
            " IPv4",
            " ▶  静态 IP / DHCP [关]",
            "    网关: （自动获取）",
            "    子网掩码: （自动获取）",
            "    IP 地址: （自动获取）",
            "    主 DNS: （自动获取）",
            "    备 DNS: （自动获取）",
            " IPv6",
            "    启用 IPv6 [关]",
            " MAC：（未知）",
            "    高级设置 ▸",
        ]
    );
    assert_eq!(p.selected, 1);

    let mut qs = QuickSetState::default();
    qs.ipv4_static = true;
    qs.advanced_open = true;
    qs.ipv4_fields[2] = "192.168.1.9".to_string();
    qs.editing = true;
    qs.field_idx = 2;
    // rows: IPv4 switch, five fields, IPv6 switch, five IPv6 fields, advanced switch, four actions
    qs.focus = 3;
    qs.result = Some("✓ 完成".to_string());
    let p = quick_panel(&qs, true, "AA-BB", &Some("测速中".to_string()));
    assert_eq!(p.lines[4], " ▸  IP 地址: 192.168.1.9_");
    assert_eq!(p.selected, 4);
    assert_eq!(p.lines[8], "    启用 IPv6 [开]");
    assert_eq!(p.lines[9], "    网关: （未填）");
    assert_eq!(p.lines[14], " MAC：AA-BB");
    assert_eq!(p.lines[15], "    高级设置 ▾");
    assert_eq!(p.lines[16], "      刷新 DNS 缓存");
    assert_eq!(p.lines[20], "");
    assert_eq!(p.lines[21], " ✓ 完成");
    assert_eq!(p.lines[22], " DNS：测速中");
    assert_eq!(p.lines.len(), 23);

    // focus on the third advanced action
    qs.focus = 1 + 5 + 1 + 5 + 1 + 2;
    qs.editing = false;
    let p = quick_panel(&qs, true, "AA-BB", &None);
    assert_eq!(p.selected, 18);
    assert_eq!(p.lines[18], " ▶    DNS 优选（测速排名）");
}

#[test]
fn drawer_and_footer_lines() {
    let mut d = DiagState::default();
    assert!(drill_lines(&d).is_empty());
    d.names = vec!["DNS".to_string()];
    d.results = vec![Some(CheckResult {
        id: "dns",
        name: "DNS".to_string(),
        layer: Layer::External,
        status: Status::Error,
        detail: "解析失败".to_string(),
        fix: Some(Fix { kind: FixKind::Auto("ipconfig /flushdns".to_string()), label: "刷新 DNS".to_string() }),
        scope: None,
    })];
    d.selected = 0;
    let lines = drill_lines(&d);
    assert_eq!(
        lines,
        vec![" ✗ DNS", " 详情：解析失败", "", " 子动作（↑/↓ · Enter 执行）", "  （无可用子动作）", "", " 修复：刷新 DNS"]
    );
    d.selected = 1;
    assert!(drill_lines(&d).is_empty());

    assert_eq!(footer_text(&None, &None, 2), "Tab 3/5 — Enter/R 运行诊断 · ←/→ 切换模块 · H 帮助 · Q 退出");
    assert_eq!(footer_text(&None, &Some("体检完成".to_string()), 0), "体检完成");
    assert_eq!(footer_text(&Some("已导出".to_string()), &Some("体检完成".to_string()), 0), "已导出");
}

#[test]
fn route_trace_log() {
    let c = trace_command();
    assert_eq!(c.program, "tracert");
    assert_eq!(c.args, vec!["-d", "-h", "8", "223.5.5.5"]);
    let out = "\r\n通过最多 8 个跃点跟踪到 223.5.5.5 的路由\r\n\r\n  1    <1 毫秒    <1 毫秒    <1 毫秒 192.168.1.1  \r\n   \r\n跟踪完成。\r\n";
    assert_eq!(
        trace_log(out),
        vec![
            "  通过最多 8 个跃点跟踪到 223.5.5.5 的路由",
            "    1    <1 毫秒    <1 毫秒    <1 毫秒 192.168.1.1",
            "  跟踪完成。",
        ]
    );
}

#[test]
fn configuration_preview_lines() {
    let mut t = TopoState::default();
    t.new_demo();
    t.selected = 0;
    t.dev_idx = 0;
    t.status = None;
    assert_eq!(cli_panel_lines(&t), vec![" 拓扑：演示拓扑", " 设备：核心交换机（华为）", " 按 Enter 生成选中设备的 CLI"]);
    t.cli = Some("sysname core\r\nvlan batch 10 20\n".to_string());
    t.status = Some("已导出".to_string());
    assert_eq!(
        cli_panel_lines(&t),
        vec![" 拓扑：演示拓扑", " 设备：核心交换机（华为）", " sysname core", " vlan batch 10 20", "", " 已导出"]
    );
    t.dev_idx = 99;
    t.selected = 7;
    t.cli = None;
    t.status = None;
    assert_eq!(cli_panel_lines(&t), vec![" 按 Enter 生成选中设备的 CLI"]);
}

#[test]
fn dns_ranking_rows() {
    let mut a = provider("阿里 DNS", "CN");
    a.primary = "223.5.5.5".to_string();
    a.secondary = "223.6.6.6".to_string();
    let mut b = provider("Cloudflare IPv6 Public Resolver", "US");
    b.category = "ipv6_default".to_string();
    let results = vec![
        DnsBench { provider: a, latency_ms: Some(12), reachable: true },
        DnsBench { provider: b, latency_ms: None, reachable: false },
    ];
    assert_eq!(
        dns_items(&results),
        vec![
            " 1. [IPv4] 阿里 DNS           [CN] 12ms",
            " 2. [IPv6] Cloudflare IPv6 Public Resolver [US] 超时 [不可达]",
        ]
    );
    assert_eq!(dns_tip(&results[0]), " 将应用：[IPv4] 阿里 DNS（223.5.5.5 / 223.6.6.6），应用前自动备份");
    assert_eq!(dns_tip(&results[1]), " 该候选不可达");
    let many: Vec<DnsBench> = (0..12).map(|_| results[0].clone()).collect();
    assert!(dns_items(&many)[11].starts_with("12. [IPv4]"));
}

#[test]
fn command_time_limits() {
    let n = run_netsh(&["winhttp", "show", "proxy"]);
    assert_eq!(n.program, "netsh");
    assert_eq!(n.args, vec!["winhttp", "show", "proxy"]);
    assert_eq!(n.timeout_secs, 20);
    assert_eq!(run_ps("Get-NetAdapter").timeout_secs, 30);
    assert_eq!(netsh_script("a.txt").timeout_secs, 30);
    assert_eq!(wlan_import("w.xml").timeout_secs, 15);
    assert_eq!(registry_export("r.reg").timeout_secs, 20);
    assert_eq!(ip_dump().timeout_secs, 20);
    assert_eq!(dns_ping_command("223.5.5.5").timeout_secs, 4);
    assert_eq!(ping_command("192.168.1.1").timeout_secs, 10);
    assert_eq!(nslookup_command("www.baidu.com").timeout_secs, 15);
    assert_eq!(trace_command().timeout_secs, 30);
}
