use nmts::command::{CmdOutput, CmdSpec};
use nmts::config::DnsPreference;
use nmts::dns::{DnsBench, DnsProvider};
use nmts::quick::{
    dhcp_outcome, dns_test_status, ipv6_outcome, plan_dns_apply, plan_ip_form, plan_ipv4_toggle,
    plan_quick, quick_enter, quick_outcome, result_line, run_outcome, DnsApply, FormStep, Ipv4Toggle,
    QuickEnter, QuickStep,
};
use nmts::state::{DnsState, QuickAction, QuickSetState};

fn bench(category: &str, secondary: &str, reachable: bool) -> DnsBench {
    DnsBench {
        provider: DnsProvider {
            country: "CN".into(),
            name: "阿里".into(),
            category: category.into(),
            primary: "223.5.5.5".into(),
            secondary: secondary.into(),
            recommended: true,
        },
        latency_ms: if reachable { Some(8) } else { None },
        reachable,
    }
}

fn out(success: bool, stdout: &str, stderr: &str) -> CmdOutput {
    CmdOutput { success, exit_code: None, stdout: stdout.into(), stderr: stderr.into() }
}

fn args(c: &CmdSpec) -> Vec<&str> {
    c.args.iter().map(|a| a.as_str()).collect()
}

#[test]
fn quick_actions_plan_commands() {
    let pref = DnsPreference::default();
    match plan_quick(QuickAction::FlushDns, "", false, &pref) {
        QuickStep::Run(c) => {
            assert_eq!(c.len(), 1);
            assert_eq!(c[0].program, "ipconfig");
            assert_eq!(args(&c[0]), vec!["/flushdns"]);
        }
        _ => panic!("flush must run"),
    }
    match plan_quick(QuickAction::ReleaseRenew, "", false, &pref) {
        QuickStep::Refuse(m) => assert_eq!(m, "未找到当前上网网卡"),
        _ => panic!("needs an adapter"),
    }
    match plan_quick(QuickAction::ReleaseRenew, "以太网", false, &pref) {
        QuickStep::Run(c) => {
            assert_eq!(args(&c[0]), vec!["/release", "以太网"]);
            assert_eq!(args(&c[1]), vec!["/renew", "以太网"]);
        }
        _ => panic!("release/renew must run"),
    }
    match plan_quick(QuickAction::DnsOptimize, "以太网", false, &pref) {
        QuickStep::DnsTest { categories, prefer_ipv, prefer_country } => {
            assert_eq!(categories, vec!["default", "family", "secure"]);
            assert_eq!(prefer_ipv, "ipv4");
            assert_eq!(prefer_country, "CN");
        }
        _ => panic!("dns optimize starts a test"),
    }
}

#[test]
fn quick_outcome_messages() {
    assert_eq!(quick_outcome(QuickAction::FlushDns, &out(true, "ok", "")), (true, "已刷新 DNS 缓存".to_string()));
    assert_eq!(quick_outcome(QuickAction::TcpOptimize, &out(false, "a", "b")), (false, "a\nb".to_string()));
    assert_eq!(result_line(true, "已刷新 DNS 缓存"), "✓ 已刷新 DNS 缓存");
    assert_eq!(result_line(false, "x"), "✗ x");
}

#[test]
fn dns_test_status_and_start() {
    assert_eq!(dns_test_status(&[bench("ipv4_default", "", false)]), "无可达候选 DNS");
    assert_eq!(
        dns_test_status(&[bench("ipv4_default", "", false), bench("ipv4_default", "", true)]),
        "测速完成，↑/↓ 选择 · Enter 应用 · Esc 返回"
    );
    let mut d = DnsState::default();
    d.results.push(bench("ipv4_default", "", true));
    d.selected = 1;
    d.interactive = true;
    d.start_test();
    assert!(d.running);
    assert!(!d.interactive);
    assert!(d.results.is_empty());
    assert_eq!(d.selected, 0);
    assert_eq!(d.status.as_deref(), Some("DNS 优选测速中…"));
}

#[test]
fn ip_form_plans() {
    let mut q = QuickSetState::default();
    q.editing = true;
    match plan_ip_form(&q, "") {
        FormStep::Refuse { message, stop_editing } => {
            assert_eq!(message, "✗ 未找到当前上网网卡");
            assert!(stop_editing);
        }
        _ => panic!("needs an adapter"),
    }
    match plan_ip_form(&q, "eth") {
        FormStep::Refuse { message, stop_editing } => {
            assert_eq!(message, "✗ 请至少填写 IP 地址和子网掩码");
            assert!(!stop_editing);
        }
        _ => panic!("needs address and mask"),
    }
    q.ipv4_fields[2] = "192.168.1.10".into();
    q.ipv4_fields[1] = "255.255.255.0".into();
    q.ipv4_fields[4] = "8.8.8.8".into();
    match plan_ip_form(&q, "eth") {
        FormStep::Address { address, dns, message } => {
            assert_eq!(
                args(&address),
                vec!["interface", "ip", "set", "address", "eth", "static", "192.168.1.10", "255.255.255.0", ""]
            );
            assert_eq!(dns.len(), 1);
            assert_eq!(args(&dns[0]), vec!["interface", "ip", "add", "dns", "eth", "8.8.8.8", "index=2"]);
            assert_eq!(message, "✓ 已设置静态 IP 192.168.1.10/255.255.255.0 网关 无");
        }
        _ => panic!("static address expected"),
    }
    q.editing_v6 = true;
    q.ipv6_fields[3] = "2400:3200::1".into();
    match plan_ip_form(&q, "eth") {
        FormStep::Apply { commands, message } => {
            assert_eq!(commands.len(), 1);
            assert_eq!(args(&commands[0]), vec!["interface", "ipv6", "set", "dns", "eth", "static", "2400:3200::1"]);
            assert_eq!(message, "✓ 已设置 IPv6 DNS 2400:3200::1");
        }
        _ => panic!("ipv6 dns expected"),
    }
}

#[test]
fn ipv4_toggle_and_outcomes() {
    assert!(matches!(plan_ipv4_toggle(true, ""), Ipv4Toggle::Refuse(m) if m == "✗ 未找到当前上网网卡"));
    match plan_ipv4_toggle(true, "eth") {
        Ipv4Toggle::ToDhcp(c) => assert_eq!(args(&c), vec!["interface", "ip", "set", "address", "eth", "dhcp"]),
        _ => panic!("to dhcp expected"),
    }
    assert!(matches!(plan_ipv4_toggle(false, "eth"), Ipv4Toggle::ToStatic(m) if m == "已切换为静态 IP：填字段后 Enter 应用"));
    assert_eq!(dhcp_outcome(&out(true, "", "")), (true, "✓ IPv4 已切回 DHCP 自动获取".to_string()));
    assert_eq!(dhcp_outcome(&out(false, "", "denied")), (false, "✗ denied".to_string()));
    assert_eq!(ipv6_outcome(true, &out(true, "", "")), (false, "✓ IPv6 已切换为禁用".to_string()));
    assert_eq!(ipv6_outcome(false, &out(false, "x", "")), (false, "✗ x".to_string()));
}

#[test]
fn dns_apply_plans() {
    let mut d = DnsState::default();
    assert!(matches!(plan_dns_apply(&d, "eth"), DnsApply::Nothing));
    d.results = vec![bench("ipv4_default", "223.6.6.6", true), bench("ipv6_default", "", true), bench("ipv4_default", "", false)];
    assert!(matches!(plan_dns_apply(&d, ""), DnsApply::Refuse(m) if m == "✗ 未找到当前上网网卡"));
    match plan_dns_apply(&d, "eth") {
        DnsApply::Apply { commands, result, status } => {
            assert_eq!(commands.len(), 2);
            assert_eq!(args(&commands[0]), vec!["interface", "ip", "set", "dns", "eth", "static", "223.5.5.5"]);
            assert_eq!(args(&commands[1]), vec!["interface", "ip", "add", "dns", "eth", "223.6.6.6", "index=2"]);
            assert_eq!(result, "✓ 已应用 DNS 阿里（223.5.5.5 / 223.6.6.6）");
            assert_eq!(status, "已应用 阿里，原 DNS 已备份可回退");
        }
        _ => panic!("apply expected"),
    }
    d.selected = 1;
    match plan_dns_apply(&d, "eth") {
        DnsApply::Apply { commands, .. } => {
            assert_eq!(commands.len(), 1);
            assert_eq!(args(&commands[0]), vec!["interface", "ipv6", "set", "dns", "eth", "static", "223.5.5.5"]);
        }
        _ => panic!("apply expected"),
    }
    d.selected = 2;
    assert!(matches!(plan_dns_apply(&d, "eth"), DnsApply::Refuse(m) if m == "✗ 该候选不可达"));
}

#[test]
fn enter_on_quick_panel() {
    let mut q = QuickSetState::default();
    assert_eq!(quick_enter(&q, false, false), QuickEnter::ToggleIpv4);
    assert_eq!(quick_enter(&q, true, false), QuickEnter::ApplyDns);
    q.focus = 1;
    assert_eq!(quick_enter(&q, false, false), QuickEnter::ToggleIpv6);
    q.focus = 2;
    assert_eq!(quick_enter(&q, false, false), QuickEnter::ToggleAdvanced);
    q.advanced_open = true;
    q.focus = 5;
    assert_eq!(quick_enter(&q, false, false), QuickEnter::Run(QuickAction::DnsOptimize));
    q.ipv4_static = true;
    q.focus = 3;
    assert_eq!(quick_enter(&q, false, false), QuickEnter::BeginEdit { v6: false, idx: 2 });
    q.editing = true;
    assert_eq!(quick_enter(&q, true, false), QuickEnter::SubmitForm);
}

#[test]
fn outcome_of_one_or_two_runs() {
    let r = run_outcome(QuickAction::FlushDns, &vec![out(true, "ok", "")]);
    assert_eq!(r, (true, "已刷新 DNS 缓存".to_string()));
    let r = run_outcome(QuickAction::ReleaseRenew, &vec![out(true, "rel", ""), out(false, "ren", "err")]);
    assert_eq!(r, (false, "rel\nren\n\nerr".to_string()));
    let r = run_outcome(QuickAction::ReleaseRenew, &vec![out(false, "rel", "x"), out(true, "ren", "")]);
    assert_eq!(r, (true, "已释放并重新获取 IP".to_string()));
}
