use nmts::design_check::{Finding, Severity};
use nmts::command::CmdOutput;
use nmts::device_ops::{deploy_done, deploy_failed, join_lines, plan_deploy, plan_device_backup, DeployPlan};
use nmts::net_diag::{CheckResult, Diagnoser, DiagContext, Fix, FixKind, Layer, Status};
use nmts::serial::{probe_baud, scan_reply_ok, PortInfo};
use nmts::state::{ConnState, DiagState, TermState, TopoMode, TopoState};
use nmts::topology::demo_topology;
use nmts::vendor_cli::VendorDb;
use nmts::widgets::{scroll_offset, status_icon, visual_rows, wrap_text};

fn port(n: &str) -> PortInfo {
    PortInfo { name: n.into(), description: String::new() }
}

#[test]
fn visual_rows_tag_items() {
    let items = vec!["abcdef".to_string(), String::new(), "中文字".to_string()];
    let rows = visual_rows(&items, 4);
    let expect: Vec<(usize, String)> = vec![
        (0, "abcd".into()),
        (0, "ef".into()),
        (1, "".into()),
        (2, "中文".into()),
        (2, "字".into()),
    ];
    assert_eq!(rows, expect);
    assert_eq!(visual_rows(&["ab".to_string()], 0), vec![(0, "a".to_string()), (0, "b".to_string())]);
}

#[test]
fn scroll_keeps_selection_visible() {
    let items = vec!["abcdef".to_string(), String::new(), "中文字".to_string()];
    let rows = visual_rows(&items, 4);
    // Item 2 starts at row 3: a window of 2 rows must scroll to 2.
    assert_eq!(scroll_offset(&rows, 2, 0, 2), 2);
    // Moving back up to item 0 scrolls back to its first row.
    assert_eq!(scroll_offset(&rows, 0, 2, 2), 0);
    // Already visible: the offset stays.
    assert_eq!(scroll_offset(&rows, 1, 1, 2), 1);
    // Never past the end of the list.
    assert_eq!(scroll_offset(&rows, 2, 9, 2), 3);
    // Unknown selection anchors the top row.
    assert_eq!(scroll_offset(&rows, 7, 4, 10), 0);
    assert_eq!(scroll_offset(&[], 0, 3, 2), 0);
}

#[test]
fn wrapped_lines_join_back() {
    let s = "网络维护 tool set";
    for w in 0..6 {
        assert_eq!(wrap_text(s, w).concat(), s);
    }
    assert_eq!(status_icon(Status::Normal), "✓");
    assert_eq!(status_icon(Status::Error), "✗");
}

#[test]
fn topology_copy_rename_delete() {
    let mut t = TopoState::default();
    t.copy();
    assert_eq!(t.entries.len(), 2);
    assert_eq!(t.entries[1].name, "演示拓扑 副本");
    assert_eq!(t.entries[1].topology.devices.len(), 5);
    assert_eq!(t.entries[1].findings.len(), t.entries[0].findings.len());
    for (a, b) in t.entries[0].topology.devices.iter().zip(t.entries[1].topology.devices.iter()) {
        assert_eq!(a.id, b.id);
        assert_eq!(a.name, b.name);
        assert_eq!(a.config.hostname, b.config.hostname);
        assert_eq!(a.config.vlans.len(), b.config.vlans.len());
        assert_eq!(a.config.trunk_vlans, b.config.trunk_vlans);
    }
    assert_eq!(t.entries[0].topology.links.len(), t.entries[1].topology.links.len());
    for (a, b) in t.entries[0].findings.iter().zip(t.entries[1].findings.iter()) {
        assert_eq!(a.message, b.message);
        assert_eq!(a.devices, b.devices);
    }
    assert_eq!(t.selected, 1);
    assert_eq!(t.status.as_deref(), Some("已复制拓扑"));
    t.rename();
    assert_eq!(t.entries[1].name, "演示拓扑 副本·改");
    assert_eq!(t.status.as_deref(), Some("已重命名「演示拓扑 副本」→「演示拓扑 副本·改」"));
    t.new_demo();
    assert_eq!(t.entries[2].name, "拓扑3");
    assert_eq!(t.selected, 2);
    t.mode = TopoMode::Menu;
    t.delete();
    assert_eq!(t.entries.len(), 2);
    assert_eq!(t.selected, 1);
    assert_eq!(t.mode, TopoMode::List);
    assert_eq!(t.status.as_deref(), Some("已删除「拓扑3」"));
    t.delete();
    t.delete();
    assert_eq!(t.entries.len(), 1);
    assert_eq!(t.status.as_deref(), Some("至少保留一个拓扑"));
}

#[test]
fn topology_current_mut_and_reload() {
    let mut t = TopoState::default();
    if let Some(e) = t.current_mut() {
        e.name = "主干".into();
    }
    assert_eq!(t.entries[0].name, "主干");
    t.selected = 5;
    assert!(t.current_mut().is_none());
    t.selected = 0;
    t.dev_idx = 1;
    // the demonstration topology has an error finding (a subnet shared by the VRRP pair)
    t.gen_cli();
    assert!(t.cli.is_none());
    assert_eq!(t.status.as_deref(), Some("✗ 预检存在错误级问题，已阻断 CLI 生成"));
    t.entries[0].findings.clear();
    t.gen_cli();
    assert!(t.cli.is_some());
    assert_eq!(t.status.as_deref(), Some("已生成 汇聚交换机 的 CLI"));
    t.reload(demo_topology());
    assert_eq!(t.dev_idx, 0);
    assert!(t.cli.is_none());
    assert_eq!(t.entries[0].name, "主干");
    assert_eq!(t.status.as_deref(), Some("已回读 topology.json 并重新预检"));
    t.sync_from_editor(demo_topology());
    assert_eq!(t.status.as_deref(), Some("编辑器已实时同步到 NMTs（预检已更新）"));
}

#[test]
fn deploy_plans() {
    let ports = vec![port("COM3"), port("COM4")];
    assert!(matches!(plan_deploy(&None, &ports, false), DeployPlan::Refuse(m) if m == "请先按 Enter 生成 CLI"));
    let cli = Some("sysname A\n\n  \nvlan 10\r\n".to_string());
    assert!(matches!(plan_deploy(&cli, &[], false), DeployPlan::Refuse(m) if m == "未检测到串口，无法下发"));
    assert!(matches!(plan_deploy(&cli, &ports, true), DeployPlan::Refuse(m) if m == "✗ 预检存在错误级问题，已阻断下发"));
    assert!(matches!(plan_deploy(&None, &ports, true), DeployPlan::Refuse(m) if m == "请先按 Enter 生成 CLI"));
    match plan_deploy(&cli, &ports, false) {
        DeployPlan::Send { port, lines } => {
            assert_eq!(port, "COM3");
            assert_eq!(lines, vec!["sysname A", "vlan 10"]);
        }
        _ => panic!("send expected"),
    }
    assert_eq!(deploy_done(2, "COM3"), "已下发 2 行到 COM3");
    assert_eq!(deploy_failed("COM3", "busy"), "连接 COM3 失败: busy");
}

#[test]
fn device_backup_plan() {
    let mut term = TermState::default();
    let db = VendorDb::empty();
    assert_eq!(plan_device_backup(&term, &db).err(), Some("✗ 请先在「网工工具」连接设备".to_string()));
    term.conn = ConnState::Connected;
    term.output = vec!["<A>".into(), "sysname A".into()];
    let b = plan_device_backup(&term, &db).unwrap();
    assert_eq!(b.vendor, "huawei_vrp");
    assert_eq!(b.device, "device");
    assert_eq!(b.show_cmd, "display current-configuration");
    assert_eq!(b.config, "<A>\nsysname A");
    term.ports = vec![port("COM5")];
    assert_eq!(plan_device_backup(&term, &db).unwrap().device, "COM5");
    assert_eq!(join_lines(&[]), "");
}

#[test]
fn terminal_send_outcomes() {
    let mut t = TermState::default();
    t.input = "  ".into();
    t.input_mode = true;
    assert_eq!(t.take_input(), None);
    assert!(!t.input_mode);
    t.input = "display version".into();
    assert_eq!(t.take_input(), Some("display version".to_string()));
    assert!(t.input.is_empty());
    assert!(!t.on_send("x", None));
    assert_eq!(t.status.as_deref(), Some("未连接设备，请先按 Enter 扫描连接"));
    t.conn = ConnState::Connected;
    assert!(!t.on_send("display version", Some(Ok(()))));
    assert_eq!(t.status.as_deref(), Some("已发送: display version"));
    assert!(t.on_send("x", Some(Err("broken pipe".into()))));
    assert_eq!(t.status.as_deref(), Some("发送失败: broken pipe"));
    assert_eq!(t.conn, ConnState::Disconnected);
}

fn fixable(name: &str, kind: FixKind) -> CheckResult {
    CheckResult {
        id: "x",
        name: name.into(),
        layer: Layer::Basic,
        status: Status::Error,
        detail: String::new(),
        fix: Some(Fix { kind, label: "修复".into() }),
        scope: None,
    }
}

#[test]
fn auto_fix_round() {
    let mut d = DiagState::default();
    d.results = vec![Some(fixable("DNS", FixKind::Auto("ipconfig /flushdns".into()))), Some(fixable("代理", FixKind::Manual("m".into())))];
    let (cmd, name, text) = d.begin_auto_fix(0).unwrap();
    assert_eq!(cmd.program, "cmd");
    assert_eq!(cmd.args, vec!["/c", "ipconfig /flushdns"]);
    assert_eq!(name, "DNS");
    assert_eq!(text, "ipconfig /flushdns");
    assert!(d.begin_auto_fix(1).is_none());
    assert_eq!(d.summary.as_deref(), Some("「代理」无可自动修复项"));
    let fail = CmdOutput { success: false, exit_code: Some(1), stdout: "拒绝访问\n第二行".into(), stderr: String::new() };
    d.finish_auto_fix(&name, &text, &fail);
    assert_eq!(d.logs, vec!["执行：ipconfig /flushdns", "  ✗ 拒绝访问"]);
    assert_eq!(d.summary.as_deref(), Some("修复「DNS」失败"));
    let ok = CmdOutput { success: true, exit_code: Some(0), stdout: String::new(), stderr: String::new() };
    d.finish_auto_fix(&name, &text, &ok);
    assert_eq!(d.summary.as_deref(), Some("已修复「DNS」"));
}

#[test]
fn basic_checks_listed_in_order() {
    let d = Diagnoser::new(DiagContext::default());
    let defs = d.basic_check_defs();
    assert_eq!(defs.len(), 7);
    assert_eq!(defs[0].0, "active_adapter");
    assert_eq!(defs[6], ("virtual_nic", "虚拟网卡干扰".to_string()));
    assert_eq!(Diagnoser::basic_check_names()[4], "DNS 解析");
}

#[test]
fn baud_probe_and_scan() {
    let replies = vec![None, Some(b"garbage".to_vec()), Some(b"<Huawei>".to_vec())];
    assert_eq!(probe_baud(&[9600, 115200, 38400], &replies), Some(38400));
    assert_eq!(probe_baud(&[9600], &[None]), None);
    assert!(scan_reply_ok(b""));
    assert!(scan_reply_ok(b"Username:"));
    assert!(!scan_reply_ok(b"noise"));
}

#[test]
fn error_findings_block_generation() {
    let mut t = TopoState::default();
    t.selected = 0;
    t.dev_idx = 0;
    assert!(t.blocked());
    t.entries[0].findings.clear();
    assert!(!t.blocked());
    t.entries[0].findings.push(Finding {
        intent: "UniqueSubnet".to_string(),
        severity: Severity::Error,
        devices: vec!["core".to_string()],
        message: "L3 子网重叠".to_string(),
        suggestion: String::new(),
    });
    assert!(t.blocked());
    t.cli = Some("old".to_string());
    t.gen_cli();
    assert_eq!(t.cli.as_deref(), Some("old"));
    assert_eq!(t.status.as_deref(), Some("✗ 预检存在错误级问题，已阻断 CLI 生成"));
}
