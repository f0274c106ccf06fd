use nmts::keys::{nav_intent, Key, KeyAction, NavIntent, UiState};
use nmts::net_diag::{CheckResult, DiagEvent, Layer, Status};
use nmts::state::{
    cycle_index, lines_of, BackupState, ConnState, ConnType, DiagState, DnsState, DnsUpdate,
    QsRow, QuickAction, QuickSetState, TermState, TopoMode, TopoState,
};
use nmts::vendor_cli::VendorDb;
use nmts::widgets::wrap_text;

fn ui() -> UiState {
    UiState {
        tab: 0,
        show_help: false,
        running: true,
        ipv6_on: false,
        diag: DiagState::default(),
        quick_set: QuickSetState::default(),
        term: TermState::default(),
        dns: DnsState::default(),
        topo: TopoState::default(),
        backup: BackupState::default(),
        vendor_db: VendorDb::empty(),
    }
}

#[test]
fn focus_rows_follow_switches() {
    let mut q = QuickSetState::default();
    assert_eq!(q.focus_rows(false), vec![QsRow::Ipv4Toggle, QsRow::Ipv6Toggle, QsRow::AdvancedToggle]);
    q.ipv4_static = true;
    q.advanced_open = true;
    let rows = q.focus_rows(true);
    assert_eq!(rows.len(), 17);
    assert_eq!(rows[1], QsRow::Ipv4Field(0));
    assert_eq!(rows[16], QsRow::AdvancedItem(3));
    q.focus = 99;
    assert_eq!(q.current_row(true), QsRow::Ipv4Toggle);
}

#[test]
fn focus_wraps_around() {
    let mut q = QuickSetState::default();
    q.move_focus(false, -1);
    assert_eq!(q.focus, 2);
    q.move_focus(false, 1);
    assert_eq!(q.focus, 0);
    assert_eq!(cycle_index(0, -1, 5), 4);
    assert_eq!(cycle_index(4, 1, 5), 0);
    assert_eq!(cycle_index(2, -7, 5), 0);
}

#[test]
fn module_switching() {
    let mut s = ui();
    assert_eq!(nav_intent(Key::Tab, false), NavIntent::ModuleNext);
    assert_eq!(nav_intent(Key::Left, true), NavIntent::ModulePrev);
    assert_eq!(nav_intent(Key::Left, false), NavIntent::Local);
    assert_eq!(s.on_key(Key::BackTab, false), KeyAction::Nothing);
    assert_eq!(s.tab, 4);
    s.on_key(Key::Right, true);
    assert_eq!(s.tab, 0);
    s.on_key(Key::Char('q'), false);
    assert!(!s.running);
}

#[test]
fn esc_closes_innermost_first() {
    let mut s = ui();
    s.show_help = true;
    s.quick_set.editing = true;
    s.on_key(Key::Esc, false);
    assert!(!s.show_help);
    assert!(s.quick_set.editing);
    s.on_key(Key::Esc, false);
    assert!(!s.quick_set.editing);
    s.tab = 3;
    s.topo.mode = TopoMode::Detail;
    s.on_key(Key::Esc, false);
    assert_eq!(s.topo.mode, TopoMode::Menu);
}

#[test]
fn diagnosis_keys() {
    let mut s = ui();
    assert_eq!(s.on_key(Key::Enter, false), KeyAction::StartDiag);
    s.diag.reset();
    assert_eq!(s.diag.results.len(), 7);
    s.diag.running = false;
    s.on_key(Key::Up, false);
    assert_eq!(s.diag.selected, 6);
    assert_eq!(s.on_key(Key::Char('f'), false), KeyAction::AutoFix(6));
    s.on_key(Key::Enter, false);
    assert!(s.diag.drill_open);
    assert_eq!(s.on_key(Key::Char('r'), false), KeyAction::ExecuteDrill);
}

#[test]
fn quick_settings_typing() {
    let mut s = ui();
    s.tab = 1;
    assert_eq!(s.on_key(Key::Enter, false), KeyAction::ToggleIpv4Dhcp);
    s.quick_set.ipv4_static = true;
    s.on_key(Key::Down, false);
    assert_eq!(s.quick_set.current_row(false), QsRow::Ipv4Field(0));
    s.on_key(Key::Enter, false);
    assert!(s.quick_set.editing);
    for c in ['1', '9', 'x', '2', '.', 'e'] {
        s.on_key(Key::Char(c), false);
    }
    assert_eq!(s.quick_set.ipv4_fields[0], "192.");
    s.on_key(Key::Backspace, false);
    assert_eq!(s.quick_set.ipv4_fields[0], "192");
    assert_eq!(s.on_key(Key::Enter, false), KeyAction::SubmitIpForm);
}

#[test]
fn advanced_actions_run() {
    let mut s = ui();
    s.tab = 1;
    s.quick_set.focus = 2;
    s.on_key(Key::Enter, false);
    assert!(s.quick_set.advanced_open);
    s.quick_set.focus = 5;
    assert_eq!(s.on_key(Key::Enter, false), KeyAction::RunQuick(QuickAction::DnsOptimize));
}

#[test]
fn terminal_keys() {
    let mut s = ui();
    s.tab = 2;
    s.on_key(Key::Left, false);
    assert_eq!(s.term.conn_type, ConnType::Ensp);
    s.on_key(Key::Char('s'), false);
    assert_eq!(s.term.baud, 115200);
    assert_eq!(s.on_key(Key::Enter, false), KeyAction::ScanConnect);
    s.term.conn = ConnState::Connected;
    s.on_key(Key::Char('i'), false);
    assert!(s.term.input_mode);
    for c in ['x', 'y', 'b', 'z'] {
        s.on_key(Key::Char(c), false);
    }
    s.on_key(Key::Backspace, false);
    assert_eq!(s.term.input, "xy");
    assert_eq!(s.on_key(Key::Enter, false), KeyAction::TermSendInput);
}

#[test]
fn topology_keys() {
    let mut s = ui();
    s.tab = 3;
    s.on_key(Key::Enter, false);
    assert_eq!(s.topo.mode, TopoMode::Menu);
    s.on_key(Key::Down, false);
    s.on_key(Key::Enter, false);
    assert_eq!(s.topo.mode, TopoMode::Detail);
    s.on_key(Key::Up, false);
    assert_eq!(s.topo.dev_idx, 4);
    assert_eq!(s.on_key(Key::Enter, false), KeyAction::TopoGenCli);
    s.tab = 4;
    s.on_key(Key::Down, false);
    assert_eq!(s.on_key(Key::Enter, false), KeyAction::Backup(1));
}

#[test]
fn diag_events_update_screen() {
    let mut d = DiagState::default();
    d.apply_event(DiagEvent::Started { total: 2 });
    assert!(d.started);
    assert_eq!(d.results.len(), 2);
    d.apply_event(DiagEvent::CheckDone {
        index: 1,
        result: CheckResult {
            id: "x",
            name: "x".into(),
            layer: Layer::Basic,
            status: Status::Normal,
            detail: String::new(),
            fix: None,
            scope: None,
        },
    });
    assert!(d.results[1].is_some());
    for i in 0..510 {
        d.apply_event(DiagEvent::Log(format!("line {i}")));
    }
    assert_eq!(d.logs.len(), 500);
    assert_eq!(d.logs[0], "line 10");
    d.running = true;
    d.apply_event(DiagEvent::Finished { summary: "done".into() });
    assert_eq!(d.summary.as_deref(), Some("done"));
    assert!(!d.running);
}

#[test]
fn terminal_echo_and_connect() {
    let mut t = TermState::default();
    t.on_echo("a\r\nb\n\nc");
    assert_eq!(t.output, vec!["a", "b", "", "c"]);
    t.on_connected(Some("huawei_vrp".into()), None, &VendorDb::empty());
    assert_eq!(t.conn, ConnState::Connected);
    assert_eq!(t.status.as_deref(), Some("已连接，自动识别为 huawei_vrp（未知型号）"));
    t.on_failed("超时");
    assert_eq!(t.status.as_deref(), Some("✗ 超时"));
    assert_eq!(lines_of("x\n"), vec!["x"]);
    assert!(lines_of("").is_empty());
}

#[test]
fn dns_ranking_update() {
    let mut d = DnsState::default();
    d.running = true;
    d.apply_update(DnsUpdate { results: vec![], status: "无可达候选 DNS".into() });
    assert!(!d.running);
    assert!(!d.interactive);
}

#[test]
fn demo_topology_is_prechecked() {
    let t = TopoState::default();
    assert_eq!(t.entries.len(), 1);
    assert_eq!(t.entries[0].name, "演示拓扑");
    assert_eq!(t.current().unwrap().topology.devices.len(), 5);
}

#[test]
fn wrapping_by_width() {
    assert_eq!(wrap_text("abcdef", 4), vec!["abcd", "ef"]);
    assert_eq!(wrap_text("中文字", 4), vec!["中文", "字"]);
    assert_eq!(wrap_text("", 3), vec![""]);
    assert_eq!(wrap_text("abc", 0), vec!["abc"]);
}
