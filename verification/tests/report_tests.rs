use nmts::net_diag::{CheckResult, Fix, FixKind, Layer, Status};
use nmts::report::{audit_line, console_header, console_result_lines, diag_report_md};
use nmts::state::DiagState;

fn mk(name: &str, status: Status) -> CheckResult {
    CheckResult {
        id: "x",
        name: name.into(),
        layer: Layer::Basic,
        status,
        detail: "d".into(),
        fix: Some(Fix { kind: FixKind::Manual("m".into()), label: "建议".into() }),
        scope: None,
    }
}

#[test]
fn report_contains_table() {
    let r = vec![mk("网关连通", Status::Normal), mk("DNS", Status::Error)];
    let md = diag_report_md(&r, "检测完成", &[], "2024-01-01 00:00:00");
    assert!(md.contains("# NMTs 网络诊断报告"));
    assert!(md.contains("| 检查项 |"));
    assert!(md.contains("网关连通"));
    assert!(md.contains("DNS"));
}

#[test]
fn report_exact_text() {
    let mut r = mk("代理", Status::Warn);
    r.detail = "a|b".into();
    r.fix = None;
    let md = diag_report_md(&[r], "结论", &["附注".to_string()], "T");
    assert_eq!(
        md,
        "# NMTs 网络诊断报告\n\n- 生成时间：T\n- 结论：结论\n\n## 检查结果\n\n\
         | 状态 | 检查项 | 详情 | 修复建议 |\n| --- | --- | --- | --- |\n\
         | 警告 | 代理 | a\\|b |  |\n\n## 附加信息\n\n- 附注\n"
    );
}

#[test]
fn export_needs_a_run() {
    let mut d = DiagState::default();
    assert_eq!(d.export_report("T"), Err("请先运行诊断".to_string()));
    d.started = true;
    d.results = vec![None, Some(mk("DNS", Status::Error)), None];
    d.summary = Some("检测完成".into());
    let md = d.export_report("T").unwrap();
    assert_eq!(md, diag_report_md(&[mk("DNS", Status::Error)], "检测完成", &[], "T"));
}

#[test]
fn console_lines() {
    let r = mk("DNS 解析", Status::Error);
    assert_eq!(console_result_lines(&r), vec!["  [异常] DNS 解析：d", "        → 建议"]);
    let mut i = mk("x", Status::Info);
    i.fix = None;
    assert_eq!(console_result_lines(&i), vec!["  [信息] x：d"]);
    assert_eq!(console_header(true, Some("以太网")), "管理员权限：是；当前上网网卡：以太网");
    assert_eq!(console_header(false, None), "管理员权限：否；当前上网网卡：未找到");
    assert_eq!(audit_line("T", "刷新 DNS", "成功"), "T | 刷新 DNS | 成功\n");
}
