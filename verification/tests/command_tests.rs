use nmts::command::{decode_output, CmdOutput};
use nmts::net_set::{release_renew, release_renew_output, set_ipv6, tcp_optimize};
use nmts::netsh::{set_dns, set_static_ip, show_dns};
use nmts::powershell::{run_ps, run_ps_json};

#[test]
fn decode_gbk_ascii() {
    assert_eq!(decode_output(b"hello 8.8.8.8".to_vec()), "hello 8.8.8.8");
}

#[test]
fn decode_gbk_chinese() {
    // "中文" in GBK
    assert_eq!(decode_output(vec![0xD6, 0xD0, 0xCE, 0xC4]), "中文");
}

#[test]
fn combined_output() {
    let o = |a: &str, b: &str| CmdOutput { success: true, exit_code: Some(0), stdout: a.into(), stderr: b.into() };
    assert_eq!(o("", "err").combined(), "err");
    assert_eq!(o("out", "").combined(), "out");
    assert_eq!(o("out", "err").combined(), "out\nerr");
}

#[test]
fn netsh_arguments() {
    let c = set_dns("以太网", "223.5.5.5");
    assert_eq!(c.program, "netsh");
    assert_eq!(c.args, vec!["interface", "ip", "set", "dns", "以太网", "static", "223.5.5.5"]);
    assert!(!c.utf8);
    assert_eq!(show_dns("eth").args, vec!["interface", "ip", "show", "dns", "eth"]);
    assert_eq!(
        set_static_ip("eth", "10.0.0.2", "255.255.255.0", "10.0.0.1").args,
        vec!["interface", "ip", "set", "address", "eth", "static", "10.0.0.2", "255.255.255.0", "10.0.0.1"]
    );
    assert_eq!(set_ipv6(false).args.last().unwrap(), "disabled");
    assert_eq!(tcp_optimize().args[4], "autotuninglevel=normal");
    let (rel, ren) = release_renew("eth");
    assert_eq!((rel.program.as_str(), rel.args), ("ipconfig", vec!["/release".to_string(), "eth".to_string()]));
    assert_eq!(ren.args, vec!["/renew", "eth"]);
}

#[test]
fn release_renew_merges_streams() {
    let rel = CmdOutput { success: false, exit_code: Some(1), stdout: "a".into(), stderr: "x".into() };
    let ren = CmdOutput { success: true, exit_code: Some(0), stdout: "b".into(), stderr: "".into() };
    let m = release_renew_output(&rel, &ren);
    assert!(m.success);
    assert_eq!(m.exit_code, Some(0));
    assert_eq!(m.stdout, "a\nb");
    assert_eq!(m.stderr, "x\n");
}

#[test]
fn powershell_invocation_and_json() {
    let c = run_ps("Get-Date");
    assert_eq!(c.program, "powershell");
    assert_eq!(c.args[3], "[Console]::OutputEncoding=[System.Text.Encoding]::UTF8; Get-Date");
    assert!(c.utf8);
    let out = |ok: bool, s: &str| CmdOutput { success: ok, exit_code: None, stdout: s.into(), stderr: String::new() };
    assert_eq!(run_ps_json(&out(true, "  {\"a\":1}\r\n")).as_deref(), Some("{\"a\":1}"));
    assert_eq!(run_ps_json(&out(true, " \n")), None);
    assert_eq!(run_ps_json(&out(false, "{}")), None);
}
