use nmts::vendor_cli::{render_command, CommandTemplate, VendorDb, VendorTemplate};

#[test]
fn render_placeholder() {
    let s = render_command(
        "ip address {ip} {mask}",
        &[
            ("ip", "192.168.1.1".into()),
            ("mask", "255.255.255.0".into()),
        ],
    );
    assert_eq!(s, "ip address 192.168.1.1 255.255.255.0");
}

#[test]
fn render_repeated_and_unknown_placeholders() {
    let s = render_command("ping {host} {host} {other}", &[("host", "8.8.8.8".into())]);
    assert_eq!(s, "ping 8.8.8.8 8.8.8.8 {other}");
}

fn save_cmd(command: &str) -> CommandTemplate {
    CommandTemplate {
        id: "save_config".into(),
        category: "maintain".into(),
        label: "保存配置".into(),
        command: command.into(),
        args: vec![],
        interactive: false,
        confirm: None,
    }
}

fn vendor(id: &str, save: &str) -> VendorTemplate {
    VendorTemplate {
        vendor: id.into(),
        label: id.into(),
        prompt_features: vec![],
        enter_config: String::new(),
        exit_config: String::new(),
        show_run: String::new(),
        save_config: save.into(),
        categories: vec![],
        commands: vec![save_cmd(save)],
    }
}

#[test]
fn cisco_differs() {
    let db = VendorDb::from_templates(vec![vendor("huawei_vrp", "save"), vendor("cisco_ios", "write memory")]);
    let c = db.get("cisco_ios").unwrap();
    assert_ne!(
        c.command("save_config").unwrap().command,
        db.get("huawei_vrp")
            .unwrap()
            .command("save_config")
            .unwrap()
            .command
    );
    assert!(db.get("h3c_vrp").is_none());
}
