use nmts::backup::{bundle_name, hostname_or_unknown, Manifest};
use nmts::config::{merge, Config};

#[test]
fn default_config_parses() {
    let cfg = Config::default();
    assert_eq!(cfg.version, 1);
    assert!(cfg.dns_preference.categories.contains(&"default".to_string()));
    assert_eq!(cfg.terminal.default_baud_rates[0], 9600);
}

#[test]
fn merge_overrides_fields() {
    let mut base = Config::default();
    let mut user = Config::default();
    user.version = 0;
    user.admin_required = false;
    user.log_level = String::new();
    user.log_keep_days = 30;
    user.backup.keep_days = 1;
    merge(&mut base, user);
    assert_eq!(base.version, 1);
    assert!(!base.admin_required);
    assert_eq!(base.log_level, "info");
    assert_eq!(base.log_keep_days, 30);
    assert_eq!(base.backup.keep_days, 1);
}

#[test]
fn manifest_fields() {
    let m = Manifest::new("windows", hostname_or_unknown(None), "2024-01-01 00:00:00".into());
    assert_eq!(m.version, 1);
    assert_eq!(m.kind, "windows");
    assert!(!m.source.is_empty());
}

#[test]
fn bundle_file_name() {
    assert_eq!(bundle_name("20240101-000000", "PC1"), "20240101-000000_PC1.nmtsbak");
    assert_eq!(hostname_or_unknown(Some("HOST".into())), "HOST");
}

#[test]
fn merging_twice_changes_nothing_more() {
    let mut user = Config::default();
    user.log_level = "debug".into();
    user.log_keep_days = 3;
    let mut once = Config::default();
    merge(&mut once, user.clone());
    let mut twice = once.clone();
    merge(&mut twice, user);
    assert_eq!(twice.log_level, once.log_level);
    assert_eq!(twice.log_keep_days, once.log_keep_days);
    assert_eq!(twice.version, once.version);
    let mut own = Config::default();
    merge(&mut own, Config::default());
    assert_eq!(own.log_level, "info");
}
