//! Settings: their defaults and how a user's settings override them.
use vstd::prelude::*;
use vstd::string::*;

use crate::topology::views;

verus! {

/// All settings.
#[derive(Debug, Clone)]
pub struct Config {
    pub version: u32,
    pub admin_required: bool,
    pub log_level: String,
    pub log_keep_days: u32,
    pub dns_preference: DnsPreference,
    pub terminal: TerminalConfig,
    pub topology: TopologyConfig,
    pub backup: BackupConfig,
}

/// DNS selection preferences.
#[derive(Debug, Clone)]
pub struct DnsPreference {
    pub categories: Vec<String>,
    pub prefer_ipv: String,
    pub prefer_country: String,
    pub test: DnsTest,
    pub apply_when_better_than_current: bool,
}

/// DNS speed-test parameters.
#[derive(Debug, Clone)]
pub struct DnsTest {
    pub probe_domain: String,
    pub samples: u32,
    pub timeout_ms: u64,
    pub rank_by: String,
}

/// Serial terminal settings.
#[derive(Debug, Clone)]
pub struct TerminalConfig {
    pub default_baud_rates: Vec<u32>,
    pub timeout_ms: u64,
    pub vendors: Vec<String>,
    pub ensp_compatible: bool,
}

/// Topology export settings.
#[derive(Debug, Clone)]
pub struct TopologyConfig {
    pub export_format: String,
    pub auto_cli: bool,
    pub open_after_export: bool,
}

/// Backup settings.
#[derive(Debug, Clone)]
pub struct BackupConfig {
    pub dir: String,
    pub keep_days: u32,
    pub bundle_ext: String,
}

/// The default speed test.
pub open spec fn is_default_test(t: DnsTest) -> bool {
    &&& t.probe_domain@ == "www.baidu.com"@
    &&& t.samples == 5
    &&& t.timeout_ms == 1500
    &&& t.rank_by@ == "latency"@
}

/// The default DNS preferences.
pub open spec fn is_default_dns_preference(p: DnsPreference) -> bool {
    &&& views(p.categories@) == seq!["default"@, "family"@, "secure"@]
    &&& p.prefer_ipv@ == "ipv4"@
    &&& p.prefer_country@ == "CN"@
    &&& is_default_test(p.test)
    &&& p.apply_when_better_than_current
}

/// The default terminal settings.
pub open spec fn is_default_terminal(t: TerminalConfig) -> bool {
    &&& t.default_baud_rates@ == seq![9600u32, 115200, 19200, 38400, 57600]
    &&& t.timeout_ms == 3000
    &&& views(t.vendors@) == seq!["huawei_vrp"@, "h3c_vrp"@, "cisco_ios"@]
    &&& t.ensp_compatible
}

/// The default topology settings.
pub open spec fn is_default_topology(t: TopologyConfig) -> bool {
    t.export_format@ == "d2"@ && t.auto_cli && t.open_after_export
}

/// The default backup settings.
pub open spec fn is_default_backup(b: BackupConfig) -> bool {
    b.dir@ == "./backups"@ && b.keep_days == 30 && b.bundle_ext@ == "nmtsbak"@
}

/// The default settings.
pub open spec fn is_default_config(c: Config) -> bool {
    &&& c.version == 1
    &&& c.admin_required
    &&& c.log_level@ == "info"@
    &&& c.log_keep_days == 7
    &&& is_default_dns_preference(c.dns_preference)
    &&& is_default_terminal(c.terminal)
    &&& is_default_topology(c.topology)
    &&& is_default_backup(c.backup)
}

impl Default for DnsTest {
    fn default() -> (r: DnsTest)
        ensures
            is_default_test(r),
    {
        DnsTest {
            probe_domain: String::from_str("www.baidu.com"),
            samples: 5,
            timeout_ms: 1500,
            rank_by: String::from_str("latency"),
        }
    }
}

impl Default for DnsPreference {
    fn default() -> (r: DnsPreference)
        ensures
            is_default_dns_preference(r),
    {
        let categories = vec![
            String::from_str("default"),
            String::from_str("family"),
            String::from_str("secure"),
        ];
        assert(views(categories@) =~= seq!["default"@, "family"@, "secure"@]);
        DnsPreference {
            categories,
            prefer_ipv: String::from_str("ipv4"),
            prefer_country: String::from_str("CN"),
            test: DnsTest::default(),
            apply_when_better_than_current: true,
        }
    }
}

impl Default for TerminalConfig {
    fn default() -> (r: TerminalConfig)
        ensures
            is_default_terminal(r),
    {
        let vendors = vec![
            String::from_str("huawei_vrp"),
            String::from_str("h3c_vrp"),
            String::from_str("cisco_ios"),
        ];
        assert(views(vendors@) =~= seq!["huawei_vrp"@, "h3c_vrp"@, "cisco_ios"@]);
        let bauds: Vec<u32> = vec![9600, 115200, 19200, 38400, 57600];
        assert(bauds@ =~= seq![9600u32, 115200, 19200, 38400, 57600]);
        TerminalConfig {
            default_baud_rates: bauds,
            timeout_ms: 3000,
            vendors,
            ensp_compatible: true,
        }
    }
}

impl Default for TopologyConfig {
    fn default() -> (r: TopologyConfig)
        ensures
            is_default_topology(r),
    {
        TopologyConfig { export_format: String::from_str("d2"), auto_cli: true, open_after_export: true }
    }
}

impl Default for BackupConfig {
    fn default() -> (r: BackupConfig)
        ensures
            is_default_backup(r),
    {
        BackupConfig {
            dir: String::from_str("./backups"),
            keep_days: 30,
            bundle_ext: String::from_str("nmtsbak"),
        }
    }
}

impl Default for Config {
    fn default() -> (r: Config)
        ensures
            is_default_config(r),
    {
        Config {
            version: 1,
            admin_required: true,
            log_level: String::from_str("info"),
            log_keep_days: 7,
            dns_preference: DnsPreference::default(),
            terminal: TerminalConfig::default(),
            topology: TopologyConfig::default(),
            backup: BackupConfig::default(),
        }
    }
}

/// Field-level override of `base` by the user's settings: a non-zero version,
/// the user's administrator flag, a non-empty log level and a non-zero log
/// retention replace the base ones; the nested sections are the user's.
pub open spec fn merged(base: Config, user: Config) -> Config {
    Config {
        version: if user.version != 0 {
            user.version
        } else {
            base.version
        },
        admin_required: user.admin_required,
        log_level: if user.log_level@.len() > 0 {
            user.log_level
        } else {
            base.log_level
        },
        log_keep_days: if user.log_keep_days != 0 {
            user.log_keep_days
        } else {
            base.log_keep_days
        },
        dns_preference: user.dns_preference,
        terminal: user.terminal,
        topology: user.topology,
        backup: user.backup,
    }
}

/// Overrides the base settings field by field with the user's.
pub fn merge(base: &mut Config, user: Config)
    ensures
        *final(base) == merged(*old(base), user),
{
    if user.version != 0 {
        base.version = user.version;
    }
    if user.admin_required != base.admin_required {
        base.admin_required = user.admin_required;
    }
    if !user.log_level.as_str().is_empty() {
        base.log_level = user.log_level;
    }
    if user.log_keep_days != 0 {
        base.log_keep_days = user.log_keep_days;
    }
    base.dns_preference = user.dns_preference;
    base.terminal = user.terminal;
    base.topology = user.topology;
    base.backup = user.backup;
}

/// Applying the same user settings twice changes nothing more than applying them once.
pub proof fn lemma_merge_idempotent(base: Config, user: Config)
    ensures
        merged(merged(base, user), user) == merged(base, user),
{
}

/// User settings equal to the base leave the base unchanged.
pub proof fn lemma_merge_self(base: Config)
    ensures
        merged(base, base) == base,
{
}

} // verus!
