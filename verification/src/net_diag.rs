//! Network diagnosis, basic layer: each check turns what was probed (the
//! internet adapter, its IP configuration, the default route, reachability,
//! proxies, virtual adapters) into a verdict with an optional fix, and the
//! verdicts are summed up in one sentence.
use vstd::prelude::*;
use vstd::string::*;

use crate::adapter::{is_virtual_adapter, kind_label_text, Adapter};
use crate::command::{combined_text, console, CmdOutput, CmdSpec};
use crate::netsh::runs;
use crate::probe::{flag_or_false, low32_or_zero, present_entries, text_or_empty};
use crate::seqs::{collect_somes, lemma_filter_take_step, lemma_take_all};
use crate::text::{
    contains, decimal, join, lowercase, push_decimal, starts_with, str_contains, str_starts_with,
    to_lower,
};
use crate::topology::views;

verus! {

broadcast use vstd::seq_lib::group_seq_properties;

/// Diagnosis layer.
#[derive(Debug, Clone, Copy, PartialEq, Eq, Structural)]
pub enum Layer {
    Basic,
    Local,
    External,
}

impl Layer {
    pub open spec fn label_text(self) -> Seq<char> {
        match self {
            Layer::Basic => "基础层"@,
            Layer::Local => "本机环境"@,
            Layer::External => "外部因素"@,
        }
    }

    /// Display name.
    pub fn label(&self) -> (r: &'static str)
        ensures
            r@ == self.label_text(),
    {
        match self {
            Layer::Basic => "基础层",
            Layer::Local => "本机环境",
            Layer::External => "外部因素",
        }
    }
}

/// State of a check.
#[derive(Debug, Clone, Copy, PartialEq, Eq, Structural)]
pub enum Status {
    Pending,
    Running,
    Normal,
    Warn,
    Error,
    Info,
}

impl Status {
    pub open spec fn label_text(self) -> Seq<char> {
        match self {
            Status::Pending => "待检测"@,
            Status::Running => "检测中"@,
            Status::Normal => "正常"@,
            Status::Warn => "警告"@,
            Status::Error => "异常"@,
            Status::Info => "信息"@,
        }
    }

    /// Display name.
    pub fn label(&self) -> (r: &'static str)
        ensures
            r@ == self.label_text(),
    {
        match self {
            Status::Pending => "待检测",
            Status::Running => "检测中",
            Status::Normal => "正常",
            Status::Warn => "警告",
            Status::Error => "异常",
            Status::Info => "信息",
        }
    }
}

/// A fix: a command that can run automatically, or manual steps to show.
#[derive(Debug, Clone)]
pub enum FixKind {
    Auto(String),
    Manual(String),
}

/// A suggested fix.
#[derive(Debug, Clone)]
pub struct Fix {
    pub kind: FixKind,
    pub label: String,
}

/// The result of one check.
#[derive(Debug, Clone)]
pub struct CheckResult {
    pub id: &'static str,
    pub name: String,
    pub layer: Layer,
    pub status: Status,
    pub detail: String,
    pub fix: Option<Fix>,
    /// The adapter the result applies to (none: global).
    pub scope: Option<String>,
}

/// The content of a fix: whether it runs automatically, its command or steps, its label.
pub struct FixView {
    pub auto: bool,
    pub text: Seq<char>,
    pub label: Seq<char>,
}

/// The content of a check result.
pub struct CheckView {
    pub id: Seq<char>,
    pub name: Seq<char>,
    pub layer: Layer,
    pub status: Status,
    pub detail: Seq<char>,
    pub fix: Option<FixView>,
    pub scope: Option<Seq<char>>,
}

impl View for Fix {
    type V = FixView;

    open spec fn view(&self) -> FixView {
        match self.kind {
            FixKind::Auto(c) => FixView { auto: true, text: c@, label: self.label@ },
            FixKind::Manual(m) => FixView { auto: false, text: m@, label: self.label@ },
        }
    }
}

impl View for CheckResult {
    type V = CheckView;

    open spec fn view(&self) -> CheckView {
        CheckView {
            id: self.id@,
            name: self.name@,
            layer: self.layer,
            status: self.status,
            detail: self.detail@,
            fix: match self.fix {
                Some(f) => Some(f@),
                None => None,
            },
            scope: match self.scope {
                Some(s) => Some(s@),
                None => None,
            },
        }
    }
}

/// A manual fix.
pub open spec fn manual(steps: Seq<char>, label: Seq<char>) -> Option<FixView> {
    Some(FixView { auto: false, text: steps, label })
}

/// An automatic fix.
pub open spec fn auto(command: Seq<char>, label: Seq<char>) -> Option<FixView> {
    Some(FixView { auto: true, text: command, label })
}

/// A basic-layer result.
pub open spec fn basic(
    id: Seq<char>,
    name: Seq<char>,
    status: Status,
    detail: Seq<char>,
    fix: Option<FixView>,
    scope: Option<Seq<char>>,
) -> CheckView {
    CheckView { id, name, layer: Layer::Basic, status, detail, fix, scope }
}

/// The name of the adapter, where there is one.
pub open spec fn adapter_scope(a: Option<Adapter>) -> Option<Seq<char>> {
    match a {
        Some(a) => Some(a.name@),
        None => None,
    }
}

fn manual_fix(steps: &str, label: &str) -> (r: Option<Fix>)
    ensures
        r matches Some(f) && f@ == (FixView { auto: false, text: steps@, label: label@ }),
{
    Some(Fix { kind: FixKind::Manual(String::from_str(steps)), label: String::from_str(label) })
}

fn result(
    id: &'static str,
    name: &str,
    status: Status,
    detail: String,
    fix: Option<Fix>,
    scope: Option<String>,
) -> (r: CheckResult)
    ensures
        r@ == basic(
            id@,
            name@,
            status,
            detail@,
            match fix {
                Some(f) => Some(f@),
                None => None,
            },
            match scope {
                Some(s) => Some(s@),
                None => None,
            },
        ),
{
    CheckResult {
        id,
        name: String::from_str(name),
        layer: Layer::Basic,
        status,
        detail,
        fix,
        scope,
    }
}

fn name_of(a: &Option<Adapter>) -> (r: Option<String>)
    ensures
        match r {
            Some(s) => adapter_scope(*a) == Some(s@),
            None => adapter_scope(*a) is None,
        },
{
    match a {
        Some(a) => Some(a.name.clone()),
        None => None,
    }
}

/// An adapter's IPv4 configuration.
#[derive(Debug, Clone)]
pub struct IpConfig {
    pub ip: String,
    pub prefix_len: u32,
    pub gateway: String,
    pub dns: Vec<String>,
    pub dhcp_enabled: bool,
}

impl Default for IpConfig {
    fn default() -> (r: IpConfig)
        ensures
            r.ip@.len() == 0,
            r.prefix_len == 0,
            r.gateway@.len() == 0,
            r.dns@.len() == 0,
            !r.dhcp_enabled,
    {
        IpConfig {
            ip: String::new(),
            prefix_len: 0,
            gateway: String::new(),
            dns: Vec::new(),
            dhcp_enabled: false,
        }
    }
}

/// The Internet Explorer (per-user) proxy setting.
#[derive(Debug, Clone)]
pub struct IeProxy {
    pub enabled: bool,
    pub server: String,
}

impl Default for IeProxy {
    fn default() -> (r: IeProxy)
        ensures
            !r.enabled,
            r.server@.len() == 0,
    {
        IeProxy { enabled: false, server: String::new() }
    }
}

/// What the diagnosis knows of the machine, probed once at start.
#[derive(Debug, Clone)]
pub struct DiagContext {
    pub active_adapter: Option<Adapter>,
    pub adapters: Vec<Adapter>,
    pub is_admin: bool,
}

impl Default for DiagContext {
    fn default() -> (r: DiagContext)
        ensures
            r.active_adapter is None,
            r.adapters@.len() == 0,
            !r.is_admin,
    {
        DiagContext { active_adapter: None, adapters: Vec::new(), is_admin: false }
    }
}

/// Progress of a diagnosis run, as shown while it runs.
#[derive(Debug, Clone)]
pub enum DiagEvent {
    /// The run started with this many checks.
    Started { total: usize },
    /// A check started.
    CheckStarted { index: usize, name: String },
    /// A check finished.
    CheckDone { index: usize, result: CheckResult },
    /// A live log line.
    Log(String),
    /// The run finished.
    Finished { summary: String },
}

/// The diagnosis engine.
pub struct Diagnoser {
    pub ctx: DiagContext,
}

// ---------------------------------------------------------------------------
// The checks, as functions of what was probed.

/// The internet adapter, and whether it is physical.
pub open spec fn active_adapter_check(a: Option<Adapter>) -> CheckView {
    match a {
        Some(a) => if is_virtual_adapter(a) {
            basic(
                "active_adapter"@,
                "当前上网网卡判定"@,
                Status::Warn,
                "当前上网网卡「"@ + a.name@ + "」被判定为虚拟网卡（"@ + kind_label_text(a)
                    + "），可能并非真实物理出口。"@,
                None,
                Some(a.name@),
            )
        } else {
            basic(
                "active_adapter"@,
                "当前上网网卡判定"@,
                Status::Normal,
                "当前上网网卡「"@ + a.name@ + "」（"@ + kind_label_text(a) + "，"@ + a.status@
                    + "），判定为物理网卡。"@,
                None,
                Some(a.name@),
            )
        },
        None => basic(
            "active_adapter"@,
            "当前上网网卡判定"@,
            Status::Error,
            "未找到默认路由，无法判定当前上网网卡（可能未连接网络）。"@,
            manual("检查网线 / 无线是否已连接，并确认网卡已启用。"@, "需手动：连接网络后重试"@),
            None,
        ),
    }
}

/// The address configuration of the internet adapter: missing, self-assigned
/// (169.254.x.x, DHCP failed), or present with or without a gateway.
pub open spec fn dhcp_ip_check(a: Option<Adapter>, cfg: Option<IpConfig>) -> CheckView {
    match a {
        None => basic(
            "dhcp_ip"@,
            "DHCP / IP 地址配置"@,
            Status::Warn,
            "无当前上网网卡，跳过 IP 配置检测。"@,
            None,
            None,
        ),
        Some(a) => match cfg {
            None => basic(
                "dhcp_ip"@,
                "DHCP / IP 地址配置"@,
                Status::Error,
                "无法获取网卡「"@ + a.name@ + "」的 IP 配置。"@,
                manual("确认网卡已启用并已连接网络。"@, "需手动：检查网卡状态"@),
                Some(a.name@),
            ),
            Some(c) => if starts_with(c.ip@, "169.254."@) {
                basic(
                    "dhcp_ip"@,
                    "DHCP / IP 地址配置"@,
                    Status::Error,
                    "网卡「"@ + a.name@ + "」地址为 "@ + c.ip@ + "(自动专用地址)，说明 DHCP 获取失败。"@,
                    auto(
                        "ipconfig /release \""@ + a.name@ + "\" && ipconfig /renew \""@ + a.name@
                            + "\""@,
                        "可自动执行：释放并重新获取 IP"@,
                    ),
                    Some(a.name@),
                )
            } else {
                let no_gw = c.gateway@.len() == 0;
                basic(
                    "dhcp_ip"@,
                    "DHCP / IP 地址配置"@,
                    if no_gw {
                        Status::Warn
                    } else {
                        Status::Normal
                    },
                    "网卡「"@ + a.name@ + "」"@ + (if c.dhcp_enabled {
                        "DHCP 自动获取"@
                    } else {
                        "静态配置"@
                    }) + "：IP "@ + c.ip@ + "，前缀长度 "@ + decimal(c.prefix_len as nat) + "，网关 "@
                        + (if no_gw {
                        "无"@
                    } else {
                        c.gateway@
                    }) + "。"@ + (if no_gw {
                        " 未发现默认网关。"@
                    } else {
                        Seq::empty()
                    }),
                    if no_gw {
                        manual(
                            "确认 DHCP 服务器 / 路由器是否正常，或手动配置网关。"@,
                            "需手动：检查网关配置"@,
                        )
                    } else {
                        None
                    },
                    Some(a.name@),
                )
            },
        },
    }
}

/// Whether a default route exists, and its next hop.
pub open spec fn default_route_check(next_hop: Option<Seq<char>>, a: Option<Adapter>) -> CheckView {
    match next_hop {
        Some(h) => basic(
            "default_route"@,
            "默认路由 / 网关"@,
            Status::Normal,
            "存在默认路由，下一跳 "@ + h,
            None,
            adapter_scope(a),
        ),
        None => basic(
            "default_route"@,
            "默认路由 / 网关"@,
            Status::Error,
            "未发现默认路由（0.0.0.0/0），外网流量无出口。"@,
            manual("检查是否已获取 IP 与网关；若为静态 IP，确认已配置网关。"@, "需手动：配置默认网关"@),
            None,
        ),
    }
}

/// The gateway to ping: there is an internet adapter, its configuration, and a gateway in it.
pub open spec fn ping_target(a: Option<Adapter>, cfg: Option<IpConfig>) -> Option<Seq<char>> {
    match (a, cfg) {
        (Some(_), Some(c)) => if c.gateway@.len() > 0 {
            Some(c.gateway@)
        } else {
            None
        },
        _ => None,
    }
}

/// Whether the gateway answers; skipped without adapter, configuration or gateway.
pub open spec fn gateway_ping_check(a: Option<Adapter>, cfg: Option<IpConfig>, reachable: bool) -> CheckView {
    match a {
        None => basic(
            "gateway_ping"@,
            "网关连通性"@,
            Status::Warn,
            "无当前上网网卡，跳过网关连通检测。"@,
            None,
            None,
        ),
        Some(a) => match cfg {
            None => basic(
                "gateway_ping"@,
                "网关连通性"@,
                Status::Warn,
                "未获取到 IP 配置，跳过。"@,
                None,
                Some(a.name@),
            ),
            Some(c) => if c.gateway@.len() == 0 {
                basic(
                    "gateway_ping"@,
                    "网关连通性"@,
                    Status::Warn,
                    "无默认网关，无法测试网关连通。"@,
                    None,
                    Some(a.name@),
                )
            } else if reachable {
                basic(
                    "gateway_ping"@,
                    "网关连通性"@,
                    Status::Normal,
                    "网关 "@ + c.gateway@ + " 可达。"@,
                    None,
                    Some(a.name@),
                )
            } else {
                basic(
                    "gateway_ping"@,
                    "网关连通性"@,
                    Status::Error,
                    "网关 "@ + c.gateway@ + " 不可达，局域网链路可能中断。"@,
                    manual(
                        "检查网线 / 无线连接、路由器 / 交换机是否通电正常。"@,
                        "需手动：检查物理链路与网关设备"@,
                    ),
                    Some(a.name@),
                )
            },
        },
    }
}

/// The domain resolved to test DNS.
pub open spec fn probe_domain() -> Seq<char> {
    "www.baidu.com"@
}

/// Whether DNS resolution works.
pub open spec fn dns_resolve_check(ok: bool, a: Option<Adapter>) -> CheckView {
    if ok {
        basic(
            "dns_resolve"@,
            "DNS 解析"@,
            Status::Normal,
            "域名 "@ + probe_domain() + " 解析成功，DNS 服务可用。"@,
            None,
            adapter_scope(a),
        )
    } else {
        basic(
            "dns_resolve"@,
            "DNS 解析"@,
            Status::Error,
            "域名 "@ + probe_domain() + " 解析失败，DNS 服务可能不可用或配置被篡改。"@,
            auto("ipconfig /flushdns"@, "可自动执行：刷新 DNS 缓存"@),
            adapter_scope(a),
        )
    }
}

/// Whether WinHTTP reports direct access (in Chinese or, in any case, English).
pub open spec fn winhttp_direct(winhttp: Seq<char>) -> bool {
    contains(winhttp, "直接访问"@) || contains(lowercase(winhttp), "direct access"@)
}

/// Whether a system proxy is set, through WinHTTP or the per-user setting.
pub open spec fn system_proxy_check(winhttp: Seq<char>, ie: IeProxy) -> CheckView {
    let direct = winhttp_direct(winhttp);
    if !direct || ie.enabled {
        basic(
            "system_proxy"@,
            "系统代理检测"@,
            Status::Warn,
            "检测到系统代理已开启："@ + (if !direct {
                " WinHTTP 代理已设置；"@
            } else {
                Seq::empty()
            }) + (if ie.enabled {
                " 系统代理 "@ + ie.server@
            } else {
                Seq::empty()
            }),
            manual(
                "若未使用代理却无法上网，请关闭系统代理：设置 → 网络和 Internet → 代理。"@,
                "需手动：检查并关闭异常代理"@,
            ),
            None,
        )
    } else {
        basic("system_proxy"@, "系统代理检测"@, Status::Normal, "未检测到异常系统代理。"@, None, None)
    }
}

/// Whether an adapter is a virtual one that is up.
pub open spec fn up_virtual(a: Adapter) -> bool {
    is_virtual_adapter(a) && crate::text::eq_ignore_ascii_case(a.status@, "up"@)
}

/// The names of the virtual adapters that are up.
pub open spec fn up_virtual_names(adapters: Seq<Adapter>) -> Seq<Seq<char>> {
    adapters.filter(|a: Adapter| up_virtual(a)).map_values(|a: Adapter| a.name@)
}

/// Virtual adapters that are up: an error when the internet adapter itself is
/// virtual, a warning otherwise.
pub open spec fn virtual_nic_check(adapters: Seq<Adapter>, active: Option<Adapter>) -> CheckView {
    let names = up_virtual_names(adapters);
    let active_virtual = match active {
        Some(a) => is_virtual_adapter(a),
        None => false,
    };
    if names.len() == 0 {
        basic(
            "virtual_nic"@,
            "虚拟网卡干扰"@,
            Status::Normal,
            "未发现启用的虚拟 / VPN 网卡干扰。"@,
            None,
            None,
        )
    } else if active_virtual {
        basic(
            "virtual_nic"@,
            "虚拟网卡干扰"@,
            Status::Error,
            "当前上网网卡为虚拟网卡，另检测到虚拟网卡："@ + join(names, "、"@)
                + "。VPN / 虚拟网卡可能抢占网关导致误判或异常。"@,
            manual("如非必要，断开 VPN / 虚拟机网卡后再上网。"@, "需手动：断开干扰的虚拟网卡"@),
            None,
        )
    } else {
        basic(
            "virtual_nic"@,
            "虚拟网卡干扰"@,
            Status::Warn,
            "检测到启用的虚拟网卡："@ + join(names, "、"@) + "（仅供参考，不计入上网判定）。"@,
            None,
            None,
        )
    }
}

fn auto_fix(command: String, label: &str) -> (r: Option<Fix>)
    ensures
        r matches Some(f) && f@ == (FixView { auto: true, text: command@, label: label@ }),
{
    Some(Fix { kind: FixKind::Auto(command), label: String::from_str(label) })
}

/// The strings joined by `sep`.
fn join_strings(parts: &Vec<String>, sep: &str) -> (r: String)
    ensures
        r@ == join(views(parts@), sep@),
{
    let mut s = String::new();
    let mut i: usize = 0;
    while i < parts.len()
        invariant
            i <= parts@.len(),
            s@ == join(views(parts@.take(i as int)), sep@),
        decreases parts@.len() - i,
    {
        let ghost prev = views(parts@.take(i as int));
        assert(views(parts@.take(i + 1)) =~= prev.push(parts@[i as int]@));
        assert(views(parts@.take(i + 1)).drop_last() =~= prev);
        if i > 0 {
            s.append(sep);
        }
        s.append(parts[i].as_str());
        assert(s@ =~= join(views(parts@.take(i + 1)), sep@));
        i = i + 1;
    }
    assert(parts@.take(parts@.len() as int) =~= parts@);
    s
}

impl Diagnoser {
    /// A diagnoser over the probed context.
    pub fn new(ctx: DiagContext) -> (r: Diagnoser)
        ensures
            r.ctx == ctx,
    {
        Diagnoser { ctx }
    }

    /// Whether there is an internet adapter and whether it is physical.
    pub fn check_active_adapter(&self) -> (r: CheckResult)
        ensures
            r@ == active_adapter_check(self.ctx.active_adapter),
    {
        match &self.ctx.active_adapter {
            Some(a) => {
                if a.is_virtual() {
                    let mut d = String::from_str("当前上网网卡「");
                    d.append(a.name.as_str());
                    d.append("」被判定为虚拟网卡（");
                    d.append(a.kind_label());
                    d.append("），可能并非真实物理出口。");
                    result(
                        "active_adapter",
                        "当前上网网卡判定",
                        Status::Warn,
                        d,
                        None,
                        Some(a.name.clone()),
                    )
                } else {
                    let mut d = String::from_str("当前上网网卡「");
                    d.append(a.name.as_str());
                    d.append("」（");
                    d.append(a.kind_label());
                    d.append("，");
                    d.append(a.status.as_str());
                    d.append("），判定为物理网卡。");
                    result(
                        "active_adapter",
                        "当前上网网卡判定",
                        Status::Normal,
                        d,
                        None,
                        Some(a.name.clone()),
                    )
                }
            },
            None => result(
                "active_adapter",
                "当前上网网卡判定",
                Status::Error,
                String::from_str("未找到默认路由，无法判定当前上网网卡（可能未连接网络）。"),
                manual_fix("检查网线 / 无线是否已连接，并确认网卡已启用。", "需手动：连接网络后重试"),
                None,
            ),
        }
    }

    /// The address configuration of the internet adapter, given the one
    /// probed for it (none where it could not be read).
    pub fn check_dhcp_ip(&self, cfg: &Option<IpConfig>) -> (r: CheckResult)
        ensures
            r@ == dhcp_ip_check(self.ctx.active_adapter, *cfg),
    {
        let a = match &self.ctx.active_adapter {
            Some(a) => a,
            None => {
                return result(
                    "dhcp_ip",
                    "DHCP / IP 地址配置",
                    Status::Warn,
                    String::from_str("无当前上网网卡，跳过 IP 配置检测。"),
                    None,
                    None,
                );
            },
        };
        let c = match cfg {
            Some(c) => c,
            None => {
                let mut d = String::from_str("无法获取网卡「");
                d.append(a.name.as_str());
                d.append("」的 IP 配置。");
                return result(
                    "dhcp_ip",
                    "DHCP / IP 地址配置",
                    Status::Error,
                    d,
                    manual_fix("确认网卡已启用并已连接网络。", "需手动：检查网卡状态"),
                    Some(a.name.clone()),
                );
            },
        };
        if str_starts_with(c.ip.as_str(), "169.254.") {
            let mut d = String::from_str("网卡「");
            d.append(a.name.as_str());
            d.append("」地址为 ");
            d.append(c.ip.as_str());
            d.append("(自动专用地址)，说明 DHCP 获取失败。");
            let mut cmd = String::from_str("ipconfig /release \"");
            cmd.append(a.name.as_str());
            cmd.append("\" && ipconfig /renew \"");
            cmd.append(a.name.as_str());
            cmd.append("\"");
            return result(
                "dhcp_ip",
                "DHCP / IP 地址配置",
                Status::Error,
                d,
                auto_fix(cmd, "可自动执行：释放并重新获取 IP"),
                Some(a.name.clone()),
            );
        }
        let no_gw = c.gateway.as_str().is_empty();
        let mut d = String::from_str("网卡「");
        d.append(a.name.as_str());
        d.append("」");
        d.append(
            if c.dhcp_enabled {
                "DHCP 自动获取"
            } else {
                "静态配置"
            },
        );
        d.append("：IP ");
        d.append(c.ip.as_str());
        d.append("，前缀长度 ");
        push_decimal(&mut d, c.prefix_len as u64);
        d.append("，网关 ");
        if no_gw {
            d.append("无");
        } else {
            d.append(c.gateway.as_str());
        }
        d.append("。");
        if no_gw {
            d.append(" 未发现默认网关。");
        }
        let fix = if no_gw {
            manual_fix("确认 DHCP 服务器 / 路由器是否正常，或手动配置网关。", "需手动：检查网关配置")
        } else {
            None
        };
        result(
            "dhcp_ip",
            "DHCP / IP 地址配置",
            if no_gw {
                Status::Warn
            } else {
                Status::Normal
            },
            d,
            fix,
            Some(a.name.clone()),
        )
    }

    /// Whether a default route exists, given its probed next hop.
    pub fn check_default_route(&self, next_hop: Option<String>) -> (r: CheckResult)
        ensures
            r@ == default_route_check(
                match next_hop {
                    Some(h) => Some(h@),
                    None => None,
                },
                self.ctx.active_adapter,
            ),
    {
        match next_hop {
            Some(h) => {
                let mut d = String::from_str("存在默认路由，下一跳 ");
                d.append(h.as_str());
                result(
                    "default_route",
                    "默认路由 / 网关",
                    Status::Normal,
                    d,
                    None,
                    name_of(&self.ctx.active_adapter),
                )
            },
            None => result(
                "default_route",
                "默认路由 / 网关",
                Status::Error,
                String::from_str("未发现默认路由（0.0.0.0/0），外网流量无出口。"),
                manual_fix("检查是否已获取 IP 与网关；若为静态 IP，确认已配置网关。", "需手动：配置默认网关"),
                None,
            ),
        }
    }

    /// The gateway that the reachability check pings, if any.
    pub fn gateway_target(&self, cfg: &Option<IpConfig>) -> (r: Option<String>)
        ensures
            match r {
                Some(g) => ping_target(self.ctx.active_adapter, *cfg) == Some(g@),
                None => ping_target(self.ctx.active_adapter, *cfg) is None,
            },
    {
        match (&self.ctx.active_adapter, cfg) {
            (Some(_), Some(c)) => if c.gateway.as_str().is_empty() {
                None
            } else {
                Some(c.gateway.clone())
            },
            _ => None,
        }
    }

    /// Whether the gateway answers, given the probed configuration and the
    /// outcome of pinging the gateway that [`Diagnoser::gateway_target`] names.
    pub fn check_gateway_ping(&self, cfg: &Option<IpConfig>, reachable: bool) -> (r: CheckResult)
        ensures
            r@ == gateway_ping_check(self.ctx.active_adapter, *cfg, reachable),
    {
        let a = match &self.ctx.active_adapter {
            Some(a) => a,
            None => {
                return result(
                    "gateway_ping",
                    "网关连通性",
                    Status::Warn,
                    String::from_str("无当前上网网卡，跳过网关连通检测。"),
                    None,
                    None,
                );
            },
        };
        let c = match cfg {
            Some(c) => c,
            None => {
                return result(
                    "gateway_ping",
                    "网关连通性",
                    Status::Warn,
                    String::from_str("未获取到 IP 配置，跳过。"),
                    None,
                    Some(a.name.clone()),
                );
            },
        };
        if c.gateway.as_str().is_empty() {
            return result(
                "gateway_ping",
                "网关连通性",
                Status::Warn,
                String::from_str("无默认网关，无法测试网关连通。"),
                None,
                Some(a.name.clone()),
            );
        }
        let mut d = String::from_str("网关 ");
        d.append(c.gateway.as_str());
        if reachable {
            d.append(" 可达。");
            result("gateway_ping", "网关连通性", Status::Normal, d, None, Some(a.name.clone()))
        } else {
            d.append(" 不可达，局域网链路可能中断。");
            result(
                "gateway_ping",
                "网关连通性",
                Status::Error,
                d,
                manual_fix("检查网线 / 无线连接、路由器 / 交换机是否通电正常。", "需手动：检查物理链路与网关设备"),
                Some(a.name.clone()),
            )
        }
    }

    /// Whether DNS resolution works, given the outcome of resolving the probe domain.
    pub fn check_dns_resolve(&self, ok: bool) -> (r: CheckResult)
        ensures
            r@ == dns_resolve_check(ok, self.ctx.active_adapter),
    {
        let mut d = String::from_str("域名 ");
        d.append("www.baidu.com");
        if ok {
            d.append(" 解析成功，DNS 服务可用。");
            result("dns_resolve", "DNS 解析", Status::Normal, d, None, name_of(&self.ctx.active_adapter))
        } else {
            d.append(" 解析失败，DNS 服务可能不可用或配置被篡改。");
            result(
                "dns_resolve",
                "DNS 解析",
                Status::Error,
                d,
                auto_fix(String::from_str("ipconfig /flushdns"), "可自动执行：刷新 DNS 缓存"),
                name_of(&self.ctx.active_adapter),
            )
        }
    }

    /// Whether a system proxy is set, given the WinHTTP proxy report and the
    /// per-user proxy setting.
    pub fn check_system_proxy(&self, winhttp: &str, ie: &IeProxy) -> (r: CheckResult)
        ensures
            r@ == system_proxy_check(winhttp@, *ie),
    {
        let direct = str_contains(winhttp, "直接访问") || {
            let low = to_lower(winhttp);
            str_contains(low.as_str(), "direct access")
        };
        if !direct || ie.enabled {
            let mut d = String::from_str("检测到系统代理已开启：");
            if !direct {
                d.append(" WinHTTP 代理已设置；");
            }
            if ie.enabled {
                d.append(" 系统代理 ");
                d.append(ie.server.as_str());
            }
            assert(d@ =~= "检测到系统代理已开启："@ + (if !direct {
                " WinHTTP 代理已设置；"@
            } else {
                Seq::empty()
            }) + (if ie.enabled {
                " 系统代理 "@ + ie.server@
            } else {
                Seq::empty()
            }));
            result(
                "system_proxy",
                "系统代理检测",
                Status::Warn,
                d,
                manual_fix(
                    "若未使用代理却无法上网，请关闭系统代理：设置 → 网络和 Internet → 代理。",
                    "需手动：检查并关闭异常代理",
                ),
                None,
            )
        } else {
            result(
                "system_proxy",
                "系统代理检测",
                Status::Normal,
                String::from_str("未检测到异常系统代理。"),
                None,
                None,
            )
        }
    }

    /// Virtual adapters that are up, and whether the internet adapter is one.
    pub fn check_virtual_nic(&self) -> (r: CheckResult)
        ensures
            r@ == virtual_nic_check(self.ctx.adapters@, self.ctx.active_adapter),
    {
        let ghost p = |a: Adapter| up_virtual(a);
        let mut names: Vec<String> = Vec::new();
        let mut i: usize = 0;
        while i < self.ctx.adapters.len()
            invariant
                i <= self.ctx.adapters@.len(),
                p == (|a: Adapter| up_virtual(a)),
                views(names@) == self.ctx.adapters@.take(i as int).filter(p).map_values(
                    |a: Adapter| a.name@,
                ),
            decreases self.ctx.adapters@.len() - i,
        {
            proof {
                lemma_filter_take_step(self.ctx.adapters@, p, i as int);
            }
            let a = &self.ctx.adapters[i];
            let ghost before = self.ctx.adapters@.take(i as int).filter(p);
            if a.is_virtual() && a.is_up() {
                names.push(a.name.clone());
                assert(before.push(*a).map_values(|a: Adapter| a.name@) =~= before.map_values(
                    |a: Adapter| a.name@,
                ).push(a.name@));
            }
            assert(views(names@) =~= self.ctx.adapters@.take(i + 1).filter(p).map_values(
                |a: Adapter| a.name@,
            ));
            i = i + 1;
        }
        proof {
            lemma_take_all(self.ctx.adapters@);
        }
        assert(views(names@) == up_virtual_names(self.ctx.adapters@));
        if names.len() == 0 {
            return result(
                "virtual_nic",
                "虚拟网卡干扰",
                Status::Normal,
                String::from_str("未发现启用的虚拟 / VPN 网卡干扰。"),
                None,
                None,
            );
        }
        let joined = join_strings(&names, "、");
        let active_virtual = match &self.ctx.active_adapter {
            Some(a) => a.is_virtual(),
            None => false,
        };
        if active_virtual {
            let mut d = String::from_str("当前上网网卡为虚拟网卡，另检测到虚拟网卡：");
            d.append(joined.as_str());
            d.append("。VPN / 虚拟网卡可能抢占网关导致误判或异常。");
            result(
                "virtual_nic",
                "虚拟网卡干扰",
                Status::Error,
                d,
                manual_fix("如非必要，断开 VPN / 虚拟机网卡后再上网。", "需手动：断开干扰的虚拟网卡"),
                None,
            )
        } else {
            let mut d = String::from_str("检测到启用的虚拟网卡：");
            d.append(joined.as_str());
            d.append("（仅供参考，不计入上网判定）。");
            result("virtual_nic", "虚拟网卡干扰", Status::Warn, d, None, None)
        }
    }
}

// ---------------------------------------------------------------------------
// The summary sentence.

/// Results with the status.
pub open spec fn has_status(st: Status) -> spec_fn(CheckResult) -> bool {
    |r: CheckResult| r.status == st
}

/// Results with an automatic fix.
pub open spec fn auto_fixable() -> spec_fn(CheckResult) -> bool {
    |r: CheckResult| r.fix matches Some(f) && f.kind is Auto
}

/// Results with manual steps.
pub open spec fn manually_fixable() -> spec_fn(CheckResult) -> bool {
    |r: CheckResult| r.fix matches Some(f) && f.kind is Manual
}

/// A clause of the summary (`，<label> <n> 项`), present only when `n` is positive.
pub open spec fn summary_part(label: Seq<char>, n: nat) -> Seq<char> {
    if n > 0 {
        "，"@ + label + " "@ + decimal(n) + " 项"@
    } else {
        Seq::empty()
    }
}

/// The one-sentence conclusion: normal count always, then warnings, errors,
/// automatically fixable and manual items where there are any.
pub open spec fn summary_text(rs: Seq<CheckResult>) -> Seq<char> {
    "检测完成：正常 "@ + decimal(rs.filter(has_status(Status::Normal)).len()) + " 项"@
        + summary_part("警告"@, rs.filter(has_status(Status::Warn)).len())
        + summary_part("异常"@, rs.filter(has_status(Status::Error)).len())
        + summary_part("可自动修复"@, rs.filter(auto_fixable()).len())
        + summary_part("需手动处理"@, rs.filter(manually_fixable()).len()) + "。"@
}

fn push_part(s: &mut String, label: &str, n: usize)
    ensures
        final(s)@ == old(s)@ + summary_part(label@, n as nat),
{
    if n > 0 {
        s.append("，");
        s.append(label);
        s.append(" ");
        push_decimal(s, n as u64);
        s.append(" 项");
    }
}

/// Sums up the results in one sentence.
pub fn summarize(results: &[CheckResult]) -> (r: String)
    ensures
        r@ == summary_text(results@),
{
    let ghost (p_ok, p_warn, p_err, p_auto, p_manual) = (
        has_status(Status::Normal),
        has_status(Status::Warn),
        has_status(Status::Error),
        auto_fixable(),
        manually_fixable(),
    );
    let mut ok: usize = 0;
    let mut warn: usize = 0;
    let mut err: usize = 0;
    let mut auto_n: usize = 0;
    let mut manual_n: usize = 0;
    let mut i: usize = 0;
    while i < results.len()
        invariant
            i <= results@.len(),
            p_ok == has_status(Status::Normal),
            p_warn == has_status(Status::Warn),
            p_err == has_status(Status::Error),
            p_auto == auto_fixable(),
            p_manual == manually_fixable(),
            ok == results@.take(i as int).filter(p_ok).len(),
            warn == results@.take(i as int).filter(p_warn).len(),
            err == results@.take(i as int).filter(p_err).len(),
            auto_n == results@.take(i as int).filter(p_auto).len(),
            manual_n == results@.take(i as int).filter(p_manual).len(),
            ok <= i,
            warn <= i,
            err <= i,
            auto_n <= i,
            manual_n <= i,
        decreases results@.len() - i,
    {
        proof {
            lemma_filter_take_step(results@, p_ok, i as int);
            lemma_filter_take_step(results@, p_warn, i as int);
            lemma_filter_take_step(results@, p_err, i as int);
            lemma_filter_take_step(results@, p_auto, i as int);
            lemma_filter_take_step(results@, p_manual, i as int);
        }
        let r = &results[i];
        match r.status {
            Status::Normal => ok = ok + 1,
            Status::Warn => warn = warn + 1,
            Status::Error => err = err + 1,
            _ => {},
        }
        match &r.fix {
            Some(f) => match &f.kind {
                FixKind::Auto(_) => auto_n = auto_n + 1,
                FixKind::Manual(_) => manual_n = manual_n + 1,
            },
            None => {},
        }
        i = i + 1;
    }
    proof {
        lemma_take_all(results@);
    }
    let mut s = String::from_str("检测完成：正常 ");
    push_decimal(&mut s, ok as u64);
    s.append(" 项");
    push_part(&mut s, "警告", warn);
    push_part(&mut s, "异常", err);
    push_part(&mut s, "可自动修复", auto_n);
    push_part(&mut s, "需手动处理", manual_n);
    s.append("。");
    s
}

// ---------------------------------------------------------------------------
// The basic layer as a whole.

/// The identifiers of the basic-layer checks, in running order.
pub open spec fn basic_check_ids() -> Seq<Seq<char>> {
    seq![
        "active_adapter"@,
        "dhcp_ip"@,
        "default_route"@,
        "gateway_ping"@,
        "dns_resolve"@,
        "system_proxy"@,
        "virtual_nic"@,
    ]
}

/// The display names of the basic-layer checks, in running order.
pub open spec fn basic_check_titles() -> Seq<Seq<char>> {
    seq![
        "当前上网网卡判定"@,
        "DHCP / IP 地址配置"@,
        "默认路由 / 网关"@,
        "网关连通性"@,
        "DNS 解析"@,
        "系统代理检测"@,
        "虚拟网卡干扰"@,
    ]
}

/// What was probed for the basic layer.
#[derive(Debug, Clone)]
pub struct BasicProbes {
    /// The IP configuration of the internet adapter (none where unreadable).
    pub ip_config: Option<IpConfig>,
    /// The next hop of the default route, where there is one.
    pub next_hop: Option<String>,
    /// Whether the gateway named by [`Diagnoser::gateway_target`] answered.
    pub gateway_reachable: bool,
    /// Whether the probe domain resolved.
    pub dns_ok: bool,
    /// The WinHTTP proxy report.
    pub winhttp: String,
    pub ie_proxy: IeProxy,
}

/// The result of an unknown check identifier.
pub open spec fn unknown_check() -> CheckView {
    CheckView {
        id: "unknown"@,
        name: "未知检查"@,
        layer: Layer::Basic,
        status: Status::Info,
        detail: Seq::empty(),
        fix: None,
        scope: None,
    }
}

/// The result of the basic check `id` on the probes.
pub open spec fn basic_check(ctx: DiagContext, id: Seq<char>, p: BasicProbes) -> CheckView {
    if id == "active_adapter"@ {
        active_adapter_check(ctx.active_adapter)
    } else if id == "dhcp_ip"@ {
        dhcp_ip_check(ctx.active_adapter, p.ip_config)
    } else if id == "default_route"@ {
        default_route_check(
            match p.next_hop {
                Some(h) => Some(h@),
                None => None,
            },
            ctx.active_adapter,
        )
    } else if id == "gateway_ping"@ {
        gateway_ping_check(ctx.active_adapter, p.ip_config, p.gateway_reachable)
    } else if id == "dns_resolve"@ {
        dns_resolve_check(p.dns_ok, ctx.active_adapter)
    } else if id == "system_proxy"@ {
        system_proxy_check(p.winhttp@, p.ie_proxy)
    } else if id == "virtual_nic"@ {
        virtual_nic_check(ctx.adapters@, ctx.active_adapter)
    } else {
        unknown_check()
    }
}

impl Diagnoser {
    /// The identifiers of the basic-layer checks, in running order.
    pub fn basic_check_ids() -> (r: Vec<&'static str>)
        ensures
            r@.map_values(|s: &str| s@) == basic_check_ids(),
    {
        let r = vec![
            "active_adapter",
            "dhcp_ip",
            "default_route",
            "gateway_ping",
            "dns_resolve",
            "system_proxy",
            "virtual_nic",
        ];
        assert(r@.map_values(|s: &str| s@) =~= basic_check_ids());
        r
    }

    /// The basic-layer checks to run: identifier and display name, in order.
    pub fn basic_check_defs(&self) -> (r: Vec<(&'static str, String)>)
        ensures
            r@.len() == 7,
            forall|i: int|
                0 <= i < 7 ==> (#[trigger] r@[i]).0@ == basic_check_ids()[i] && r@[i].1@
                    == basic_check_titles()[i],
    {
        let ids = Self::basic_check_ids();
        let names = Self::basic_check_names();
        let mut r: Vec<(&'static str, String)> = Vec::new();
        let mut i: usize = 0;
        assert(ids@.len() == 7 && names@.len() == 7) by {
            assert(ids@.map_values(|s: &str| s@).len() == 7);
            assert(views(names@).len() == 7);
        }
        while i < 7
            invariant
                i <= 7,
                ids@.len() == 7,
                names@.len() == 7,
                ids@.map_values(|s: &str| s@) == basic_check_ids(),
                views(names@) == basic_check_titles(),
                r@.len() == i,
                forall|k: int|
                    0 <= k < i ==> (#[trigger] r@[k]).0@ == basic_check_ids()[k] && r@[k].1@
                        == basic_check_titles()[k],
            decreases 7 - i,
        {
            assert(ids@.map_values(|s: &str| s@)[i as int] == ids@[i as int]@);
            assert(views(names@)[i as int] == names@[i as int]@);
            r.push((ids[i], names[i].clone()));
            i = i + 1;
        }
        r
    }

    /// The names of the basic-layer checks, for listing them before they run.
    pub fn basic_check_names() -> (r: Vec<String>)
        ensures
            views(r@) == basic_check_titles(),
    {
        let r = vec![
            String::from_str("当前上网网卡判定"),
            String::from_str("DHCP / IP 地址配置"),
            String::from_str("默认路由 / 网关"),
            String::from_str("网关连通性"),
            String::from_str("DNS 解析"),
            String::from_str("系统代理检测"),
            String::from_str("虚拟网卡干扰"),
        ];
        assert(views(r@) =~= basic_check_titles());
        r
    }

    /// Runs the basic check `id` on the probes (an unknown id gives an
    /// informational result).
    pub fn run_basic_check(&self, id: &str, probes: &BasicProbes) -> (r: CheckResult)
        ensures
            r@ == basic_check(self.ctx, id@, *probes),
    {
        if crate::text::str_eq(id, "active_adapter") {
            self.check_active_adapter()
        } else if crate::text::str_eq(id, "dhcp_ip") {
            self.check_dhcp_ip(&probes.ip_config)
        } else if crate::text::str_eq(id, "default_route") {
            let hop = match &probes.next_hop {
                Some(h) => Some(h.clone()),
                None => None,
            };
            self.check_default_route(hop)
        } else if crate::text::str_eq(id, "gateway_ping") {
            self.check_gateway_ping(&probes.ip_config, probes.gateway_reachable)
        } else if crate::text::str_eq(id, "dns_resolve") {
            self.check_dns_resolve(probes.dns_ok)
        } else if crate::text::str_eq(id, "system_proxy") {
            self.check_system_proxy(probes.winhttp.as_str(), &probes.ie_proxy)
        } else if crate::text::str_eq(id, "virtual_nic") {
            self.check_virtual_nic()
        } else {
            CheckResult {
                id: "unknown",
                name: String::from_str("未知检查"),
                layer: Layer::Basic,
                status: Status::Info,
                detail: String::new(),
                fix: None,
                scope: None,
            }
        }
    }
}

// ---------------------------------------------------------------------------
// Probing commands and how their output is read.

/// The PowerShell query of an interface's IPv4 configuration, as JSON.
pub open spec fn ip_config_script_text(index: u32) -> Seq<char> {
    "$c=Get-NetIPConfiguration -InterfaceIndex "@ + decimal(index as nat)
        + " -ErrorAction SilentlyContinue; [PSCustomObject]@{ ip=($c.IPv4Address | Select-Object -First 1).IPAddress; prefix=[int](($c.IPv4Address | Select-Object -First 1).PrefixLength); gateway=($c.IPv4DefaultGateway | Select-Object -First 1).NextHop; dns=@($c.DNSServer.ServerAddresses | Where-Object { $_ }); dhcp=($c.NetIPv4Interface.Dhcp -eq 'Enabled') } | ConvertTo-Json -Compress"@
}

/// The PowerShell query of an interface's IPv4 configuration.
pub fn ip_config_script(index: u32) -> (r: String)
    ensures
        r@ == ip_config_script_text(index),
{
    let mut s = String::from_str("$c=Get-NetIPConfiguration -InterfaceIndex ");
    push_decimal(&mut s, index as u64);
    s.append(
        " -ErrorAction SilentlyContinue; [PSCustomObject]@{ ip=($c.IPv4Address | Select-Object -First 1).IPAddress; prefix=[int](($c.IPv4Address | Select-Object -First 1).PrefixLength); gateway=($c.IPv4DefaultGateway | Select-Object -First 1).NextHop; dns=@($c.DNSServer.ServerAddresses | Where-Object { $_ }); dhcp=($c.NetIPv4Interface.Dhcp -eq 'Enabled') } | ConvertTo-Json -Compress",
    );
    s
}

/// The PowerShell query of the per-user proxy setting, as JSON.
pub const IE_PROXY_SCRIPT: &'static str = "$p=Get-ItemProperty 'HKCU:\\Software\\Microsoft\\Windows\\CurrentVersion\\Internet Settings' -ErrorAction SilentlyContinue; [PSCustomObject]@{ enabled=($p.ProxyEnable -eq 1); server=[string]$p.ProxyServer } | ConvertTo-Json -Compress";

/// Two pings of `host`, two seconds each.
pub fn ping_command(host: &str) -> (r: CmdSpec)
    ensures
        runs(r, "ping"@, seq!["-n"@, "2"@, "-w"@, "2000"@, host@], 10),
{
    let r = console("ping", &["-n", "2", "-w", "2000", host], 10);
    assert(views(r.args@) =~= seq!["-n"@, "2"@, "-w"@, "2000"@, host@]);
    r
}

/// A ping got through: the command succeeded, or a reply line (`TTL=`) shows.
pub open spec fn ping_reply(out: CmdOutput) -> bool {
    out.success || contains(lowercase(out.stdout@), "ttl="@) || contains(out.stdout@, "TTL="@)
}

/// Whether a ping got through.
pub fn ping_ok(out: &CmdOutput) -> (r: bool)
    ensures
        r == ping_reply(*out),
{
    if out.success {
        return true;
    }
    let low = to_lower(out.stdout.as_str());
    str_contains(low.as_str(), "ttl=") || str_contains(out.stdout.as_str(), "TTL=")
}

/// A lookup of `domain`.
pub fn nslookup_command(domain: &str) -> (r: CmdSpec)
    ensures
        runs(r, "nslookup"@, seq![domain@], 15),
{
    let r = console("nslookup", &[domain], 15);
    assert(views(r.args@) =~= seq![domain@]);
    r
}

/// A lookup succeeded: its lowercased output names an address and reports no failure.
pub open spec fn lookup_answered(out: CmdOutput) -> bool {
    let text = lowercase(combined_text(out.stdout@, out.stderr@));
    (contains(text, "address"@) || contains(text, "地址"@)) && !(contains(text, "can't find"@)
        || contains(text, "timed out"@) || contains(text, "unknown"@) || contains(
        text,
        "nonexistent"@,
    ))
}

/// Whether a lookup succeeded.
pub fn dns_resolve_ok(out: &CmdOutput) -> (r: bool)
    ensures
        r == lookup_answered(*out),
{
    let all = out.combined();
    let text = to_lower(all.as_str());
    let t = text.as_str();
    let has_answer = str_contains(t, "address") || str_contains(t, "地址");
    let failed = str_contains(t, "can't find") || str_contains(t, "timed out") || str_contains(
        t,
        "unknown",
    ) || str_contains(t, "nonexistent");
    has_answer && !failed
}

/// The IP configuration from the fields its query reported: absent texts
/// are empty, an absent prefix zero (kept to its low 32 bits), an absent
/// DHCP flag false, and of the DNS list only its texts.
pub fn ip_config_from_raw(
    ip: Option<String>,
    prefix: Option<u64>,
    gateway: Option<String>,
    dns: Option<Vec<Option<String>>>,
    dhcp: Option<bool>,
) -> (r: IpConfig)
    ensures
        r.ip@ == text_or_empty(ip),
        r.prefix_len == low32_or_zero(prefix),
        r.gateway@ == text_or_empty(gateway),
        r.dns@ == present_entries(dns),
        r.dhcp_enabled == flag_or_false(dhcp),
{
    IpConfig {
        ip: match ip {
            Some(s) => s,
            None => String::new(),
        },
        prefix_len: match prefix {
            Some(n) => (n % 0x1_0000_0000) as u32,
            None => 0,
        },
        gateway: match gateway {
            Some(s) => s,
            None => String::new(),
        },
        dns: match dns {
            Some(v) => collect_somes(v),
            None => Vec::new(),
        },
        dhcp_enabled: match dhcp {
            Some(b) => b,
            None => false,
        },
    }
}

/// The proxy settings from the fields their query reported (absent: off,
/// no server).
pub fn ie_proxy_from_raw(enabled: Option<bool>, server: Option<String>) -> (r: IeProxy)
    ensures
        r.enabled == flag_or_false(enabled),
        r.server@ == text_or_empty(server),
{
    IeProxy {
        enabled: match enabled {
            Some(b) => b,
            None => false,
        },
        server: match server {
            Some(s) => s,
            None => String::new(),
        },
    }
}

/// The diagnosis is scoped to the internet adapter: whatever the probes
/// found, a basic check's result concerns either no adapter or the
/// internet adapter itself, never another one.
pub proof fn lemma_checks_scoped_to_active_adapter(ctx: DiagContext, id: Seq<char>, p: BasicProbes)
    ensures
        ({
            let r = basic_check(ctx, id, p);
            r.scope is None || (ctx.active_adapter matches Some(a) && r.scope == Some(a.name@))
        }),
{
}

/// A lookup whose (lowercased) output reports a time-out is never taken as
/// answered, even when the output names a server address.
pub proof fn lemma_timed_out_lookup_fails(out: CmdOutput)
    requires
        contains(lowercase(combined_text(out.stdout@, out.stderr@)), "timed out"@),
    ensures
        !lookup_answered(out),
{
}

} // verus!
