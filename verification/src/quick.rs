//! Quick settings workflows: which commands an action runs, what the address
//! forms apply, and the messages shown for each outcome.
use vstd::prelude::*;
use vstd::string::*;

use crate::command::{combined_text, CmdOutput, CmdSpec};
use crate::config::DnsPreference;
use crate::dns::{rank, ranked, DnsBench};
use crate::net_set;
use crate::netsh::runs;
use crate::text::{starts_with, str_starts_with};
use crate::state::{DnsUpdate, advanced_action_list, advanced_actions, focus_rows_of, DnsState, QsRow, QuickAction, QuickSetState};

verus! {

/// The message when no internet adapter is known.
pub open spec fn no_adapter() -> Seq<char> {
    "未找到当前上网网卡"@
}

/// What a quick action needs done.
pub enum QuickStep {
    /// Run these commands in order.
    Run(Vec<CmdSpec>),
    /// Refuse, with this message.
    Refuse(String),
    /// Start a DNS speed test over these preferences (applying is a separate step).
    DnsTest { categories: Vec<String>, prefer_ipv: String, prefer_country: String },
}

/// Plans a quick action on the internet adapter `iface` (empty when none is known).
pub fn plan_quick(action: QuickAction, iface: &str, ipv6_on: bool, pref: &DnsPreference) -> (r:
    QuickStep)
    ensures
        match action {
            QuickAction::FlushDns => r matches QuickStep::Run(c) && c@.len() == 1 && runs(
                c@[0],
                "ipconfig"@,
                seq!["/flushdns"@], 20),
            QuickAction::TcpOptimize => r matches QuickStep::Run(c) && c@.len() == 1 && runs(
                c@[0],
                "netsh"@,
                seq![
                    "int"@,
                    "tcp"@,
                    "set"@,
                    "global"@,
                    "autotuninglevel=normal"@,
                    "ecncapability=enabled"@,
                ], 20),
            QuickAction::ReleaseRenew => if iface@.len() == 0 {
                r matches QuickStep::Refuse(m) && m@ == no_adapter()
            } else {
                r matches QuickStep::Run(c) && c@.len() == 2 && runs(
                    c@[0],
                    "ipconfig"@,
                    seq!["/release"@, iface@], 20) && runs(c@[1], "ipconfig"@, seq!["/renew"@, iface@], 20)
            },
            QuickAction::DnsOptimize => if iface@.len() == 0 {
                r matches QuickStep::Refuse(m) && m@ == no_adapter()
            } else {
                r matches QuickStep::DnsTest { categories, prefer_ipv, prefer_country } && categories@
                    == pref.categories@ && prefer_ipv@ == (if ipv6_on {
                    pref.prefer_ipv@
                } else {
                    "ipv4"@
                }) && prefer_country@ == pref.prefer_country@
            },
        },
{
    match action {
        QuickAction::FlushDns => QuickStep::Run(vec![net_set::flush_dns()]),
        QuickAction::TcpOptimize => QuickStep::Run(vec![net_set::tcp_optimize()]),
        QuickAction::ReleaseRenew => {
            if iface.is_empty() {
                QuickStep::Refuse(String::from_str("未找到当前上网网卡"))
            } else {
                let (rel, ren) = net_set::release_renew(iface);
                QuickStep::Run(vec![rel, ren])
            }
        },
        QuickAction::DnsOptimize => {
            if iface.is_empty() {
                QuickStep::Refuse(String::from_str("未找到当前上网网卡"))
            } else {
                let mut categories: Vec<String> = Vec::new();
                let mut i: usize = 0;
                while i < pref.categories.len()
                    invariant
                        i <= pref.categories@.len(),
                        categories@ == pref.categories@.take(i as int),
                    decreases pref.categories@.len() - i,
                {
                    categories.push(pref.categories[i].clone());
                    assert(categories@ =~= pref.categories@.take(i + 1));
                    i = i + 1;
                }
                assert(categories@ =~= pref.categories@);
                QuickStep::DnsTest {
                    categories,
                    prefer_ipv: if ipv6_on {
                        pref.prefer_ipv.clone()
                    } else {
                        String::from_str("ipv4")
                    },
                    prefer_country: pref.prefer_country.clone(),
                }
            }
        },
    }
}

/// The success message of a quick action whose commands ran.
pub open spec fn quick_done_text(action: QuickAction) -> Seq<char> {
    match action {
        QuickAction::FlushDns => "已刷新 DNS 缓存"@,
        QuickAction::ReleaseRenew => "已释放并重新获取 IP"@,
        QuickAction::TcpOptimize => "TCP 已优化（自动调谐 + ECN）"@,
        QuickAction::DnsOptimize => "已启动 DNS 优选测速（不会自动应用）"@,
    }
}

/// The outcome of a quick action's run (for release/renew, the merged run):
/// its success and the message, the command output when it failed.
pub fn quick_outcome(action: QuickAction, out: &CmdOutput) -> (r: (bool, String))
    ensures
        r.0 == out.success,
        r.1@ == if out.success {
            quick_done_text(action)
        } else {
            combined_text(out.stdout@, out.stderr@)
        },
{
    if out.success {
        let m = match action {
            QuickAction::FlushDns => "已刷新 DNS 缓存",
            QuickAction::ReleaseRenew => "已释放并重新获取 IP",
            QuickAction::TcpOptimize => "TCP 已优化（自动调谐 + ECN）",
            QuickAction::DnsOptimize => "已启动 DNS 优选测速（不会自动应用）",
        };
        (true, String::from_str(m))
    } else {
        (false, out.combined())
    }
}

/// The outcome of the runs of a quick action's commands: one run is judged
/// alone, a release/renew pair as its merged run (see `release_renew_output`).
pub fn run_outcome(action: QuickAction, outs: &Vec<CmdOutput>) -> (r: (bool, String))
    requires
        1 <= outs@.len() <= 2,
    ensures
        outs@.len() == 1 ==> {
            let o = outs@[0];
            &&& r.0 == o.success
            &&& r.1@ == if o.success {
                quick_done_text(action)
            } else {
                combined_text(o.stdout@, o.stderr@)
            }
        },
        outs@.len() == 2 ==> {
            let rel = outs@[0];
            let ren = outs@[1];
            &&& r.0 == ren.success
            &&& r.1@ == if ren.success {
                quick_done_text(action)
            } else {
                combined_text(rel.stdout@ + "\n"@ + ren.stdout@, rel.stderr@ + "\n"@ + ren.stderr@)
            }
        },
{
    if outs.len() == 2 {
        let merged = net_set::release_renew_output(&outs[0], &outs[1]);
        quick_outcome(action, &merged)
    } else {
        quick_outcome(action, &outs[0])
    }
}

/// The result line: `✓` or `✗`, a space, and the message.
pub open spec fn result_line_text(ok: bool, msg: Seq<char>) -> Seq<char> {
    (if ok {
        "✓"@
    } else {
        "✗"@
    }) + " "@ + msg
}

/// The result line of a quick action.
pub fn result_line(ok: bool, msg: &str) -> (r: String)
    ensures
        r@ == result_line_text(ok, msg@),
{
    let mut s = String::from_str(
        if ok {
            "✓"
        } else {
            "✗"
        },
    );
    s.append(" ");
    s.append(msg);
    s
}

/// The status after a DNS speed test: a prompt to choose when some candidate
/// answered, else that none did.
pub fn dns_test_status(results: &[DnsBench]) -> (r: String)
    ensures
        r@ == if exists|i: int| 0 <= i < results@.len() && #[trigger] results@[i].reachable {
            "测速完成，↑/↓ 选择 · Enter 应用 · Esc 返回"@
        } else {
            "无可达候选 DNS"@
        },
{
    let mut i: usize = 0;
    while i < results.len()
        invariant
            i <= results@.len(),
            forall|k: int| 0 <= k < i ==> !#[trigger] results@[k].reachable,
        decreases results@.len() - i,
    {
        if results[i].reachable {
            return String::from_str("测速完成，↑/↓ 选择 · Enter 应用 · Esc 返回");
        }
        i = i + 1;
    }
    String::from_str("无可达候选 DNS")
}

impl DnsState {
    /// A speed test starts: the old ranking is cleared and the status says so.
    pub fn start_test(&mut self)
        ensures
            final(self).running,
            !final(self).interactive,
            final(self).results@.len() == 0,
            final(self).selected == 0,
            final(self).offset == 0,
            final(self).status matches Some(s) && s@ == "DNS 优选测速中…"@,
    {
        self.running = true;
        self.interactive = false;
        self.results = Vec::new();
        self.selected = 0;
        self.offset = 0;
        self.status = Some(String::from_str("DNS 优选测速中…"));
    }
}

/// What submitting an address form needs done.
pub enum FormStep {
    /// Refuse with this message, leaving editing when `stop_editing`.
    Refuse { message: String, stop_editing: bool },
    /// Back up, run these commands, show the message and leave editing.
    Apply { commands: Vec<CmdSpec>, message: String },
    /// Back up and set the static address; only if that succeeds, run the
    /// DNS commands, show the message and leave editing.
    Address { address: CmdSpec, dns: Vec<CmdSpec>, message: String },
}

/// ` / <second>` when a second DNS server is given.
pub open spec fn second_suffix(dns2: Seq<char>) -> Seq<char> {
    if dns2.len() == 0 {
        Seq::empty()
    } else {
        " / "@ + dns2
    }
}

/// Plans the submission of the address form being edited.
pub fn plan_ip_form(q: &QuickSetState, iface: &str) -> (r: FormStep)
    ensures
        iface@.len() == 0 ==> (r matches FormStep::Refuse { message, stop_editing } && message@
            == "✗ "@ + no_adapter() && stop_editing),
        iface@.len() > 0 && q.editing_v6 ==> {
            let dns1 = q.ipv6_fields@[3]@;
            let dns2 = q.ipv6_fields@[4]@;
            if dns1.len() == 0 {
                r matches FormStep::Refuse { message, stop_editing } && message@
                    == "✗ 请至少填写 IPv6 主 DNS"@ && !stop_editing
            } else {
                r matches FormStep::Apply { commands, message } && commands@.len() == (if dns2.len()
                    == 0 {
                    1int
                } else {
                    2int
                }) && runs(
                    commands@[0],
                    "netsh"@,
                    seq!["interface"@, "ipv6"@, "set"@, "dns"@, iface@, "static"@, dns1], 20) && (dns2.len() > 0 ==> runs(
                    commands@[1],
                    "netsh"@,
                    seq!["interface"@, "ipv6"@, "add"@, "dns"@, iface@, dns2, "index=2"@], 20)) && message@ == "✓ 已设置 IPv6 DNS "@ + dns1 + second_suffix(dns2)
            }
        },
        iface@.len() > 0 && !q.editing_v6 ==> {
            let gw = q.ipv4_fields@[0]@;
            let mask = q.ipv4_fields@[1]@;
            let ip = q.ipv4_fields@[2]@;
            let dns1 = q.ipv4_fields@[3]@;
            let dns2 = q.ipv4_fields@[4]@;
            if ip.len() == 0 || mask.len() == 0 {
                r matches FormStep::Refuse { message, stop_editing } && message@
                    == "✗ 请至少填写 IP 地址和子网掩码"@ && !stop_editing
            } else {
                r matches FormStep::Address { address, dns, message } && runs(
                    address,
                    "netsh"@,
                    seq!["interface"@, "ip"@, "set"@, "address"@, iface@, "static"@, ip, mask, gw], 20) && dns@.len() == (if dns1.len() > 0 {
                    1int
                } else {
                    0int
                }) + (if dns2.len() > 0 {
                    1int
                } else {
                    0int
                }) && (dns1.len() > 0 ==> runs(
                    dns@[0],
                    "netsh"@,
                    seq!["interface"@, "ip"@, "set"@, "dns"@, iface@, "static"@, dns1], 20)) && (dns2.len() > 0 ==> runs(
                    dns@.last(),
                    "netsh"@,
                    seq!["interface"@, "ip"@, "add"@, "dns"@, iface@, dns2, "index=2"@], 20)) && message@ == "✓ 已设置静态 IP "@ + ip + "/"@ + mask + " 网关 "@ + (if gw.len()
                    == 0 {
                    "无"@
                } else {
                    gw
                })
            }
        },
{
    if iface.is_empty() {
        let mut message = String::from_str("✗ ");
        message.append("未找到当前上网网卡");
        return FormStep::Refuse { message, stop_editing: true };
    }
    if q.editing_v6 {
        let dns1 = q.ipv6_fields[3].as_str();
        let dns2 = q.ipv6_fields[4].as_str();
        if dns1.is_empty() {
            return FormStep::Refuse {
                message: String::from_str("✗ 请至少填写 IPv6 主 DNS"),
                stop_editing: false,
            };
        }
        let mut commands = vec![net_set::set_dns_v6(iface, dns1)];
        let mut message = String::from_str("✓ 已设置 IPv6 DNS ");
        message.append(dns1);
        if !dns2.is_empty() {
            commands.push(net_set::add_dns_v6(iface, dns2));
            message.append(" / ");
            message.append(dns2);
        }
        FormStep::Apply { commands, message }
    } else {
        let gw = q.ipv4_fields[0].as_str();
        let mask = q.ipv4_fields[1].as_str();
        let ip = q.ipv4_fields[2].as_str();
        let dns1 = q.ipv4_fields[3].as_str();
        let dns2 = q.ipv4_fields[4].as_str();
        if ip.is_empty() || mask.is_empty() {
            return FormStep::Refuse {
                message: String::from_str("✗ 请至少填写 IP 地址和子网掩码"),
                stop_editing: false,
            };
        }
        let address = net_set::set_static_ip(iface, ip, mask, gw);
        let mut dns: Vec<CmdSpec> = Vec::new();
        if !dns1.is_empty() {
            dns.push(net_set::set_dns(iface, dns1));
        }
        if !dns2.is_empty() {
            dns.push(net_set::add_dns(iface, dns2));
        }
        let mut message = String::from_str("✓ 已设置静态 IP ");
        message.append(ip);
        message.append("/");
        message.append(mask);
        message.append(" 网关 ");
        if gw.is_empty() {
            message.append("无");
        } else {
            message.append(gw);
        }
        FormStep::Address { address, dns, message }
    }
}

/// What switching IPv4 between DHCP and static needs done.
pub enum Ipv4Toggle {
    /// Refuse, with this message.
    Refuse(String),
    /// Back up, then run this command to return to DHCP.
    ToDhcp(CmdSpec),
    /// Back up and switch the form to static addressing, with this message.
    ToStatic(String),
}

/// Plans the IPv4 switch.
pub fn plan_ipv4_toggle(ipv4_static: bool, iface: &str) -> (r: Ipv4Toggle)
    ensures
        iface@.len() == 0 ==> (r matches Ipv4Toggle::Refuse(m) && m@ == "✗ "@ + no_adapter()),
        iface@.len() > 0 && ipv4_static ==> (r matches Ipv4Toggle::ToDhcp(c) && runs(
            c,
            "netsh"@,
            seq!["interface"@, "ip"@, "set"@, "address"@, iface@, "dhcp"@], 20)),
        iface@.len() > 0 && !ipv4_static ==> (r matches Ipv4Toggle::ToStatic(m) && m@
            == "已切换为静态 IP：填字段后 Enter 应用"@),
{
    if iface.is_empty() {
        let mut message = String::from_str("✗ ");
        message.append("未找到当前上网网卡");
        Ipv4Toggle::Refuse(message)
    } else if ipv4_static {
        Ipv4Toggle::ToDhcp(net_set::set_ip_dhcp(iface))
    } else {
        Ipv4Toggle::ToStatic(String::from_str("已切换为静态 IP：填字段后 Enter 应用"))
    }
}

/// After the return to DHCP ran: whether the form is now DHCP, and the message.
pub fn dhcp_outcome(out: &CmdOutput) -> (r: (bool, String))
    ensures
        r.0 == out.success,
        r.1@ == if out.success {
            "✓ IPv4 已切回 DHCP 自动获取"@
        } else {
            "✗ "@ + combined_text(out.stdout@, out.stderr@)
        },
{
    if out.success {
        (true, String::from_str("✓ IPv4 已切回 DHCP 自动获取"))
    } else {
        let mut m = String::from_str("✗ ");
        m.append(out.combined().as_str());
        (false, m)
    }
}

/// After IPv6 was switched from `was_on`: whether it is on now, and the message.
pub fn ipv6_outcome(was_on: bool, out: &CmdOutput) -> (r: (bool, String))
    ensures
        r.0 == (was_on != out.success),
        r.1@ == if out.success {
            "✓ IPv6 已切换为"@ + (if r.0 {
                "启用"@
            } else {
                "禁用"@
            })
        } else {
            "✗ "@ + combined_text(out.stdout@, out.stderr@)
        },
{
    let on = if out.success {
        !was_on
    } else {
        was_on
    };
    if out.success {
        let mut m = String::from_str("✓ IPv6 已切换为");
        m.append(
            if on {
                "启用"
            } else {
                "禁用"
            },
        );
        (on, m)
    } else {
        let mut m = String::from_str("✗ ");
        m.append(out.combined().as_str());
        (on, m)
    }
}

/// What applying the selected DNS result needs done.
pub enum DnsApply {
    /// No result is selected: nothing happens.
    Nothing,
    /// Refused, with this message.
    Refuse(String),
    /// Back up the network settings, run these commands, then show `result`
    /// and `status` and leave the interactive ranking.
    Apply { commands: Vec<CmdSpec>, result: String, status: String },
}

/// Whether a DNS category is an IPv6 one (its name starts with `ipv6`).
pub open spec fn is_ipv6_category(c: Seq<char>) -> bool {
    starts_with(c, "ipv6"@)
}

/// The commands that make `b` the DNS of `iface`: its primary server, then
/// its secondary one when it has one, over IPv6 for IPv6 categories.
pub open spec fn dns_apply_commands(c: Seq<CmdSpec>, b: DnsBench, iface: Seq<char>) -> bool {
    let v6 = is_ipv6_category(b.provider.category@);
    let ip = if v6 {
        "ipv6"@
    } else {
        "ip"@
    };
    &&& c.len() == if b.provider.secondary@.len() == 0 {
        1int
    } else {
        2int
    }
    &&& runs(c[0], "netsh"@, seq!["interface"@, ip, "set"@, "dns"@, iface, "static"@, b.provider.primary@], 20)
    &&& c.len() == 2 ==> runs(
        c[1],
        "netsh"@,
        seq!["interface"@, ip, "add"@, "dns"@, iface, b.provider.secondary@, "index=2"@], 20)
}

/// Plans applying the selected row of the DNS ranking to the internet
/// adapter `iface` (empty when none is known).
pub fn plan_dns_apply(dns: &DnsState, iface: &str) -> (r: DnsApply)
    ensures
        dns.selected >= dns.results@.len() ==> r is Nothing,
        dns.selected < dns.results@.len() ==> {
            let b = dns.results@[dns.selected as int];
            if iface@.len() == 0 {
                r matches DnsApply::Refuse(m) && m@ == "✗ 未找到当前上网网卡"@
            } else if !b.reachable {
                r matches DnsApply::Refuse(m) && m@ == "✗ 该候选不可达"@
            } else {
                r matches DnsApply::Apply { commands, result, status } && dns_apply_commands(
                    commands@,
                    b,
                    iface@,
                ) && result@ == "✓ 已应用 DNS "@ + b.provider.name@ + "（"@ + b.provider.primary@
                    + " / "@ + b.provider.secondary@ + "）"@ && status@ == "已应用 "@
                    + b.provider.name@ + "，原 DNS 已备份可回退"@
            }
        },
{
    if dns.selected >= dns.results.len() {
        return DnsApply::Nothing;
    }
    let b = &dns.results[dns.selected];
    if iface.is_empty() {
        return DnsApply::Refuse(String::from_str("✗ 未找到当前上网网卡"));
    }
    if !b.reachable {
        return DnsApply::Refuse(String::from_str("✗ 该候选不可达"));
    }
    let primary = b.provider.primary.as_str();
    let secondary = b.provider.secondary.as_str();
    let mut commands: Vec<CmdSpec> = Vec::new();
    proof {
        reveal_strlit("ipv6");
    }
    if str_starts_with(b.provider.category.as_str(), "ipv6") {
        commands.push(net_set::set_dns_v6(iface, primary));
        if !secondary.is_empty() {
            commands.push(net_set::add_dns_v6(iface, secondary));
        }
    } else {
        commands.push(net_set::set_dns(iface, primary));
        if !secondary.is_empty() {
            commands.push(net_set::add_dns(iface, secondary));
        }
    }
    let mut result = String::from_str("✓ 已应用 DNS ");
    result.append(b.provider.name.as_str());
    result.append("（");
    result.append(primary);
    result.append(" / ");
    result.append(secondary);
    result.append("）");
    let mut status = String::from_str("已应用 ");
    status.append(b.provider.name.as_str());
    status.append("，原 DNS 已备份可回退");
    DnsApply::Apply { commands, result, status }
}

/// What Enter does on the quick-settings panel.
#[derive(Debug, Clone, Copy, PartialEq, Eq, Structural)]
pub enum QuickEnter {
    /// Submit the address form being edited.
    SubmitForm,
    /// Apply the selected DNS ranking row.
    ApplyDns,
    /// Switch IPv4 between static and DHCP.
    ToggleIpv4,
    /// Switch IPv6 on or off.
    ToggleIpv6,
    /// Start editing a field of the IPv4 or IPv6 form.
    BeginEdit { v6: bool, idx: usize },
    /// Open or close the advanced section (its selection resets).
    ToggleAdvanced,
    /// Run an advanced action.
    Run(QuickAction),
    /// Nothing to do.
    Nothing,
}

/// Decides what Enter does: an edit in progress is submitted, an
/// interactive DNS ranking applies its row, otherwise the focused row acts.
pub fn quick_enter(q: &QuickSetState, dns_interactive: bool, ipv6_on: bool) -> (r: QuickEnter)
    ensures
        q.editing ==> r == QuickEnter::SubmitForm,
        !q.editing && dns_interactive ==> r == QuickEnter::ApplyDns,
        !q.editing && !dns_interactive ==> r == match (if q.focus < focus_rows_of(
            q.ipv4_static,
            ipv6_on,
            q.advanced_open,
        ).len() {
            focus_rows_of(q.ipv4_static, ipv6_on, q.advanced_open)[q.focus as int]
        } else {
            QsRow::Ipv4Toggle
        }) {
            QsRow::Ipv4Toggle => QuickEnter::ToggleIpv4,
            QsRow::Ipv4Field(i) => QuickEnter::BeginEdit { v6: false, idx: i },
            QsRow::Ipv6Toggle => QuickEnter::ToggleIpv6,
            QsRow::Ipv6Field(i) => QuickEnter::BeginEdit { v6: true, idx: i },
            QsRow::AdvancedToggle => QuickEnter::ToggleAdvanced,
            QsRow::AdvancedItem(i) => if i < advanced_action_list().len() {
                QuickEnter::Run(advanced_action_list()[i as int].1)
            } else {
                QuickEnter::Nothing
            },
        },
{
    if q.editing {
        return QuickEnter::SubmitForm;
    }
    if dns_interactive {
        return QuickEnter::ApplyDns;
    }
    match q.current_row(ipv6_on) {
        QsRow::Ipv4Toggle => QuickEnter::ToggleIpv4,
        QsRow::Ipv4Field(i) => QuickEnter::BeginEdit { v6: false, idx: i },
        QsRow::Ipv6Toggle => QuickEnter::ToggleIpv6,
        QsRow::Ipv6Field(i) => QuickEnter::BeginEdit { v6: true, idx: i },
        QsRow::AdvancedToggle => QuickEnter::ToggleAdvanced,
        QsRow::AdvancedItem(i) => {
            let acts = advanced_actions();
            proof {
                assert(acts@.map_values(|p: (&str, QuickAction)| (p.0@, p.1)).len() == acts@.len());
            }
            if i < acts.len() {
                proof {
                    assert(acts@.map_values(|p: (&str, QuickAction)| (p.0@, p.1))[i as int] == (
                        acts@[i as int].0@,
                        acts@[i as int].1,
                    ));
                }
                QuickEnter::Run(acts[i].1)
            } else {
                QuickEnter::Nothing
            }
        },
    }
}

/// A finished speed test: the results ranked for the preferred country,
/// with the status telling whether any candidate answered.
pub fn finish_dns_test(results: Vec<DnsBench>, prefer_country: &str) -> (u: DnsUpdate)
    ensures
        u.results@ == ranked(results@, prefer_country@),
        u.status@ == if exists|i: int| 0 <= i < u.results@.len() && #[trigger] u.results@[i].reachable {
            "测速完成，↑/↓ 选择 · Enter 应用 · Esc 返回"@
        } else {
            "无可达候选 DNS"@
        },
{
    let r = rank(results, prefer_country);
    let status = dns_test_status(r.as_slice());
    DnsUpdate { results: r, status }
}

} // verus!
