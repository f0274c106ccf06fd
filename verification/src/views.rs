//! What the screens show, as text: the rows of the check list and the
//! cells of the address forms.
use vstd::prelude::*;
use vstd::string::*;

use crate::design_check::{Finding, Severity};
use crate::dns::DnsBench;
use crate::quick::is_ipv6_category;
use crate::net_diag::{CheckResult, FixKind, Status};
use crate::serial::PortInfo;
use crate::state::{DiagState, TopoEntry, TopoState};
use crate::topology::{views, Device, Link};
use crate::vendor_cli::{Category, CommandTemplate, VendorTemplate};
use crate::text::{decimal, push_decimal};
use crate::widgets::{status_icon, status_icon_text};

verus! {

broadcast use vstd::seq_lib::group_seq_properties;

/// The marker before a form row: being edited, focused, or neither.
pub open spec fn marker_text(focused: bool, editing: bool) -> Seq<char> {
    if editing {
        " ▸ "@
    } else if focused {
        " ▶ "@
    } else {
        "   "@
    }
}

/// The marker before a form row.
pub fn field_marker(focused: bool, editing: bool) -> (r: &'static str)
    ensures
        r@ == marker_text(focused, editing),
{
    if editing {
        " ▸ "
    } else if focused {
        " ▶ "
    } else {
        "   "
    }
}

/// The value shown in a form field: read-only fields show `（自动获取）`
/// when empty, the edited field shows a cursor, other empty fields `（未填）`.
pub open spec fn field_value_text(val: Seq<char>, editing: bool, readonly: bool) -> Seq<char> {
    if readonly {
        if val.len() == 0 {
            "（自动获取）"@
        } else {
            val
        }
    } else if editing {
        val + "_"@
    } else if val.len() == 0 {
        "（未填）"@
    } else {
        val
    }
}

/// The value shown in a form field.
pub fn field_value(val: &str, editing: bool, readonly: bool) -> (r: String)
    ensures
        r@ == field_value_text(val@, editing, readonly),
{
    if readonly {
        if val.is_empty() {
            String::from_str("（自动获取）")
        } else {
            String::from_str(val)
        }
    } else if editing {
        let mut s = String::from_str(val);
        s.append("_");
        s
    } else if val.is_empty() {
        String::from_str("（未填）")
    } else {
        String::from_str(val)
    }
}

/// The lines shown before any diagnosis ran.
pub open spec fn idle_items() -> Seq<Seq<char>> {
    seq![
        " 尚未运行诊断。"@,
        Seq::empty(),
        " 将检测：网卡判定 / DHCP·IP / 默认路由 / 网关 / DNS / 代理 / 虚拟网卡"@,
        "        驱动 / 链路 / MTU / 外网 / 病毒 / 环路 / MAC 锁"@,
    ]
}

/// Whether a result offers a fix that runs automatically.
pub open spec fn has_auto_fix(r: CheckResult) -> bool {
    match r.fix {
        Some(f) => f.kind is Auto,
        None => false,
    }
}

/// The row of a check: icon, name, status in brackets and detail, and a
/// one-click mark when the fix runs automatically; a check still running
/// shows as such.
pub open spec fn check_row(name: Seq<char>, r: Option<CheckResult>) -> Seq<char> {
    match r {
        Some(res) => status_icon_text(res.status) + " "@ + name + " ["@ + res.status.label_text()
            + "] "@ + res.detail@ + if has_auto_fix(res) {
            "  → [一键修复]"@
        } else {
            Seq::empty()
        },
        None => status_icon_text(Status::Running) + " "@ + name + " ["@ + "检测中…"@ + "] "@,
    }
}

/// The rows of checks `0..k`, with the result of each when it has one.
pub open spec fn check_rows(names: Seq<Seq<char>>, results: Seq<Option<CheckResult>>, k: nat) -> Seq<
    Seq<char>,
>
    decreases k,
{
    if k == 0 {
        Seq::empty()
    } else {
        let i = k - 1;
        check_rows(names, results, i as nat).push(
            check_row(names[i], if i < results.len() { results[i] } else { None }),
        )
    }
}

/// The check list: the idle text before any run; afterwards a row per
/// check and, once there is a conclusion, a blank line and the conclusion.
pub open spec fn diag_rows(d: DiagState) -> Seq<Seq<char>> {
    if !d.started {
        idle_items()
    } else {
        check_rows(views(d.names@), d.results@, d.names@.len()) + match d.summary {
            Some(s) => seq![Seq::empty(), "▶ "@ + s@],
            None => Seq::empty(),
        }
    }
}

/// The row of one check.
fn check_row_of(name: &str, r: Option<&CheckResult>) -> (s: String)
    ensures
        s@ == check_row(
            name@,
            match r {
                Some(x) => Some(*x),
                None => None,
            },
        ),
{
    match r {
        Some(res) => {
            let mut s = String::from_str(status_icon(res.status));
            s.append(" ");
            s.append(name);
            s.append(" [");
            s.append(res.status.label());
            s.append("] ");
            s.append(res.detail.as_str());
            let auto = match &res.fix {
                Some(f) => match &f.kind {
                    FixKind::Auto(_) => true,
                    FixKind::Manual(_) => false,
                },
                None => false,
            };
            if auto {
                s.append("  → [一键修复]");
            }
            s
        },
        None => {
            let mut s = String::from_str(status_icon(Status::Running));
            s.append(" ");
            s.append(name);
            s.append(" [");
            s.append("检测中…");
            s.append("] ");
            s
        },
    }
}

/// The rows of the check list.
pub fn diag_items(d: &DiagState) -> (r: Vec<String>)
    ensures
        views(r@) == diag_rows(*d),
{
    if !d.started {
        let r = vec![
            String::from_str(" 尚未运行诊断。"),
            String::new(),
            String::from_str(" 将检测：网卡判定 / DHCP·IP / 默认路由 / 网关 / DNS / 代理 / 虚拟网卡"),
            String::from_str("        驱动 / 链路 / MTU / 外网 / 病毒 / 环路 / MAC 锁"),
        ];
        assert(views(r@) =~= idle_items());
        return r;
    }
    let mut r: Vec<String> = Vec::new();
    let mut i: usize = 0;
    while i < d.names.len()
        invariant
            i <= d.names@.len(),
            d.started,
            views(r@) == check_rows(views(d.names@), d.results@, i as nat),
        decreases d.names@.len() - i,
    {
        let res: Option<&CheckResult> = if i < d.results.len() {
            match &d.results[i] {
                Some(x) => Some(x),
                None => None,
            }
        } else {
            None
        };
        let row = check_row_of(d.names[i].as_str(), res);
        let ghost before = views(r@);
        r.push(row);
        assert(views(r@) =~= check_rows(views(d.names@), d.results@, (i + 1) as nat));
        i = i + 1;
    }
    match &d.summary {
        Some(s) => {
            let ghost before = views(r@);
            r.push(String::new());
            let mut line = String::from_str("▶ ");
            line.append(s.as_str());
            r.push(line);
            assert(views(r@) =~= before + seq![Seq::<char>::empty(), "▶ "@ + s@]);
        },
        None => {
            assert(views(r@) =~= views(r@) + Seq::<Seq<char>>::empty());
        },
    }
    r
}

// ---------------------------------------------------------------------------
// The topology module.

/// The topology list: the two creation entries, then each topology, the
/// selected one marked.
pub open spec fn topo_list_rows(entries: Seq<TopoEntry>, selected: usize) -> Seq<Seq<char>> {
    seq![" [新建拓扑图]  (N)"@, " [导入拓扑图]  (I)"@] + Seq::new(
        entries.len(),
        |i: int|
            (if i == selected {
                "▶ "@
            } else {
                "  "@
            }) + entries[i].name@,
    )
}

/// The rows of the topology list.
pub fn topo_list_items(t: &TopoState) -> (r: Vec<String>)
    ensures
        views(r@) == topo_list_rows(t.entries@, t.selected),
{
    let mut r = vec![String::from_str(" [新建拓扑图]  (N)"), String::from_str(" [导入拓扑图]  (I)")];
    let mut i: usize = 0;
    while i < t.entries.len()
        invariant
            i <= t.entries@.len(),
            views(r@) == topo_list_rows(t.entries@, t.selected).take(i + 2),
        decreases t.entries@.len() - i,
    {
        let mut line = String::from_str(if i == t.selected {
            "▶ "
        } else {
            "  "
        });
        line.append(t.entries[i].name.as_str());
        let ghost before = views(r@);
        r.push(line);
        assert(views(r@) =~= before.push(line@));
        assert(topo_list_rows(t.entries@, t.selected).take(i + 3) =~= topo_list_rows(
            t.entries@,
            t.selected,
        ).take(i + 2).push(line@));
        i = i + 1;
    }
    assert(topo_list_rows(t.entries@, t.selected).take(i + 2) =~= topo_list_rows(t.entries@, t.selected));
    r
}

/// The row of a device: its name, vendor and role.
pub open spec fn device_row(d: Device) -> Seq<char> {
    " "@ + d.name@ + " ["@ + d.vendor.label_text() + "·"@ + d.role.label_text() + "]"@
}

/// The row of a link: its ends, and the address of its first end when known.
pub open spec fn link_row(l: Link) -> Seq<char> {
    "   "@ + l.from@ + " ↔ "@ + l.to@ + if l.from_ip@.len() == 0 {
        Seq::empty()
    } else {
        "  "@ + l.from_ip@
    }
}

/// The device panel: a row per device, a blank line, the links heading,
/// and a row per link.
pub open spec fn device_rows(e: TopoEntry) -> Seq<Seq<char>> {
    e.topology.devices@.map_values(|d: Device| device_row(d)) + seq![Seq::empty(), " 链路："@]
        + e.topology.links@.map_values(|l: Link| link_row(l))
}

/// The rows of the device panel.
pub fn device_items(e: &TopoEntry) -> (r: Vec<String>)
    ensures
        views(r@) == device_rows(*e),
{
    let devs = &e.topology.devices;
    let mut r: Vec<String> = Vec::new();
    let mut i: usize = 0;
    while i < devs.len()
        invariant
            i <= devs@.len(),
            devs@ == e.topology.devices@,
            views(r@) == devs@.take(i as int).map_values(|d: Device| device_row(d)),
        decreases devs@.len() - i,
    {
        let d = &devs[i];
        let mut line = String::from_str(" ");
        line.append(d.name.as_str());
        line.append(" [");
        line.append(d.vendor.label());
        line.append("·");
        line.append(d.role.label());
        line.append("]");
        let ghost before = views(r@);
        r.push(line);
        assert(views(r@) =~= before.push(device_row(devs@[i as int])));
        assert(devs@.take(i + 1).map_values(|d: Device| device_row(d)) =~= devs@.take(
            i as int,
        ).map_values(|d: Device| device_row(d)).push(device_row(devs@[i as int])));
        i = i + 1;
    }
    assert(devs@.take(i as int) =~= devs@);
    let ghost mid = views(r@);
    r.push(String::new());
    r.push(String::from_str(" 链路："));
    assert(views(r@) =~= mid + seq![Seq::<char>::empty(), " 链路："@]);
    let ghost head = views(r@);
    let links = &e.topology.links;
    let mut k: usize = 0;
    while k < links.len()
        invariant
            k <= links@.len(),
            links@ == e.topology.links@,
            views(r@) == head + links@.take(k as int).map_values(|l: Link| link_row(l)),
        decreases links@.len() - k,
    {
        let l = &links[k];
        let mut line = String::from_str("   ");
        line.append(l.from.as_str());
        line.append(" ↔ ");
        line.append(l.to.as_str());
        if !l.from_ip.as_str().is_empty() {
            line.append("  ");
            line.append(l.from_ip.as_str());
        }
        assert(line@ =~= link_row(links@[k as int]));
        let ghost before = views(r@);
        r.push(line);
        assert(views(r@) =~= before.push(link_row(links@[k as int])));
        assert(links@.take(k + 1).map_values(|l: Link| link_row(l)) =~= links@.take(
            k as int,
        ).map_values(|l: Link| link_row(l)).push(link_row(links@[k as int])));
        k = k + 1;
    }
    assert(links@.take(k as int) =~= links@);
    r
}

/// The icon of a finding's severity.
pub open spec fn severity_icon(s: Severity) -> Seq<char> {
    match s {
        Severity::Error => "✗"@,
        Severity::Warn => "!"@,
        Severity::Info => "i"@,
    }
}

/// The row of a finding: icon, message and suggestion.
pub open spec fn finding_row(f: Finding) -> Seq<char> {
    severity_icon(f.severity) + " "@ + f.message@ + "  ↳ "@ + f.suggestion@
}

/// The findings panel of the selected topology.
pub open spec fn finding_rows(t: TopoState) -> Seq<Seq<char>> {
    if t.selected < t.entries@.len() {
        let fs = t.entries@[t.selected as int].findings@;
        if fs.len() == 0 {
            seq![" 预检通过，无问题。"@]
        } else {
            fs.map_values(|f: Finding| finding_row(f))
        }
    } else {
        seq![" （无拓扑）"@]
    }
}

/// The rows of the findings panel.
pub fn finding_items(t: &TopoState) -> (r: Vec<String>)
    ensures
        views(r@) == finding_rows(*t),
{
    match t.current() {
        None => {
            let r = vec![String::from_str(" （无拓扑）")];
            assert(views(r@) =~= finding_rows(*t));
            r
        },
        Some(e) => {
            if e.findings.len() == 0 {
                let r = vec![String::from_str(" 预检通过，无问题。")];
                assert(views(r@) =~= finding_rows(*t));
                return r;
            }
            let fs = &e.findings;
            let mut r: Vec<String> = Vec::new();
            let mut i: usize = 0;
            while i < fs.len()
                invariant
                    i <= fs@.len(),
                    views(r@) == fs@.take(i as int).map_values(|f: Finding| finding_row(f)),
                decreases fs@.len() - i,
            {
                let f = &fs[i];
                let mut line = String::from_str(
                    match f.severity {
                        Severity::Error => "✗",
                        Severity::Warn => "!",
                        Severity::Info => "i",
                    },
                );
                line.append(" ");
                line.append(f.message.as_str());
                line.append("  ↳ ");
                line.append(f.suggestion.as_str());
                let ghost before = views(r@);
                r.push(line);
                assert(views(r@) =~= before.push(finding_row(fs@[i as int])));
                assert(fs@.take(i + 1).map_values(|f: Finding| finding_row(f)) =~= fs@.take(
                    i as int,
                ).map_values(|f: Finding| finding_row(f)).push(finding_row(fs@[i as int])));
                i = i + 1;
            }
            assert(fs@.take(i as int) =~= fs@);
            r
        },
    }
}

// ---------------------------------------------------------------------------
// The engineer terminal.

/// The rows of the port list.
pub open spec fn port_rows(ports: Seq<PortInfo>) -> Seq<Seq<char>> {
    if ports.len() == 0 {
        seq![" （未检测到串口）"@]
    } else {
        ports.map_values(|p: PortInfo| " "@ + p.name@ + " — "@ + p.description@)
    }
}

/// The rows of the port list.
pub fn port_items(ports: &[PortInfo]) -> (r: Vec<String>)
    ensures
        views(r@) == port_rows(ports@),
{
    if ports.len() == 0 {
        let r = vec![String::from_str(" （未检测到串口）")];
        assert(views(r@) =~= port_rows(ports@));
        return r;
    }
    let mut r: Vec<String> = Vec::new();
    let mut i: usize = 0;
    while i < ports.len()
        invariant
            i <= ports@.len(),
            ports@.len() > 0,
            views(r@) == ports@.take(i as int).map_values(
                |p: PortInfo| " "@ + p.name@ + " — "@ + p.description@,
            ),
        decreases ports@.len() - i,
    {
        let mut line = String::from_str(" ");
        line.append(ports[i].name.as_str());
        line.append(" — ");
        line.append(ports[i].description.as_str());
        let ghost before = views(r@);
        r.push(line);
        assert(views(r@) =~= before.push(line@));
        assert(ports@.take(i + 1).map_values(
            |p: PortInfo| " "@ + p.name@ + " — "@ + p.description@,
        ) =~= ports@.take(i as int).map_values(
            |p: PortInfo| " "@ + p.name@ + " — "@ + p.description@,
        ).push(line@));
        i = i + 1;
    }
    assert(ports@.take(i as int) =~= ports@);
    r
}

/// The label of the first category with the id, or nothing.
pub open spec fn category_label(cats: Seq<Category>, id: Seq<char>) -> Seq<char>
    decreases cats.len(),
{
    if cats.len() == 0 {
        Seq::empty()
    } else if cats[0].id@ == id {
        cats[0].label@
    } else {
        category_label(cats.skip(1), id)
    }
}

/// The row of a command template: its label, its category and the command.
pub open spec fn command_row(cats: Seq<Category>, c: CommandTemplate) -> Seq<char> {
    c.label@ + "  ["@ + category_label(cats, c.category@) + "]  "@ + c.command@
}

fn category_label_of(cats: &Vec<Category>, id: &str) -> (r: String)
    ensures
        r@ == category_label(cats@, id@),
{
    let mut i: usize = 0;
    assert(cats@.skip(0) =~= cats@);
    while i < cats.len()
        invariant
            i <= cats@.len(),
            category_label(cats@.skip(i as int), id@) == category_label(cats@, id@),
        decreases cats@.len() - i,
    {
        assert(cats@.skip(i as int)[0] == cats@[i as int]);
        assert(cats@.skip(i as int).skip(1) =~= cats@.skip(i + 1));
        if crate::text::str_eq(cats[i].id.as_str(), id) {
            return cats[i].label.clone();
        }
        i = i + 1;
    }
    assert(cats@.skip(i as int) =~= Seq::<Category>::empty());
    String::new()
}

/// The rows of a vendor's command templates.
pub fn command_items(v: &VendorTemplate) -> (r: Vec<String>)
    ensures
        views(r@) == v.commands@.map_values(|c: CommandTemplate| command_row(v.categories@, c)),
{
    let cs = &v.commands;
    let mut r: Vec<String> = Vec::new();
    let mut i: usize = 0;
    while i < cs.len()
        invariant
            i <= cs@.len(),
            cs@ == v.commands@,
            views(r@) == cs@.take(i as int).map_values(
                |c: CommandTemplate| command_row(v.categories@, c),
            ),
        decreases cs@.len() - i,
    {
        let c = &cs[i];
        let mut line = c.label.clone();
        line.append("  [");
        let cat = category_label_of(&v.categories, c.category.as_str());
        line.append(cat.as_str());
        line.append("]  ");
        line.append(c.command.as_str());
        let ghost before = views(r@);
        r.push(line);
        assert(views(r@) =~= before.push(command_row(v.categories@, cs@[i as int])));
        assert(cs@.take(i + 1).map_values(|c: CommandTemplate| command_row(v.categories@, c))
            =~= cs@.take(i as int).map_values(
            |c: CommandTemplate| command_row(v.categories@, c),
        ).push(command_row(v.categories@, cs@[i as int])));
        i = i + 1;
    }
    assert(cs@.take(i as int) =~= cs@);
    r
}

// ---------------------------------------------------------------------------
// The backup module.

/// The operations of the backup module.
#[derive(Debug, Clone, Copy, PartialEq, Eq, Structural)]
pub enum BackupAction {
    /// Back the machine's network settings up into a bundle.
    BackupMachine,
    /// Archive the connected device's configuration.
    BackupDevice,
    /// Restore the newest bundle.
    RestoreLatest,
    /// Rescan the bundles.
    Refresh,
}

/// The backup operations with their names and descriptions, in display order.
pub open spec fn backup_action_list() -> Seq<(Seq<char>, Seq<char>, BackupAction)> {
    seq![
        ("备份本机网络配置"@, "netsh dump + wlan profile + 注册表 → .nmtsbak"@, BackupAction::BackupMachine),
        ("备份已连接设备配置"@, "抓取 running-config 归档（需先连接设备）"@, BackupAction::BackupDevice),
        ("恢复最近备份"@, "netsh -f + wlan add + reg import"@, BackupAction::RestoreLatest),
        ("刷新备份列表"@, "重新扫描 backups/"@, BackupAction::Refresh),
    ]
}

fn action_row(name: &str, desc: &str) -> (r: String)
    ensures
        r@ == name@ + " — "@ + desc@,
{
    let mut s = String::from_str(name);
    s.append(" — ");
    s.append(desc);
    s
}

/// The rows of the backup operations: name, a dash, and description.
pub fn backup_action_items() -> (r: Vec<String>)
    ensures
        views(r@) == backup_action_list().map_values(
            |a: (Seq<char>, Seq<char>, BackupAction)| a.0 + " — "@ + a.1,
        ),
{
    let mut r: Vec<String> = Vec::new();
    r.push(action_row("备份本机网络配置", "netsh dump + wlan profile + 注册表 → .nmtsbak"));
    r.push(action_row("备份已连接设备配置", "抓取 running-config 归档（需先连接设备）"));
    r.push(action_row("恢复最近备份", "netsh -f + wlan add + reg import"));
    r.push(action_row("刷新备份列表", "重新扫描 backups/"));
    assert(views(r@) =~= backup_action_list().map_values(
        |a: (Seq<char>, Seq<char>, BackupAction)| a.0 + " — "@ + a.1,
    ));
    r
}

/// The backup operation at a position of the list, if any.
pub fn backup_action_at(i: usize) -> (r: Option<BackupAction>)
    ensures
        r == if i < backup_action_list().len() {
            Some(backup_action_list()[i as int].2)
        } else {
            None
        },
{
    if i == 0 {
        Some(BackupAction::BackupMachine)
    } else if i == 1 {
        Some(BackupAction::BackupDevice)
    } else if i == 2 {
        Some(BackupAction::RestoreLatest)
    } else if i == 3 {
        Some(BackupAction::Refresh)
    } else {
        None
    }
}

/// The drawer of the selected check: icon and name, detail, the heading of
/// the follow-up actions (none is offered), and the fix when there is one;
/// nothing while the selected check has no result.
pub open spec fn drill_rows(d: DiagState) -> Seq<Seq<char>> {
    if d.selected < d.results@.len() && d.results@[d.selected as int] is Some {
        let r = d.results@[d.selected as int]->0;
        seq![
            " "@ + status_icon_text(r.status) + " "@ + r.name@,
            " 详情："@ + r.detail@,
            Seq::empty(),
            " 子动作（↑/↓ · Enter 执行）"@,
            "  （无可用子动作）"@,
        ] + match r.fix {
            Some(f) => seq![Seq::<char>::empty(), " 修复："@ + f.label@],
            None => Seq::empty(),
        }
    } else {
        Seq::empty()
    }
}

/// The lines of the drawer of the selected check.
pub fn drill_lines(d: &DiagState) -> (r: Vec<String>)
    ensures
        r@.map_values(|s: String| s@) == drill_rows(*d),
{
    let mut r: Vec<String> = Vec::new();
    if d.selected < d.results.len() {
        match &d.results[d.selected] {
            Some(res) => {
                let mut head = String::from_str(" ");
                head.append(status_icon(res.status));
                head.append(" ");
                head.append(res.name.as_str());
                r.push(head);
                let mut detail = String::from_str(" 详情：");
                detail.append(res.detail.as_str());
                r.push(detail);
                r.push(String::new());
                r.push(String::from_str(" 子动作（↑/↓ · Enter 执行）"));
                r.push(String::from_str("  （无可用子动作）"));
                match &res.fix {
                    Some(f) => {
                        r.push(String::new());
                        let mut line = String::from_str(" 修复：");
                        line.append(f.label.as_str());
                        r.push(line);
                    },
                    None => {},
                }
            },
            None => {},
        }
    }
    assert(r@.map_values(|s: String| s@) =~= drill_rows(*d));
    r
}

/// The footer: the last status message, else the diagnosis summary, else
/// the module number and the keys.
pub open spec fn footer_line(status_msg: Option<String>, summary: Option<String>, tab: nat, tabs: nat) -> Seq<
    char,
> {
    match status_msg {
        Some(m) => m@,
        None => match summary {
            Some(s) => s@,
            None => "Tab "@ + decimal(tab + 1) + "/"@ + decimal(tabs)
                + " — Enter/R 运行诊断 · ←/→ 切换模块 · H 帮助 · Q 退出"@,
        },
    }
}

/// The footer line.
pub fn footer_text(status_msg: &Option<String>, summary: &Option<String>, tab: usize) -> (r: String)
    requires
        tab < usize::MAX,
    ensures
        r@ == footer_line(*status_msg, *summary, tab as nat, crate::state::tab_titles().len()),
{
    match status_msg {
        Some(m) => String::from_str(m.as_str()),
        None => match summary {
            Some(s) => String::from_str(s.as_str()),
            None => {
                let titles = crate::state::tabs();
                proof {
                    assert(titles@.map_values(|s: &str| s@).len() == titles@.len());
                }
                let mut r = String::from_str("Tab ");
                push_decimal(&mut r, (tab + 1) as u64);
                r.append("/");
                push_decimal(&mut r, titles.len() as u64);
                r.append(" — Enter/R 运行诊断 · ←/→ 切换模块 · H 帮助 · Q 退出");
                r
            },
        },
    }
}

/// The lines of generated configuration, each indented by one space.
pub open spec fn indented(lines: Seq<Seq<char>>) -> Seq<Seq<char>> {
    lines.map_values(|l: Seq<char>| " "@ + l)
}

/// The configuration preview: the topology's name and the selected device
/// with its vendor, then the generated configuration line by line (or how
/// to generate it), then the last status after a blank line.
pub open spec fn cli_panel_rows(t: TopoState) -> Seq<Seq<char>> {
    (if t.selected < t.entries@.len() {
        let e = t.entries@[t.selected as int];
        seq![" 拓扑："@ + e.name@] + if t.dev_idx < e.topology.devices@.len() {
            let d = e.topology.devices@[t.dev_idx as int];
            seq![" 设备："@ + d.name@ + "（"@ + d.vendor.label_text() + "）"@]
        } else {
            Seq::empty()
        }
    } else {
        Seq::empty()
    }) + match t.cli {
        Some(c) => indented(crate::state::text_lines(c@)),
        None => seq![" 按 Enter 生成选中设备的 CLI"@],
    } + match t.status {
        Some(s) => seq![Seq::<char>::empty(), " "@ + s@],
        None => Seq::empty(),
    }
}

/// The lines of the configuration preview.
pub fn cli_panel_lines(t: &TopoState) -> (r: Vec<String>)
    ensures
        r@.map_values(|s: String| s@) == cli_panel_rows(*t),
{
    let mut r: Vec<String> = Vec::new();
    if t.selected < t.entries.len() {
        let e = &t.entries[t.selected];
        let mut head = String::from_str(" 拓扑：");
        head.append(e.name.as_str());
        r.push(head);
        if t.dev_idx < e.topology.devices.len() {
            let d = &e.topology.devices[t.dev_idx];
            let mut line = String::from_str(" 设备：");
            line.append(d.name.as_str());
            line.append("（");
            line.append(d.vendor.label());
            line.append("）");
            r.push(line);
        }
    }
    let ghost head = r@.map_values(|s: String| s@);
    let ghost first: Seq<Seq<char>> = if t.selected < t.entries@.len() {
        let e = t.entries@[t.selected as int];
        seq![" 拓扑："@ + e.name@] + if t.dev_idx < e.topology.devices@.len() {
            let d = e.topology.devices@[t.dev_idx as int];
            seq![" 设备："@ + d.name@ + "（"@ + d.vendor.label_text() + "）"@]
        } else {
            Seq::empty()
        }
    } else {
        Seq::empty()
    };
    assert(head =~= first);
    match &t.cli {
        Some(c) => {
            let lines = crate::state::lines_of(c.as_str());
            let mut i: usize = 0;
            while i < lines.len()
                invariant
                    i <= lines@.len(),
                    views(lines@) == crate::state::text_lines(c@),
                    r@.map_values(|s: String| s@) == head + indented(views(lines@).take(i as int)),
                decreases lines@.len() - i,
            {
                let mut line = String::from_str(" ");
                line.append(lines[i].as_str());
                let ghost before = r@.map_values(|s: String| s@);
                r.push(line);
                assert(views(lines@)[i as int] == lines@[i as int]@);
                assert(indented(views(lines@).take(i + 1)) =~= indented(views(lines@).take(i as int))
                    .push(" "@ + lines@[i as int]@));
                assert(r@.map_values(|s: String| s@) =~= before.push(" "@ + lines@[i as int]@));
                i = i + 1;
            }
            assert(views(lines@).take(lines@.len() as int) =~= views(lines@));
        },
        None => {
            r.push(String::from_str(" 按 Enter 生成选中设备的 CLI"));
        },
    }
    let ghost mid = r@.map_values(|s: String| s@);
    let ghost second: Seq<Seq<char>> = match &t.cli {
        Some(c) => indented(crate::state::text_lines(c@)),
        None => seq![" 按 Enter 生成选中设备的 CLI"@],
    };
    assert(mid =~= first + second);
    match &t.status {
        Some(s) => {
            r.push(String::new());
            let mut line = String::from_str(" ");
            line.append(s.as_str());
            r.push(line);
        },
        None => {},
    }
    let ghost third: Seq<Seq<char>> = match &t.status {
        Some(s) => seq![Seq::<char>::empty(), " "@ + s@],
        None => Seq::empty(),
    };
    assert(r@.map_values(|s: String| s@) =~= mid + third);
    assert(cli_panel_rows(*t) == first + second + third);
    r
}

/// `n` spaces.
pub open spec fn spaces(n: nat) -> Seq<char> {
    Seq::new(n, |i: int| ' ')
}

/// `s` right-aligned in `w` characters (`{:>w}`).
pub open spec fn pad_start(s: Seq<char>, w: nat) -> Seq<char> {
    if s.len() >= w {
        s
    } else {
        spaces((w - s.len()) as nat) + s
    }
}

/// `s` left-aligned in `w` characters (`{:<w}`).
pub open spec fn pad_end(s: Seq<char>, w: nat) -> Seq<char> {
    if s.len() >= w {
        s
    } else {
        s + spaces((w - s.len()) as nat)
    }
}

fn push_spaces(s: &mut String, n: usize)
    ensures
        final(s)@ == old(s)@ + spaces(n as nat),
{
    let mut i: usize = 0;
    while i < n
        invariant
            i <= n,
            s@ == old(s)@ + spaces(i as nat),
        decreases n - i,
    {
        crate::text::push_char(s, ' ');
        assert(spaces((i + 1) as nat) =~= spaces(i as nat).push(' '));
        i = i + 1;
    }
}

/// The address family of a DNS candidate, by its category.
pub open spec fn protocol_text(category: Seq<char>) -> Seq<char> {
    if is_ipv6_category(category) {
        "IPv6"@
    } else {
        "IPv4"@
    }
}

fn protocol_str(category: &str) -> (r: &'static str)
    ensures
        r@ == protocol_text(category@),
{
    proof {
        reveal_strlit("ipv6");
    }
    if crate::text::str_starts_with(category, "ipv6") {
        "IPv6"
    } else {
        "IPv4"
    }
}

/// A measured latency, or `超时` when the candidate did not answer.
pub open spec fn latency_text(l: Option<u32>) -> Seq<char> {
    match l {
        Some(ms) => decimal(ms as nat) + "ms"@,
        None => "超时"@,
    }
}

/// Row `i` of the DNS ranking: rank, family, name, country, latency, and a
/// mark when unreachable.
pub open spec fn dns_row(i: nat, b: DnsBench) -> Seq<char> {
    pad_start(decimal(i + 1), 2) + ". ["@ + protocol_text(b.provider.category@) + "] "@ + pad_end(
        b.provider.name@,
        16,
    ) + " ["@ + b.provider.country@ + "] "@ + latency_text(b.latency_ms) + if b.reachable {
        Seq::empty()
    } else {
        " [不可达]"@
    }
}

/// The rows of the DNS ranking.
pub open spec fn dns_rows(results: Seq<DnsBench>) -> Seq<Seq<char>> {
    Seq::new(results.len(), |i: int| dns_row(i as nat, results[i]))
}

/// One row of the DNS ranking.
fn dns_item(i: usize, b: &DnsBench) -> (r: String)
    requires
        i < u64::MAX,
    ensures
        r@ == dns_row(i as nat, *b),
{
    let mut rank = String::new();
    push_decimal(&mut rank, i as u64 + 1);
    let mut r = String::new();
    let n = rank.as_str().unicode_len();
    if n < 2 {
        push_spaces(&mut r, 2 - n);
    }
    r.append(rank.as_str());
    r.append(". [");
    r.append(protocol_str(b.provider.category.as_str()));
    r.append("] ");
    r.append(b.provider.name.as_str());
    let m = b.provider.name.as_str().unicode_len();
    if m < 16 {
        push_spaces(&mut r, 16 - m);
    }
    r.append(" [");
    r.append(b.provider.country.as_str());
    r.append("] ");
    match b.latency_ms {
        Some(ms) => {
            push_decimal(&mut r, ms as u64);
            r.append("ms");
        },
        None => r.append("超时"),
    }
    if !b.reachable {
        r.append(" [不可达]");
    }
    proof {
        let e: Seq<char> = Seq::empty();
        if n >= 2 {
            assert(e + decimal((i + 1) as nat) =~= pad_start(decimal((i + 1) as nat), 2));
        }
        if m >= 16 {
            assert(b.provider.name@ + e =~= pad_end(b.provider.name@, 16));
        }
    }
    assert(r@ =~= dns_row(i as nat, *b));
    r
}

/// The rows of the DNS ranking.
pub fn dns_items(results: &[DnsBench]) -> (r: Vec<String>)
    ensures
        r@.map_values(|s: String| s@) == dns_rows(results@),
{
    let mut r: Vec<String> = Vec::new();
    let mut i: usize = 0;
    while i < results.len()
        invariant
            i <= results@.len(),
            r@.map_values(|s: String| s@) == dns_rows(results@).take(i as int),
        decreases results@.len() - i,
    {
        let row = dns_item(i, &results[i]);
        r.push(row);
        assert(dns_rows(results@).take(i + 1) =~= dns_rows(results@).take(i as int).push(
            dns_row(i as nat, results@[i as int]),
        ));
        assert(r@.map_values(|s: String| s@) =~= dns_rows(results@).take(i + 1));
        i = i + 1;
    }
    assert(dns_rows(results@).take(results@.len() as int) =~= dns_rows(results@));
    r
}

/// What applying a candidate would do: its family, name and servers, with
/// the backup that precedes it; or that it is unreachable.
pub open spec fn dns_tip_text(b: DnsBench) -> Seq<char> {
    if b.reachable {
        " 将应用：["@ + protocol_text(b.provider.category@) + "] "@ + b.provider.name@ + "（"@
            + b.provider.primary@ + " / "@ + b.provider.secondary@ + "），应用前自动备份"@
    } else {
        " 该候选不可达"@
    }
}

/// The hint under the DNS ranking for the selected candidate.
pub fn dns_tip(b: &DnsBench) -> (r: String)
    ensures
        r@ == dns_tip_text(*b),
{
    if b.reachable {
        let mut r = String::from_str(" 将应用：[");
        r.append(protocol_str(b.provider.category.as_str()));
        r.append("] ");
        r.append(b.provider.name.as_str());
        r.append("（");
        r.append(b.provider.primary.as_str());
        r.append(" / ");
        r.append(b.provider.secondary.as_str());
        r.append("），应用前自动备份");
        r
    } else {
        String::from_str(" 该候选不可达")
    }
}

} // verus!
