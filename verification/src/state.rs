//! Screen state of the five modules (diagnosis, quick settings, engineer
//! terminal, topology, backup) and how background results update it.
use vstd::prelude::*;
use vstd::string::*;

use crate::command::{combined_text, console, CmdOutput, CmdSpec};
use crate::design_check::{
    any_error, check, check_findings, copy_findings, finding_views, graph_fits, has_error, Finding,
    Intent,
};
use crate::net_diag::FixKind;
use crate::netsh::runs;
use crate::text::push_decimal;
use crate::topo_cli::{device_cli_text, generate_device_cli};
use crate::dns::DnsBench;
use crate::net_diag::{basic_check_titles, CheckResult, DiagEvent, Diagnoser};
use crate::serial::PortInfo;
use crate::topology::{demo_topology, is_demo_topology, same_topology, views, DeviceRole, Topology};
use crate::vendor_cli::VendorDb;

verus! {

broadcast use vstd::seq_lib::group_seq_properties;

/// The titles of the five modules.
pub open spec fn tab_titles() -> Seq<Seq<char>> {
    seq!["网络诊断"@, "快捷设置"@, "网工工具"@, "拓扑图"@, "配置备份"@]
}

/// The number of modules.
pub const TAB_COUNT: usize = 5;

/// The titles of the five modules, in order.
pub fn tabs() -> (r: Vec<&'static str>)
    ensures
        r@.map_values(|s: &str| s@) == tab_titles(),
{
    let r = vec!["网络诊断", "快捷设置", "网工工具", "拓扑图", "配置备份"];
    assert(r@.map_values(|s: &str| s@) =~= tab_titles());
    r
}

/// Quick actions of the advanced section.
#[derive(Debug, Clone, Copy, PartialEq, Eq, Structural)]
pub enum QuickAction {
    FlushDns,
    ReleaseRenew,
    TcpOptimize,
    /// Speed-test DNS candidates; applying one is a separate, confirmed step.
    DnsOptimize,
}

/// The advanced actions with their labels, in display order.
pub open spec fn advanced_action_list() -> Seq<(Seq<char>, QuickAction)> {
    seq![
        ("刷新 DNS 缓存"@, QuickAction::FlushDns),
        ("释放并续租 IP"@, QuickAction::ReleaseRenew),
        ("DNS 优选（测速排名）"@, QuickAction::DnsOptimize),
        ("TCP 全局优化"@, QuickAction::TcpOptimize),
    ]
}

/// The number of advanced actions.
pub const ADVANCED_COUNT: usize = 4;

/// The advanced actions with their labels.
pub fn advanced_actions() -> (r: Vec<(&'static str, QuickAction)>)
    ensures
        r@.map_values(|p: (&str, QuickAction)| (p.0@, p.1)) == advanced_action_list(),
{
    let r = vec![
        ("刷新 DNS 缓存", QuickAction::FlushDns),
        ("释放并续租 IP", QuickAction::ReleaseRenew),
        ("DNS 优选（测速排名）", QuickAction::DnsOptimize),
        ("TCP 全局优化", QuickAction::TcpOptimize),
    ];
    assert(r@.map_values(|p: (&str, QuickAction)| (p.0@, p.1)) =~= advanced_action_list());
    r
}

/// The labels of the address form fields: gateway, mask, address, primary
/// and secondary DNS.
pub open spec fn ip_field_labels() -> Seq<Seq<char>> {
    seq!["网关"@, "子网掩码"@, "IP 地址"@, "主 DNS"@, "备 DNS"@]
}

/// The labels of the address form fields, in order.
pub fn field_labels() -> (r: Vec<&'static str>)
    ensures
        r@.map_values(|s: &str| s@) == ip_field_labels(),
{
    let r = vec!["网关", "子网掩码", "IP 地址", "主 DNS", "备 DNS"];
    assert(r@.map_values(|s: &str| s@) =~= ip_field_labels());
    r
}

/// A focusable row of the quick-settings panel.
#[derive(Debug, Clone, Copy, PartialEq, Eq, Structural)]
pub enum QsRow {
    Ipv4Toggle,
    Ipv4Field(usize),
    Ipv6Toggle,
    Ipv6Field(usize),
    AdvancedToggle,
    AdvancedItem(usize),
}

/// The quick-settings panel.
#[derive(Debug)]
pub struct QuickSetState {
    /// Index into the current focusable rows.
    pub focus: usize,
    pub result: Option<String>,
    /// IPv4 static (otherwise DHCP).
    pub ipv4_static: bool,
    /// IPv4 form: gateway, mask, address, primary DNS, secondary DNS.
    pub ipv4_fields: [String; 5],
    pub ipv6_fields: [String; 5],
    pub advanced_open: bool,
    pub advanced_selected: usize,
    /// Whether a field is being edited.
    pub editing: bool,
    pub field_idx: usize,
    /// Whether the edited field is an IPv6 one.
    pub editing_v6: bool,
}

/// Five field rows built by `f`.
pub open spec fn five_rows(f: spec_fn(usize) -> QsRow) -> Seq<QsRow> {
    seq![f(0), f(1), f(2), f(3), f(4)]
}

/// The focusable rows: the IPv4 switch, its fields when static, the IPv6
/// switch, its fields when IPv6 is on, the advanced switch, and the advanced
/// actions when open.
pub open spec fn focus_rows_of(ipv4_static: bool, ipv6_on: bool, advanced_open: bool) -> Seq<QsRow> {
    seq![QsRow::Ipv4Toggle] + (if ipv4_static {
        five_rows(|i: usize| QsRow::Ipv4Field(i))
    } else {
        Seq::empty()
    }) + seq![QsRow::Ipv6Toggle] + (if ipv6_on {
        five_rows(|i: usize| QsRow::Ipv6Field(i))
    } else {
        Seq::empty()
    }) + seq![QsRow::AdvancedToggle] + (if advanced_open {
        seq![
            QsRow::AdvancedItem(0),
            QsRow::AdvancedItem(1),
            QsRow::AdvancedItem(2),
            QsRow::AdvancedItem(3),
        ]
    } else {
        Seq::empty()
    })
}

/// Rust's `i64` remainder (truncating toward zero) of `a` by positive `n`.
pub open spec fn trunc_rem(a: int, n: int) -> int {
    if a >= 0 {
        a % n
    } else {
        -((-a) % n)
    }
}

/// An index moved by `delta` among `n` places with wrap-around, as computed
/// with 64-bit signed arithmetic: `((cur + delta + n) % n) as usize`.
pub open spec fn cycled(cur: usize, delta: i64, n: nat) -> usize {
    trunc_rem((cur as i64) as int + delta + n, n as int) as usize
}

/// Whether `cur + delta + n` stays within 64-bit signed range.
pub open spec fn cycle_fits(cur: usize, delta: i64, n: nat) -> bool {
    i64::MIN <= (cur as i64) as int + delta + n <= i64::MAX
}

/// Moves an index by `delta` among `n` places, wrapping around.
pub fn cycle_index(cur: usize, delta: i64, n: usize) -> (r: usize)
    requires
        n > 0,
        cycle_fits(cur, delta, n as nat),
    ensures
        r == cycled(cur, delta, n as nat),
{
    let c = cur as i64;
    let s: i128 = c as i128 + delta as i128 + n as i128;
    let m = n as i128;
    let rem: i128 = if s >= 0 {
        s % m
    } else {
        -((-s) % m)
    };
    rem as usize
}

/// The focusable rows for the given switches.
pub fn rows_for(ipv4_static: bool, ipv6_on: bool, advanced_open: bool) -> (r: Vec<QsRow>)
    ensures
        r@ == focus_rows_of(ipv4_static, ipv6_on, advanced_open),
{
    let mut rows = vec![QsRow::Ipv4Toggle];
    let ghost a = rows@;
    if ipv4_static {
        let mut i: usize = 0;
        while i < 5
            invariant
                i <= 5,
                rows@ == a + five_rows(|k: usize| QsRow::Ipv4Field(k)).take(i as int),
            decreases 5 - i,
        {
            rows.push(QsRow::Ipv4Field(i));
            assert(rows@ =~= a + five_rows(|k: usize| QsRow::Ipv4Field(k)).take(i + 1));
            i = i + 1;
        }
        assert(five_rows(|k: usize| QsRow::Ipv4Field(k)).take(5) =~= five_rows(
            |k: usize| QsRow::Ipv4Field(k),
        ));
    }
    rows.push(QsRow::Ipv6Toggle);
    let ghost b = rows@;
    if ipv6_on {
        let mut i: usize = 0;
        while i < 5
            invariant
                i <= 5,
                rows@ == b + five_rows(|k: usize| QsRow::Ipv6Field(k)).take(i as int),
            decreases 5 - i,
        {
            rows.push(QsRow::Ipv6Field(i));
            assert(rows@ =~= b + five_rows(|k: usize| QsRow::Ipv6Field(k)).take(i + 1));
            i = i + 1;
        }
        assert(five_rows(|k: usize| QsRow::Ipv6Field(k)).take(5) =~= five_rows(
            |k: usize| QsRow::Ipv6Field(k),
        ));
    }
    rows.push(QsRow::AdvancedToggle);
    if advanced_open {
        rows.push(QsRow::AdvancedItem(0));
        rows.push(QsRow::AdvancedItem(1));
        rows.push(QsRow::AdvancedItem(2));
        rows.push(QsRow::AdvancedItem(3));
    }
    assert(rows@ =~= focus_rows_of(ipv4_static, ipv6_on, advanced_open));
    rows
}

impl QuickSetState {
    /// The focusable rows for the current switches.
    pub fn focus_rows(&self, ipv6_on: bool) -> (r: Vec<QsRow>)
        ensures
            r@ == focus_rows_of(self.ipv4_static, ipv6_on, self.advanced_open),
    {
        rows_for(self.ipv4_static, ipv6_on, self.advanced_open)
    }

    /// The focused row (the IPv4 switch when the focus is past the rows).
    pub fn current_row(&self, ipv6_on: bool) -> (r: QsRow)
        ensures
            r == if self.focus < focus_rows_of(self.ipv4_static, ipv6_on, self.advanced_open).len() {
                focus_rows_of(self.ipv4_static, ipv6_on, self.advanced_open)[self.focus as int]
            } else {
                QsRow::Ipv4Toggle
            },
    {
        let rows = self.focus_rows(ipv6_on);
        if self.focus < rows.len() {
            rows[self.focus]
        } else {
            QsRow::Ipv4Toggle
        }
    }

    /// Moves the focus by `delta` rows, wrapping around.
    pub fn move_focus(&mut self, ipv6_on: bool, delta: i64)
        requires
            cycle_fits(
                old(self).focus,
                delta,
                focus_rows_of(old(self).ipv4_static, ipv6_on, old(self).advanced_open).len(),
            ),
        ensures
            final(self).focus == cycled(
                old(self).focus,
                delta,
                focus_rows_of(old(self).ipv4_static, ipv6_on, old(self).advanced_open).len(),
            ),
            final(self).result == old(self).result,
            final(self).ipv4_static == old(self).ipv4_static,
            final(self).ipv4_fields == old(self).ipv4_fields,
            final(self).ipv6_fields == old(self).ipv6_fields,
            final(self).advanced_open == old(self).advanced_open,
            final(self).advanced_selected == old(self).advanced_selected,
            final(self).editing == old(self).editing,
            final(self).field_idx == old(self).field_idx,
            final(self).editing_v6 == old(self).editing_v6,
    {
        let rows = self.focus_rows(ipv6_on);
        let n = rows.len();
        self.focus = cycle_index(self.focus, delta, n);
    }
}

impl Default for QuickSetState {
    fn default() -> (r: QuickSetState)
        ensures
            r.focus == 0,
            r.result is None,
            !r.ipv4_static,
            forall|i: int| 0 <= i < 5 ==> #[trigger] r.ipv4_fields@[i]@.len() == 0,
            forall|i: int| 0 <= i < 5 ==> #[trigger] r.ipv6_fields@[i]@.len() == 0,
            !r.advanced_open,
            r.advanced_selected == 0,
            !r.editing,
            r.field_idx == 0,
            !r.editing_v6,
    {
        QuickSetState {
            focus: 0,
            result: None,
            ipv4_static: false,
            ipv4_fields: [String::new(), String::new(), String::new(), String::new(), String::new()],
            ipv6_fields: [String::new(), String::new(), String::new(), String::new(), String::new()],
            advanced_open: false,
            advanced_selected: 0,
            editing: false,
            field_idx: 0,
            editing_v6: false,
        }
    }
}

/// Connection state of the engineer terminal.
#[derive(Debug, Clone, Copy, PartialEq, Eq, Structural)]
pub enum ConnState {
    Disconnected,
    Scanning,
    Connected,
}

/// Connection type chosen before connecting.
#[derive(Debug, Clone, Copy, PartialEq, Eq, Structural)]
pub enum ConnType {
    /// Serial, SSH or Telnet.
    Generic,
    /// The eNSP simulator.
    Ensp,
}

impl ConnType {
    pub open spec fn label_text(self) -> Seq<char> {
        match self {
            ConnType::Generic => "通用"@,
            ConnType::Ensp => "eNSP"@,
        }
    }

    /// Display name.
    pub fn label(&self) -> (r: &'static str)
        ensures
            r@ == self.label_text(),
    {
        match self {
            ConnType::Generic => "通用",
            ConnType::Ensp => "eNSP",
        }
    }
}

/// A message from the topology editor page.
pub enum EditorMsg {
    /// The edited topology, after each change.
    Update(Topology),
    /// Save the topology.
    Save,
    /// Stop the editor.
    Close,
}

/// Lines of terminal output kept.
pub const OUTPUT_LIMIT: usize = 500;

/// `x` without one trailing carriage return.
pub open spec fn strip_cr(x: Seq<char>) -> Seq<char> {
    if x.len() > 0 && x.last() == '\r' {
        x.drop_last()
    } else {
        x
    }
}

/// The lines of `rest` after a partial line `cur` (`str::lines`): split at
/// `\n`, a `\r` before the `\n` dropped, no empty line after a final `\n`.
pub open spec fn lines_from(rest: Seq<char>, cur: Seq<char>) -> Seq<Seq<char>>
    decreases rest.len(),
{
    if rest.len() == 0 {
        if cur.len() > 0 {
            seq![cur]
        } else {
            Seq::empty()
        }
    } else if rest[0] == '\n' {
        seq![strip_cr(cur)] + lines_from(rest.skip(1), Seq::empty())
    } else {
        lines_from(rest.skip(1), cur.push(rest[0]))
    }
}

/// The lines of a text.
pub open spec fn text_lines(s: Seq<char>) -> Seq<Seq<char>> {
    lines_from(s, Seq::empty())
}

/// The last `limit` items, or all when there are fewer.
pub open spec fn keep_last<A>(s: Seq<A>, limit: nat) -> Seq<A> {
    if s.len() > limit {
        s.skip(s.len() - limit)
    } else {
        s
    }
}

/// Keeps the last `limit` strings.
fn trim_front(v: &mut Vec<String>, limit: usize)
    ensures
        final(v)@ == keep_last(old(v)@, limit as nat),
{
    if v.len() > limit {
        let excess = v.len() - limit;
        let mut kept: Vec<String> = Vec::new();
        let mut i: usize = excess;
        while i < v.len()
            invariant
                excess <= i <= v@.len(),
                v@ == old(v)@,
                excess == old(v)@.len() - limit,
                kept@ == v@.subrange(excess as int, i as int),
            decreases v@.len() - i,
        {
            kept.push(v[i].clone());
            assert(kept@ =~= v@.subrange(excess as int, i + 1));
            i = i + 1;
        }
        assert(kept@ =~= old(v)@.skip(excess as int));
        *v = kept;
    }
}

fn push_chars(s: &mut String, v: &Vec<char>, k: usize)
    requires
        k <= v@.len(),
    ensures
        final(s)@ == old(s)@ + v@.take(k as int),
{
    let mut i: usize = 0;
    while i < k
        invariant
            i <= k <= v@.len(),
            s@ == old(s)@ + v@.take(i as int),
        decreases k - i,
    {
        crate::text::push_char(s, v[i]);
        assert(v@.take(i + 1) =~= v@.take(i as int).push(v@[i as int]));
        i = i + 1;
    }
}

/// The lines of a text, in order (`str::lines`).
pub fn lines_of(text: &str) -> (r: Vec<String>)
    ensures
        views(r@) == text_lines(text@),
{
    let v = crate::text::chars_of(text);
    let mut out: Vec<String> = Vec::new();
    let mut cur: Vec<char> = Vec::new();
    let mut i: usize = 0;
    assert(v@.skip(0) =~= v@);
    assert(views(out@) =~= Seq::<Seq<char>>::empty());
    while i < v.len()
        invariant
            i <= v@.len(),
            v@ == text@,
            views(out@) + lines_from(v@.skip(i as int), cur@) == text_lines(text@),
        decreases v@.len() - i,
    {
        let c = v[i];
        assert(v@.skip(i as int)[0] == c);
        assert(v@.skip(i as int).skip(1) =~= v@.skip(i + 1));
        if c == '\n' {
            let mut line = String::new();
            let n = cur.len();
            if n > 0 && cur[n - 1] == '\r' {
                push_chars(&mut line, &cur, n - 1);
                assert(cur@.take(n - 1) =~= cur@.drop_last());
            } else {
                push_chars(&mut line, &cur, n);
                assert(cur@.take(n as int) =~= cur@);
            }
            let ghost before = views(out@);
            out.push(line);
            assert(views(out@) =~= before.push(strip_cr(cur@)));
            assert(before + (seq![strip_cr(cur@)] + lines_from(v@.skip(i + 1), Seq::empty()))
                =~= views(out@) + lines_from(v@.skip(i + 1), Seq::empty()));
            cur = Vec::new();
            assert(cur@ =~= Seq::<char>::empty());
        } else {
            cur.push(c);
        }
        i = i + 1;
    }
    assert(v@.skip(i as int) =~= Seq::<char>::empty());
    if cur.len() > 0 {
        let mut line = String::new();
        push_chars(&mut line, &cur, cur.len());
        assert(cur@.take(cur@.len() as int) =~= cur@);
        let ghost before = views(out@);
        out.push(line);
        assert(views(out@) =~= before + seq![cur@]);
    } else {
        assert(views(out@) + Seq::<Seq<char>>::empty() =~= views(out@));
    }
    out
}

/// The route trace towards a public resolver, eight hops at most.
pub fn trace_command() -> (r: CmdSpec)
    ensures
        runs(r, "tracert"@, seq!["-d"@, "-h"@, "8"@, "223.5.5.5"@], 30),
{
    let r = console("tracert", &["-d", "-h", "8", "223.5.5.5"], 30);
    assert(views(r.args@) =~= seq!["-d"@, "-h"@, "8"@, "223.5.5.5"@]);
    r
}

/// The log lines of a route trace: each line that is not blank, without
/// its trailing whitespace, indented by two spaces.
pub open spec fn trace_rows(lines: Seq<Seq<char>>) -> Seq<Seq<char>>
    decreases lines.len(),
{
    if lines.len() == 0 {
        Seq::empty()
    } else {
        trace_rows(lines.drop_last()) + if crate::text::trim(lines.last()).len() > 0 {
            seq!["  "@ + crate::text::trim_end(lines.last())]
        } else {
            Seq::empty()
        }
    }
}

/// The log lines of a route trace's output.
pub fn trace_log(text: &str) -> (r: Vec<String>)
    ensures
        views(r@) == trace_rows(text_lines(text@)),
{
    let lines = lines_of(text);
    let mut r: Vec<String> = Vec::new();
    let mut i: usize = 0;
    while i < lines.len()
        invariant
            i <= lines@.len(),
            views(lines@) == text_lines(text@),
            views(r@) == trace_rows(views(lines@).take(i as int)),
        decreases lines@.len() - i,
    {
        let ghost before = views(r@);
        assert(views(lines@).take(i + 1).drop_last() =~= views(lines@).take(i as int));
        assert(views(lines@)[i as int] == lines@[i as int]@);
        let t = crate::text::trim_str(lines[i].as_str());
        if !t.as_str().is_empty() {
            let mut line = String::from_str("  ");
            let e = crate::text::trim_end_str(lines[i].as_str());
            line.append(e.as_str());
            r.push(line);
            assert(views(r@) =~= before + seq!["  "@ + crate::text::trim_end(lines@[i as int]@)]);
        } else {
            assert(views(r@) =~= before + Seq::<Seq<char>>::empty());
        }
        i = i + 1;
    }
    assert(views(lines@).take(lines@.len() as int) =~= views(lines@));
    r
}

/// The engineer terminal.
#[derive(Debug)]
pub struct TermState {
    pub conn: ConnState,
    pub conn_type: ConnType,
    pub vendor_idx: usize,
    pub cmd_idx: usize,
    pub cmd_offset: usize,
    pub ports: Vec<PortInfo>,
    pub selected_port: usize,
    pub port_offset: usize,
    pub baud: u32,
    /// Live device output.
    pub output: Vec<String>,
    /// The line typed by hand.
    pub input: String,
    pub input_mode: bool,
    pub status: Option<String>,
    /// The vendor recognised after connecting.
    pub detected_vendor: Option<String>,
    /// The device model recognised after connecting.
    pub detected_model: Option<String>,
}

impl Default for TermState {
    fn default() -> (r: TermState)
        ensures
            r.conn == ConnState::Disconnected,
            r.conn_type == ConnType::Generic,
            r.vendor_idx == 0,
            r.cmd_idx == 0,
            r.cmd_offset == 0,
            r.ports@.len() == 0,
            r.selected_port == 0,
            r.port_offset == 0,
            r.baud == 9600,
            r.output@.len() == 0,
            r.input@.len() == 0,
            !r.input_mode,
            r.status is None,
            r.detected_vendor is None,
            r.detected_model is None,
    {
        TermState {
            conn: ConnState::Disconnected,
            conn_type: ConnType::Generic,
            vendor_idx: 0,
            cmd_idx: 0,
            cmd_offset: 0,
            ports: Vec::new(),
            selected_port: 0,
            port_offset: 0,
            baud: 9600,
            output: Vec::new(),
            input: String::new(),
            input_mode: false,
            status: None,
            detected_vendor: None,
            detected_model: None,
        }
    }
}

impl TermState {
    /// Device output arrived: its lines are appended and only the last
    /// [`OUTPUT_LIMIT`] lines are kept.
    pub fn on_echo(&mut self, text: &str)
        ensures
            views(final(self).output@) == keep_last(
                views(old(self).output@) + text_lines(text@),
                OUTPUT_LIMIT as nat,
            ),
            final(self).conn == old(self).conn,
            final(self).status == old(self).status,
    {
        let lines = lines_of(text);
        let mut i: usize = 0;
        let ghost start = views(self.output@);
        while i < lines.len()
            invariant
                i <= lines@.len(),
                views(self.output@) == start + views(lines@).take(i as int),
                self.conn == old(self).conn,
                self.status == old(self).status,
            decreases lines@.len() - i,
        {
            let ghost before = self.output@;
            let line = lines[i].clone();
            self.output.push(line);
            assert(self.output@ == before.push(lines@[i as int]));
            assert(views(self.output@) =~= views(before).push(lines@[i as int]@));
            assert(views(lines@).take(i + 1) =~= views(lines@).take(i as int).push(lines@[i as int]@));
            assert(views(self.output@) =~= start + views(lines@).take(i + 1));
            i = i + 1;
        }
        assert(views(lines@).take(lines@.len() as int) =~= views(lines@));
        let ghost all = self.output@;
        trim_front(&mut self.output, OUTPUT_LIMIT);
        assert(views(keep_last(all, 500)) =~= keep_last(views(all), 500));
    }

    /// Connecting failed.
    pub fn on_failed(&mut self, msg: &str)
        ensures
            final(self).conn == ConnState::Disconnected,
            final(self).status matches Some(s) && s@ == "✗ "@ + msg@,
    {
        self.conn = ConnState::Disconnected;
        let mut s = String::from_str("✗ ");
        s.append(msg);
        self.status = Some(s);
    }
}

/// The backup module.
#[derive(Debug)]
pub struct BackupState {
    pub selected: usize,
    pub result: Option<String>,
    /// The bundles found, newest first.
    pub bundles: Vec<String>,
    pub offset: usize,
    pub bundles_offset: usize,
}

impl Default for BackupState {
    fn default() -> (r: BackupState)
        ensures
            r.selected == 0,
            r.result is None,
            r.bundles@.len() == 0,
            r.offset == 0,
            r.bundles_offset == 0,
    {
        BackupState { selected: 0, result: None, bundles: Vec::new(), offset: 0, bundles_offset: 0 }
    }
}

/// The ranking of a finished DNS speed test.
#[derive(Debug, Clone)]
pub struct DnsUpdate {
    pub results: Vec<DnsBench>,
    pub status: String,
}

/// The DNS selection of the quick-settings module.
#[derive(Debug)]
pub struct DnsState {
    pub running: bool,
    pub results: Vec<DnsBench>,
    pub status: Option<String>,
    /// The selected row of the ranking.
    pub selected: usize,
    pub offset: usize,
    /// Whether the ranking takes the keys (choose, apply, leave).
    pub interactive: bool,
}

impl Default for DnsState {
    fn default() -> (r: DnsState)
        ensures
            !r.running,
            r.results@.len() == 0,
            r.status is None,
            r.selected == 0,
            r.offset == 0,
            !r.interactive,
    {
        DnsState {
            running: false,
            results: Vec::new(),
            status: None,
            selected: 0,
            offset: 0,
            interactive: false,
        }
    }
}

impl DnsState {
    /// A speed test finished: its ranking is shown, and a non-empty ranking
    /// becomes interactive with the first row selected.
    pub fn apply_update(&mut self, u: DnsUpdate)
        ensures
            final(self).results == u.results,
            final(self).status == Some(u.status),
            !final(self).running,
            final(self).selected == if u.results@.len() > 0 {
                0
            } else {
                old(self).selected
            },
            final(self).interactive == (u.results@.len() > 0 || old(self).interactive),
            final(self).offset == old(self).offset,
    {
        let n = u.results.len();
        self.results = u.results;
        self.status = Some(u.status);
        self.running = false;
        if n > 0 {
            self.selected = 0;
            self.interactive = true;
        }
    }
}

/// Whether `k` is the first template set of vendor `v`.
pub open spec fn is_first_vendor(db: VendorDb, v: Seq<char>, k: int) -> bool {
    &&& 0 <= k < db.templates().len()
    &&& db.templates()[k].vendor@ == v
    &&& forall|j: int| 0 <= j < k ==> #[trigger] db.templates()[j].vendor@ != v
}

/// The status line after connecting.
pub open spec fn connected_status(vendor: Option<String>, model: Option<String>) -> Seq<char> {
    match vendor {
        Some(v) => "已连接，自动识别为 "@ + v@ + "（"@ + (match model {
            Some(m) => m@,
            None => "未知型号"@,
        }) + "）"@,
        None => "已连接，未能识别型号，请用 [ / ] 手动选择厂商"@,
    }
}

impl TermState {
    /// Connected: the recognised vendor (if any) selects its command set.
    pub fn on_connected(&mut self, vendor: Option<String>, model: Option<String>, db: &VendorDb)
        ensures
            final(self).conn == ConnState::Connected,
            final(self).detected_vendor == vendor,
            final(self).detected_model == model,
            final(self).status matches Some(s) && s@ == connected_status(vendor, model),
            match vendor {
                Some(v) => if exists|k: int| is_first_vendor(*db, v@, k) {
                    is_first_vendor(*db, v@, final(self).vendor_idx as int) && final(self).cmd_idx
                        == 0
                } else {
                    final(self).vendor_idx == old(self).vendor_idx && final(self).cmd_idx == old(
                        self,
                    ).cmd_idx
                },
                None => final(self).vendor_idx == old(self).vendor_idx && final(self).cmd_idx
                    == old(self).cmd_idx,
            },
    {
        self.conn = ConnState::Connected;
        match &vendor {
            Some(v) => {
                let vs = db.vendors();
                let mut i: usize = 0;
                let mut idx: Option<usize> = None;
                while i < vs.len()
                    invariant
                        i <= vs@.len(),
                        vs@ == db.templates(),
                        idx is None ==> forall|j: int|
                            0 <= j < i ==> #[trigger] db.templates()[j].vendor@ != v@,
                        idx matches Some(k) ==> is_first_vendor(*db, v@, k as int),
                    decreases vs@.len() - i,
                {
                    if idx.is_none() && vs[i].vendor == *v {
                        idx = Some(i);
                    }
                    i = i + 1;
                }
                match idx {
                    Some(k) => {
                        self.vendor_idx = k;
                        self.cmd_idx = 0;
                    },
                    None => {
                        assert(forall|k: int| !is_first_vendor(*db, v@, k));
                    },
                }
                let mut s = String::from_str("已连接，自动识别为 ");
                s.append(v.as_str());
                s.append("（");
                match &model {
                    Some(m) => s.append(m.as_str()),
                    None => s.append("未知型号"),
                }
                s.append("）");
                self.status = Some(s);
            },
            None => {
                self.status = Some(String::from_str("已连接，未能识别型号，请用 [ / ] 手动选择厂商"));
            },
        }
        self.detected_vendor = vendor;
        self.detected_model = model;
    }
}

/// One topology with its cached pre-check findings.
#[derive(Debug)]
pub struct TopoEntry {
    pub name: String,
    pub topology: Topology,
    pub findings: Vec<Finding>,
}

/// Navigation level of the topology module.
#[derive(Debug, Clone, Copy, PartialEq, Eq, Structural)]
pub enum TopoMode {
    /// The topology list.
    List,
    /// The operations menu of one topology.
    Menu,
    /// Devices, pre-check and configuration of one topology.
    Detail,
}

/// The operations of the topology menu, in order.
pub open spec fn topo_menu_items() -> Seq<Seq<char>> {
    seq!["打开编辑器"@, "设备与 CLI（下发）"@, "重命名"@, "复制一份"@, "导出（D2/SVG/CLI）"@, "删除"@]
}

/// The number of topology menu operations.
pub const TOPO_MENU_COUNT: usize = 6;

/// The topology menu operations.
pub fn topo_menu() -> (r: Vec<&'static str>)
    ensures
        r@.map_values(|s: &str| s@) == topo_menu_items(),
{
    let r = vec!["打开编辑器", "设备与 CLI（下发）", "重命名", "复制一份", "导出（D2/SVG/CLI）", "删除"];
    assert(r@.map_values(|s: &str| s@) =~= topo_menu_items());
    r
}

/// The topology module.
#[derive(Debug)]
pub struct TopoState {
    pub entries: Vec<TopoEntry>,
    pub selected: usize,
    pub mode: TopoMode,
    /// Selected menu operation.
    pub menu_idx: usize,
    /// Selected device in the detail view.
    pub dev_idx: usize,
    pub cli: Option<String>,
    pub status: Option<String>,
    pub offset: usize,
    pub findings_offset: usize,
}

/// The design intents every topology is pre-checked against: unique
/// subnets, VLANs 10 and 20 reaching access switches, redundant access
/// uplinks, and no loop.
pub open spec fn default_intent_list() -> Seq<Intent> {
    seq![
        Intent::UniqueSubnet,
        Intent::VlanPropagated { vlan: 10, to: DeviceRole::Access },
        Intent::VlanPropagated { vlan: 20, to: DeviceRole::Access },
        Intent::RedundantUplink { role: DeviceRole::Access },
        Intent::NoLoop,
    ]
}

/// The pre-check intents.
pub fn default_intents() -> (r: Vec<Intent>)
    ensures
        r@ == default_intent_list(),
{
    let r = vec![
        Intent::UniqueSubnet,
        Intent::VlanPropagated { vlan: 10, to: DeviceRole::Access },
        Intent::VlanPropagated { vlan: 20, to: DeviceRole::Access },
        Intent::RedundantUplink { role: DeviceRole::Access },
        Intent::NoLoop,
    ];
    assert(r@ =~= default_intent_list());
    r
}

/// Pre-checks a topology against the default intents.
pub fn precheck(t: &Topology) -> (r: Vec<Finding>)
    requires
        crate::design_check::graph_fits(*t),
    ensures
        finding_views(r@) == check_findings(*t, default_intent_list()),
{
    let intents = default_intents();
    check(t, intents.as_slice())
}

impl TopoState {
    /// The selected topology, if the selection is in range.
    pub fn current(&self) -> (r: Option<&TopoEntry>)
        ensures
            match r {
                Some(e) => self.selected < self.entries@.len() && *e
                    == self.entries@[self.selected as int],
                None => self.selected >= self.entries@.len(),
            },
    {
        if self.selected < self.entries.len() {
            Some(&self.entries[self.selected])
        } else {
            None
        }
    }
}

impl Default for TopoState {
    fn default() -> (r: TopoState)
        ensures
            r.entries@.len() == 1,
            r.entries@[0].name@ == "演示拓扑"@,
            is_demo_topology(r.entries@[0].topology),
            finding_views(r.entries@[0].findings@) == check_findings(
                r.entries@[0].topology,
                default_intent_list(),
            ),
            r.selected == 0,
            r.mode == TopoMode::List,
            r.menu_idx == 0,
            r.dev_idx == 0,
            r.cli is None,
            r.status is None,
            r.offset == 0,
            r.findings_offset == 0,
    {
        let topology = demo_topology();
        let findings = precheck(&topology);
        TopoState {
            entries: vec![TopoEntry { name: String::from_str("演示拓扑"), topology, findings }],
            selected: 0,
            mode: TopoMode::List,
            menu_idx: 0,
            dev_idx: 0,
            cli: None,
            status: None,
            offset: 0,
            findings_offset: 0,
        }
    }
}

/// Log lines kept by the diagnosis screen.
pub const LOG_LIMIT: usize = 500;

/// The diagnosis screen.
#[derive(Debug)]
pub struct DiagState {
    pub running: bool,
    pub started: bool,
    pub names: Vec<String>,
    pub results: Vec<Option<CheckResult>>,
    pub logs: Vec<String>,
    pub summary: Option<String>,
    pub offset: usize,
    /// The selected check.
    pub selected: usize,
    /// Whether the detail drawer is open.
    pub drill_open: bool,
    /// The selected action in the drawer.
    pub drill_selected: usize,
}

impl Default for DiagState {
    fn default() -> (r: DiagState)
        ensures
            !r.running,
            !r.started,
            r.names@.len() == 0,
            r.results@.len() == 0,
            r.logs@.len() == 0,
            r.summary is None,
            r.offset == 0,
            r.selected == 0,
            !r.drill_open,
            r.drill_selected == 0,
    {
        DiagState {
            running: false,
            started: false,
            names: Vec::new(),
            results: Vec::new(),
            logs: Vec::new(),
            summary: None,
            offset: 0,
            selected: 0,
            drill_open: false,
            drill_selected: 0,
        }
    }
}

/// `n` empty result slots.
fn empty_slots(n: usize) -> (r: Vec<Option<CheckResult>>)
    ensures
        r@ == Seq::new(n as nat, |_i: int| None::<CheckResult>),
{
    let mut r: Vec<Option<CheckResult>> = Vec::new();
    let mut i: usize = 0;
    while i < n
        invariant
            i <= n,
            r@ == Seq::new(i as nat, |_i: int| None::<CheckResult>),
        decreases n - i,
    {
        r.push(None);
        assert(r@ =~= Seq::new((i + 1) as nat, |_i: int| None::<CheckResult>));
        i = i + 1;
    }
    r
}

impl DiagState {
    /// A new run starts: the basic checks are listed with empty results, the
    /// log and summary are cleared and the drawer closes.
    pub fn reset(&mut self)
        ensures
            final(self).running,
            final(self).started,
            views(final(self).names@) == basic_check_titles(),
            final(self).results@ == Seq::new(
                basic_check_titles().len(),
                |_i: int| None::<CheckResult>,
            ),
            final(self).logs@.len() == 0,
            final(self).summary is None,
            !final(self).drill_open,
            final(self).drill_selected == 0,
            final(self).offset == old(self).offset,
            final(self).selected == old(self).selected,
    {
        self.running = true;
        self.started = true;
        self.names = Diagnoser::basic_check_names();
        self.results = empty_slots(self.names.len());
        self.logs = Vec::new();
        self.summary = None;
        self.drill_open = false;
        self.drill_selected = 0;
    }

    /// Applies one progress event of a diagnosis run.
    pub fn apply_event(&mut self, ev: DiagEvent)
        ensures
            match ev {
                DiagEvent::Started { total } => {
                    &&& final(self).started
                    &&& final(self).results@ == if old(self).results@.len() != total {
                        Seq::new(total as nat, |_i: int| None::<CheckResult>)
                    } else {
                        old(self).results@
                    }
                    &&& final(self).names == old(self).names
                    &&& final(self).logs == old(self).logs
                    &&& final(self).running == old(self).running
                    &&& final(self).summary == old(self).summary
                },
                DiagEvent::CheckStarted { index, name } => {
                    &&& final(self).names@ == if index < old(self).names@.len() {
                        old(self).names@.update(index as int, name)
                    } else {
                        old(self).names@
                    }
                    &&& final(self).results == old(self).results
                    &&& final(self).logs == old(self).logs
                    &&& final(self).started == old(self).started
                    &&& final(self).running == old(self).running
                    &&& final(self).summary == old(self).summary
                },
                DiagEvent::CheckDone { index, result } => {
                    &&& final(self).results@ == if index < old(self).results@.len() {
                        old(self).results@.update(index as int, Some(result))
                    } else {
                        old(self).results@
                    }
                    &&& final(self).names == old(self).names
                    &&& final(self).logs == old(self).logs
                    &&& final(self).started == old(self).started
                    &&& final(self).running == old(self).running
                    &&& final(self).summary == old(self).summary
                },
                DiagEvent::Log(line) => {
                    &&& final(self).logs@ == keep_last(old(self).logs@.push(line), LOG_LIMIT as nat)
                    &&& final(self).names == old(self).names
                    &&& final(self).results == old(self).results
                    &&& final(self).started == old(self).started
                    &&& final(self).running == old(self).running
                    &&& final(self).summary == old(self).summary
                },
                DiagEvent::Finished { summary } => {
                    &&& final(self).summary == Some(summary)
                    &&& !final(self).running
                    &&& final(self).names == old(self).names
                    &&& final(self).results == old(self).results
                    &&& final(self).logs == old(self).logs
                    &&& final(self).started == old(self).started
                },
            },
            final(self).selected == old(self).selected,
            final(self).drill_open == old(self).drill_open,
            final(self).drill_selected == old(self).drill_selected,
            final(self).offset == old(self).offset,
    {
        match ev {
            DiagEvent::Started { total } => {
                self.started = true;
                if self.results.len() != total {
                    self.results = empty_slots(total);
                }
            },
            DiagEvent::CheckStarted { index, name } => {
                if index < self.names.len() {
                    self.names.set(index, name);
                }
            },
            DiagEvent::CheckDone { index, result } => {
                if index < self.results.len() {
                    self.results.set(index, Some(result));
                }
            },
            DiagEvent::Log(line) => {
                self.logs.push(line);
                trim_front(&mut self.logs, LOG_LIMIT);
            },
            DiagEvent::Finished { summary } => {
                self.summary = Some(summary);
                self.running = false;
            },
        }
    }
}

/// Keeping the last `limit` items leaves `min(len, limit)` items, the newest ones.
pub proof fn lemma_keep_last_len<A>(s: Seq<A>, limit: nat)
    ensures
        keep_last(s, limit).len() == if s.len() > limit {
            limit
        } else {
            s.len()
        },
        keep_last(s, limit).len() > 0 ==> keep_last(s, limit).last() == s.last(),
{
}

/// Moving the focus one row down and one row up again returns to the same row.
pub proof fn lemma_cycle_round_trip(f: usize, n: nat)
    requires
        f < n <= 0x7fff_ffff,
    ensures
        cycle_fits(f, 1i64, n),
        cycle_fits(cycled(f, 1, n), -1i64, n),
        cycled(cycled(f, 1, n), -1i64, n) == f,
{
    assert((f as i64) as int == f) by (bit_vector)
        requires
            f < 0x7fff_ffff,
    ;
    let g = cycled(f, 1i64, n);
    if f + 1 < n {
        assert((f + 1 + n) % (n as int) == f + 1) by (nonlinear_arith)
            requires
                f + 1 < n,
                0 <= f,
        ;
        assert(g == f + 1);
        assert((g as i64) as int == g) by (bit_vector)
            requires
                g < 0x7fff_ffff,
        ;
        assert((g - 1 + n) % (n as int) == f) by (nonlinear_arith)
            requires
                g == f + 1,
                f + 1 < n,
                0 <= f,
        ;
    } else {
        assert((f + 1 + n) % (n as int) == 0) by (nonlinear_arith)
            requires
                f + 1 == n,
                n > 0,
        ;
        assert(g == 0);
        assert((g as i64) as int == 0) by (bit_vector)
            requires
                g == 0,
        ;
        assert((0 - 1 + n) % (n as int) == f) by (nonlinear_arith)
            requires
                f + 1 == n,
                n > 0,
        ;
    }
}

/// The command an automatic fix text runs: `cmd /c <text>`.
pub fn fix_command(cmd: &str) -> (r: CmdSpec)
    ensures
        runs(r, "cmd"@, seq!["/c"@, cmd@], 30),
{
    let r = console("cmd", &["/c", cmd], 30);
    assert(views(r.args@) =~= seq!["/c"@, cmd@]);
    r
}

/// The automatic fix of the result at `index`, if it has one.
pub open spec fn auto_fix_of(results: Seq<Option<CheckResult>>, index: int) -> Option<Seq<char>> {
    if 0 <= index < results.len() {
        match results[index] {
            Some(r) => match r.fix {
                Some(f) => match f.kind {
                    FixKind::Auto(c) => Some(c@),
                    FixKind::Manual(_) => None,
                },
                None => None,
            },
            None => None,
        }
    } else {
        None
    }
}

/// The first line of a text, or `失败` (failed) when it has none.
pub open spec fn first_line_or_failed(s: Seq<char>) -> Seq<char> {
    if text_lines(s).len() > 0 {
        text_lines(s)[0]
    } else {
        "失败"@
    }
}

impl DiagState {
    /// Starts the automatic fix of the result at `index`: the command to run
    /// and the check's name; a result without an automatic fix sets the
    /// summary to say so.
    pub fn begin_auto_fix(&mut self, index: usize) -> (r: Option<(CmdSpec, String, String)>)
        ensures
            final(self).results == old(self).results,
            final(self).logs == old(self).logs,
            match auto_fix_of(old(self).results@, index as int) {
                Some(c) => r matches Some((cmd, name, text)) && runs(cmd, "cmd"@, seq!["/c"@, c], 30)
                    && text@ == c && name@ == old(self).results@[index as int]->Some_0.name@
                    && final(self).summary == old(self).summary,
                None => r is None && if index < old(self).results@.len()
                    && old(self).results@[index as int] is Some {
                    final(self).summary matches Some(m) && m@ == "「"@
                        + old(self).results@[index as int]->Some_0.name@ + "」无可自动修复项"@
                } else {
                    final(self).summary == old(self).summary
                },
            },
    {
        if index >= self.results.len() {
            return None;
        }
        let (name, cmd) = match &self.results[index] {
            Some(r) => {
                let cmd = match &r.fix {
                    Some(f) => match &f.kind {
                        FixKind::Auto(c) => Some(c.clone()),
                        FixKind::Manual(_) => None,
                    },
                    None => None,
                };
                (r.name.clone(), cmd)
            },
            None => return None,
        };
        match cmd {
            Some(c) => {
                let spec = fix_command(c.as_str());
                Some((spec, name, c))
            },
            None => {
                let mut m = String::from_str("「");
                m.append(name.as_str());
                m.append("」无可自动修复项");
                self.summary = Some(m);
                None
            },
        }
    }

    /// Records how an automatic fix went: the command is logged, a failure
    /// also logs the first line of its output, and the summary says whether
    /// the check was fixed.
    pub fn finish_auto_fix(&mut self, name: &str, cmd: &str, out: &CmdOutput)
        ensures
            final(self).logs@.len() == old(self).logs@.len() + if out.success {
                1int
            } else {
                2int
            },
            final(self).logs@.take(old(self).logs@.len() as int) == old(self).logs@,
            final(self).logs@[old(self).logs@.len() as int]@ == "执行："@ + cmd@,
            !out.success ==> final(self).logs@[old(self).logs@.len() + 1int]@ == "  ✗ "@
                + first_line_or_failed(combined_text(out.stdout@, out.stderr@)),
            final(self).summary matches Some(m) && m@ == if out.success {
                "已修复「"@ + name@ + "」"@
            } else {
                "修复「"@ + name@ + "」失败"@
            },
            final(self).results == old(self).results,
    {
        let mut line = String::from_str("执行：");
        line.append(cmd);
        self.logs.push(line);
        if out.success {
            let mut m = String::from_str("已修复「");
            m.append(name);
            m.append("」");
            self.summary = Some(m);
        } else {
            let all = out.combined();
            let lines = lines_of(all.as_str());
            let mut l = String::from_str("  ✗ ");
            if lines.len() > 0 {
                l.append(lines[0].as_str());
            } else {
                l.append("失败");
            }
            self.logs.push(l);
            let mut m = String::from_str("修复「");
            m.append(name);
            m.append("」失败");
            self.summary = Some(m);
        }
    }
}

/// A new topology's name: the prefix followed by its position in the list.
pub open spec fn numbered_name(prefix: Seq<char>, count: nat) -> Seq<char> {
    prefix + decimal_of(count + 1)
}

/// Decimal digits of a number.
pub open spec fn decimal_of(n: nat) -> Seq<char> {
    crate::text::decimal(n)
}

impl TopoState {
    /// Appends a topology with its pre-check findings and selects it.
    fn push_entry(&mut self, name: String, t: Topology, status: &str)
        requires
            graph_fits(t),
            old(self).entries@.len() < usize::MAX,
        ensures
            final(self).entries@.len() == old(self).entries@.len() + 1,
            final(self).entries@.drop_last() == old(self).entries@,
            final(self).entries@.last().name == name,
            final(self).entries@.last().topology == t,
            finding_views(final(self).entries@.last().findings@) == check_findings(
                t,
                default_intent_list(),
            ),
            final(self).selected == old(self).entries@.len(),
            final(self).status matches Some(s) && s@ == status@,
            final(self).mode == old(self).mode,
    {
        let findings = precheck(&t);
        self.entries.push(TopoEntry { name, topology: t, findings });
        self.selected = self.entries.len() - 1;
        self.status = Some(String::from_str(status));
    }

    /// Adds a copy of the demonstration topology, named `拓扑<n>`.
    pub fn new_demo(&mut self)
        requires
            old(self).entries@.len() < usize::MAX,
        ensures
            final(self).entries@.len() == old(self).entries@.len() + 1,
            final(self).entries@.drop_last() == old(self).entries@,
            final(self).entries@.last().name@ == numbered_name("拓扑"@, old(self).entries@.len()),
            is_demo_topology(final(self).entries@.last().topology),
            final(self).selected == old(self).entries@.len(),
            final(self).status matches Some(s) && s@ == "已新建拓扑（O 打开编辑器编辑）"@,
    {
        let mut name = String::from_str("拓扑");
        push_decimal(&mut name, self.entries.len() as u64 + 1);
        let t = demo_topology();
        self.push_entry(name, t, "已新建拓扑（O 打开编辑器编辑）");
    }

    /// Adds an imported topology, named `导入拓扑<n>`.
    pub fn import(&mut self, t: Topology)
        requires
            graph_fits(t),
            old(self).entries@.len() < usize::MAX,
        ensures
            final(self).entries@.len() == old(self).entries@.len() + 1,
            final(self).entries@.drop_last() == old(self).entries@,
            final(self).entries@.last().name@ == numbered_name(
                "导入拓扑"@,
                old(self).entries@.len(),
            ),
            final(self).entries@.last().topology == t,
            final(self).selected == old(self).entries@.len(),
            final(self).status matches Some(s) && s@ == "已导入 topology.json"@,
    {
        let mut name = String::from_str("导入拓扑");
        push_decimal(&mut name, self.entries.len() as u64 + 1);
        self.push_entry(name, t, "已导入 topology.json");
    }

    /// Renames the selected topology by appending `·改`.
    pub fn rename(&mut self)
        ensures
            old(self).selected < old(self).entries@.len() ==> {
                let old_name = old(self).entries@[old(self).selected as int].name@;
                &&& final(self).entries@.len() == old(self).entries@.len()
                &&& final(self).entries@[old(self).selected as int].name@ == old_name + "·改"@
                &&& final(self).entries@[old(self).selected as int].topology == old(
                    self,
                ).entries@[old(self).selected as int].topology
                &&& forall|k: int|
                    0 <= k < old(self).entries@.len() && k != old(self).selected
                        ==> #[trigger] final(self).entries@[k] == old(self).entries@[k]
                &&& final(self).status matches Some(s) && s@ == "已重命名「"@ + old_name + "」→「"@
                    + old_name + "·改"@ + "」"@
            },
            old(self).selected >= old(self).entries@.len() ==> final(self).entries == old(
                self,
            ).entries && final(self).status == old(self).status,
            final(self).selected == old(self).selected,
    {
        if self.selected < self.entries.len() {
            let i = self.selected;
            let old_name = self.entries[i].name.clone();
            let mut new_name = old_name.clone();
            new_name.append("·改");
            let mut status = String::from_str("已重命名「");
            status.append(old_name.as_str());
            status.append("」→「");
            status.append(new_name.as_str());
            status.append("」");
            let mut e = self.entries.remove(i);
            e.name = new_name;
            self.entries.insert(i, e);
            self.status = Some(status);
        }
    }

    /// The selected topology for changing in place, if the selection is in range.
    pub fn current_mut(&mut self) -> (r: Option<&mut TopoEntry>)
        ensures
            old(self).selected < old(self).entries@.len() ==> (r matches Some(e) && *e == old(
                self,
            ).entries@[old(self).selected as int] && final(self).entries@ == old(
                self,
            ).entries@.update(old(self).selected as int, *final(e)) && final(self).selected == old(
                self,
            ).selected && final(self).mode == old(self).mode && final(self).menu_idx == old(
                self,
            ).menu_idx && final(self).dev_idx == old(self).dev_idx && final(self).cli == old(
                self,
            ).cli && final(self).status == old(self).status && final(self).offset == old(
                self,
            ).offset && final(self).findings_offset == old(self).findings_offset),
            old(self).selected >= old(self).entries@.len() ==> r is None && *final(self) == *old(
                self,
            ),
    {
        if self.selected < self.entries.len() {
            let i = self.selected;
            Some(&mut self.entries[i])
        } else {
            None
        }
    }

    /// Replaces the selected topology (if any) and its pre-check findings.
    fn replace_current(&mut self, t: Topology)
        requires
            graph_fits(t),
        ensures
            old(self).selected < old(self).entries@.len() ==> {
                let i = old(self).selected as int;
                &&& final(self).entries@.len() == old(self).entries@.len()
                &&& final(self).entries@[i].name == old(self).entries@[i].name
                &&& final(self).entries@[i].topology == t
                &&& finding_views(final(self).entries@[i].findings@) == check_findings(
                    t,
                    default_intent_list(),
                )
                &&& forall|k: int|
                    0 <= k < old(self).entries@.len() && k != i ==> #[trigger] final(self).entries@[k]
                        == old(self).entries@[k]
            },
            old(self).selected >= old(self).entries@.len() ==> final(self).entries == old(
                self,
            ).entries,
            final(self).selected == old(self).selected,
            final(self).mode == old(self).mode,
            final(self).dev_idx == old(self).dev_idx,
            final(self).cli == old(self).cli,
            final(self).status == old(self).status,
    {
        let findings = precheck(&t);
        match self.current_mut() {
            Some(e) => {
                e.topology = t;
                e.findings = findings;
            },
            None => {},
        }
    }

    /// The editor sent a new version of the selected topology: it replaces
    /// the topology, and the pre-check runs again.
    pub fn sync_from_editor(&mut self, t: Topology)
        requires
            graph_fits(t),
        ensures
            old(self).selected < old(self).entries@.len() ==> {
                let i = old(self).selected as int;
                &&& final(self).entries@.len() == old(self).entries@.len()
                &&& final(self).entries@[i].name == old(self).entries@[i].name
                &&& final(self).entries@[i].topology == t
                &&& finding_views(final(self).entries@[i].findings@) == check_findings(
                    t,
                    default_intent_list(),
                )
                &&& forall|k: int|
                    0 <= k < old(self).entries@.len() && k != i ==> #[trigger] final(self).entries@[k]
                        == old(self).entries@[k]
            },
            old(self).selected >= old(self).entries@.len() ==> final(self).entries == old(
                self,
            ).entries,
            final(self).selected == old(self).selected,
            final(self).dev_idx == old(self).dev_idx,
            final(self).cli == old(self).cli,
            final(self).status matches Some(m) && m@ == "编辑器已实时同步到 NMTs（预检已更新）"@,
    {
        self.replace_current(t);
        self.status = Some(String::from_str("编辑器已实时同步到 NMTs（预检已更新）"));
    }

    /// The saved topology file was read back into the selected topology:
    /// it is pre-checked again, the device selection and the generated
    /// configuration are reset.
    pub fn reload(&mut self, t: Topology)
        requires
            graph_fits(t),
        ensures
            old(self).selected < old(self).entries@.len() ==> {
                let i = old(self).selected as int;
                &&& final(self).entries@.len() == old(self).entries@.len()
                &&& final(self).entries@[i].name == old(self).entries@[i].name
                &&& final(self).entries@[i].topology == t
                &&& finding_views(final(self).entries@[i].findings@) == check_findings(
                    t,
                    default_intent_list(),
                )
                &&& forall|k: int|
                    0 <= k < old(self).entries@.len() && k != i ==> #[trigger] final(self).entries@[k]
                        == old(self).entries@[k]
            },
            old(self).selected >= old(self).entries@.len() ==> final(self).entries == old(
                self,
            ).entries,
            final(self).selected == old(self).selected,
            final(self).dev_idx == 0,
            final(self).cli is None,
            final(self).status matches Some(m) && m@ == "已回读 topology.json 并重新预检"@,
    {
        self.replace_current(t);
        self.dev_idx = 0;
        self.cli = None;
        self.status = Some(String::from_str("已回读 topology.json 并重新预检"));
    }

    /// Appends a copy of the selected topology, named `<name> 副本`, and
    /// selects it.
    pub fn copy(&mut self)
        requires
            old(self).entries@.len() < usize::MAX,
        ensures
            old(self).selected < old(self).entries@.len() ==> {
                let e = old(self).entries@[old(self).selected as int];
                let c = final(self).entries@.last();
                &&& final(self).entries@.len() == old(self).entries@.len() + 1
                &&& final(self).entries@.drop_last() == old(self).entries@
                &&& c.name@ == e.name@ + " 副本"@
                &&& same_topology(c.topology, e.topology)
                &&& finding_views(c.findings@) == finding_views(e.findings@)
                &&& final(self).selected == old(self).entries@.len()
                &&& final(self).status matches Some(s) && s@ == "已复制拓扑"@
            },
            old(self).selected >= old(self).entries@.len() ==> *final(self) == *old(self),
    {
        if self.selected < self.entries.len() {
            let e = &self.entries[self.selected];
            let mut name = e.name.clone();
            name.append(" 副本");
            let topology = e.topology.copied();
            let findings = copy_findings(&e.findings);
            self.entries.push(TopoEntry { name, topology, findings });
            self.selected = self.entries.len() - 1;
            self.status = Some(String::from_str("已复制拓扑"));
        }
    }

    /// Deletes the selected topology, keeping at least one.
    pub fn delete(&mut self)
        requires
            old(self).entries@.len() <= 1 || old(self).selected < old(self).entries@.len(),
        ensures
            old(self).entries@.len() <= 1 ==> {
                &&& final(self).entries == old(self).entries
                &&& final(self).status matches Some(s) && s@ == "至少保留一个拓扑"@
                &&& final(self).selected == old(self).selected
                &&& final(self).mode == old(self).mode
            },
            old(self).entries@.len() > 1 ==> {
                let i = old(self).selected as int;
                &&& final(self).entries@ == old(self).entries@.remove(i)
                &&& final(self).selected == if i < final(self).entries@.len() {
                    i as usize
                } else {
                    (final(self).entries@.len() - 1) as usize
                }
                &&& final(self).mode == TopoMode::List
                &&& final(self).status matches Some(s) && s@ == "已删除「"@ + old(self).entries@[i].name@
                    + "」"@
            },
    {
        if self.entries.len() <= 1 {
            self.status = Some(String::from_str("至少保留一个拓扑"));
            return;
        }
        let name = self.entries[self.selected].name.clone();
        self.entries.remove(self.selected);
        if self.selected >= self.entries.len() {
            self.selected = self.entries.len() - 1;
        }
        self.mode = TopoMode::List;
        let mut s = String::from_str("已删除「");
        s.append(name.as_str());
        s.append("」");
        self.status = Some(s);
    }

    /// Whether the selected topology has an error finding, which blocks
    /// configuration synthesis and deployment.
    pub fn blocked(&self) -> (r: bool)
        ensures
            r == (self.selected < self.entries@.len() && has_error(
                self.entries@[self.selected as int].findings@,
            )),
    {
        if self.selected < self.entries.len() {
            any_error(&self.entries[self.selected].findings)
        } else {
            false
        }
    }

    /// Produces the configuration of the selected device of the selected
    /// topology, unless the topology has an error finding.
    pub fn gen_cli(&mut self)
        ensures
            final(self).entries == old(self).entries,
            (old(self).selected < old(self).entries@.len() && old(self).dev_idx < old(
                self,
            ).entries@[old(self).selected as int].topology.devices@.len()) ==> {
                let e = old(self).entries@[old(self).selected as int];
                let d = e.topology.devices@[old(self).dev_idx as int];
                if has_error(e.findings@) {
                    &&& final(self).cli == old(self).cli
                    &&& final(self).status matches Some(s) && s@ == "✗ 预检存在错误级问题，已阻断 CLI 生成"@
                } else {
                    &&& final(self).cli matches Some(c) && c@ == device_cli_text(d, e.topology)
                    &&& final(self).status matches Some(s) && s@ == "已生成 "@ + d.name@ + " 的 CLI"@
                }
            },
            !(old(self).selected < old(self).entries@.len() && old(self).dev_idx < old(
                self,
            ).entries@[old(self).selected as int].topology.devices@.len()) ==> final(self).cli
                == old(self).cli && final(self).status == old(self).status,
    {
        if self.selected < self.entries.len() {
            let e = &self.entries[self.selected];
            if self.dev_idx < e.topology.devices.len() {
                if any_error(&e.findings) {
                    self.status = Some(String::from_str("✗ 预检存在错误级问题，已阻断 CLI 生成"));
                    return;
                }
                let d = &e.topology.devices[self.dev_idx];
                let cli = generate_device_cli(d, &e.topology);
                let mut s = String::from_str("已生成 ");
                s.append(d.name.as_str());
                s.append(" 的 CLI");
                self.status = Some(s);
                self.cli = Some(cli);
            }
        }
    }
}

} // verus!
