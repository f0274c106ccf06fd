//! Key handling of the text interface: module switching, the Esc chain, list
//! navigation in each module, form and terminal typing, and the action each
//! key asks the application to perform.
use vstd::prelude::*;
use vstd::string::*;
use vstd::utf8::encode_utf8;

use crate::state::{
    advanced_action_list, cycle_fits, cycle_index, cycled, focus_rows_of, BackupState, ConnState,
    ConnType, DiagState, DnsState, QsRow, QuickAction, QuickSetState, TermState, TopoMode,
    TopoEntry, TopoState, ADVANCED_COUNT, TAB_COUNT, TOPO_MENU_COUNT,
};
use crate::text::push_char;
use crate::vendor_cli::VendorDb;

verus! {

/// A key, as the interface distinguishes them.
#[derive(Debug, Clone, Copy, PartialEq, Eq, Structural)]
pub enum Key {
    Tab,
    BackTab,
    Left,
    Right,
    Up,
    Down,
    Enter,
    Esc,
    Backspace,
    F(u8),
    Char(char),
    Other,
}

/// What a key means at the top level.
#[derive(Debug, Clone, Copy, PartialEq, Eq, Structural)]
pub enum NavIntent {
    /// The next module.
    ModuleNext,
    /// The previous module.
    ModulePrev,
    /// Not a module switch: the current module handles the key.
    Local,
}

pub open spec fn nav_intent_of(key: Key, ctrl: bool) -> NavIntent {
    match key {
        Key::Tab => NavIntent::ModuleNext,
        Key::BackTab => NavIntent::ModulePrev,
        Key::Left if ctrl => NavIntent::ModulePrev,
        Key::Right if ctrl => NavIntent::ModuleNext,
        _ => NavIntent::Local,
    }
}

/// Module switching: Tab and Ctrl+Right go forward, BackTab (Shift+Tab, and
/// Ctrl+Tab on some terminals) and Ctrl+Left go back; plain arrows stay local.
pub fn nav_intent(key: Key, ctrl: bool) -> (r: NavIntent)
    ensures
        r == nav_intent_of(key, ctrl),
{
    match key {
        Key::Tab => NavIntent::ModuleNext,
        Key::BackTab => NavIntent::ModulePrev,
        Key::Left if ctrl => NavIntent::ModulePrev,
        Key::Right if ctrl => NavIntent::ModuleNext,
        _ => NavIntent::Local,
    }
}

/// The work a key leaves to the application (commands, files, background tasks).
#[derive(Debug, Clone, Copy, PartialEq, Eq, Structural)]
pub enum KeyAction {
    Nothing,
    ToggleIme,
    StartDiag,
    ExecuteDrill,
    AutoFix(usize),
    TraceRoute,
    ExportReport,
    SubmitIpForm,
    ApplyDns,
    ToggleIpv4Dhcp,
    ToggleIpv6,
    RunQuick(QuickAction),
    ScanConnect,
    TermSend,
    TermSendInput,
    TopoOpenEditor,
    TopoRename,
    TopoCopy,
    TopoExportD2,
    TopoDelete,
    TopoGenCli,
    TopoImport,
    TopoNew,
    TopoDeploy,
    TopoLoadJson,
    Backup(usize),
}

/// The state the keys act on.
pub struct UiState {
    pub tab: usize,
    pub show_help: bool,
    pub running: bool,
    pub ipv6_on: bool,
    pub diag: DiagState,
    pub quick_set: QuickSetState,
    pub term: TermState,
    pub dns: DnsState,
    pub topo: TopoState,
    pub backup: BackupState,
    pub vendor_db: VendorDb,
}

/// The part of the state that keys move: switches, selections and modes,
/// with the list lengths they move within.
#[derive(Debug, Clone, Copy, PartialEq, Eq, Structural)]
pub struct Nav {
    pub tab: usize,
    pub show_help: bool,
    pub running: bool,
    pub ipv6_on: bool,
    pub diag_started: bool,
    pub diag_running: bool,
    pub diag_selected: usize,
    pub drill_open: bool,
    pub drill_selected: usize,
    pub dns_selected: usize,
    pub dns_interactive: bool,
    pub editing: bool,
    pub field_idx: usize,
    pub editing_v6: bool,
    pub focus: usize,
    pub ipv4_static: bool,
    pub advanced_open: bool,
    pub advanced_selected: usize,
    pub conn: ConnState,
    pub conn_type: ConnType,
    pub vendor_idx: usize,
    pub cmd_idx: usize,
    pub selected_port: usize,
    pub baud: u32,
    pub input_mode: bool,
    pub topo_mode: TopoMode,
    pub topo_selected: usize,
    pub menu_idx: usize,
    pub dev_idx: usize,
    pub backup_selected: usize,
}

/// The list lengths the keys move within but never change.
pub struct NavCtx {
    pub diag_results: nat,
    pub dns_results: nat,
    pub ports: nat,
    pub topo_entries: nat,
    /// The device count of each topology.
    pub topo_devices: Seq<nat>,
    /// The command count of each vendor template set.
    pub vendor_cmds: Seq<nat>,
}

/// The lengths of the diagnosis results, the DNS ranking and the port list.
#[derive(Debug, Clone, Copy, PartialEq, Eq, Structural)]
pub struct Lens {
    pub diag_results: usize,
    pub dns_results: usize,
    pub ports: usize,
}

/// The list lengths of a vendor database, a list of topologies and the other lists.
pub open spec fn ctx_from(db: VendorDb, entries: Seq<TopoEntry>, l: Lens) -> NavCtx {
    NavCtx {
        diag_results: l.diag_results as nat,
        dns_results: l.dns_results as nat,
        ports: l.ports as nat,
        topo_entries: entries.len(),
        topo_devices: entries.map_values(|e: TopoEntry| e.topology.devices@.len()),
        vendor_cmds: db.templates().map_values(
            |v: crate::vendor_cli::VendorTemplate| v.commands@.len(),
        ),
    }
}

/// The list lengths of a state.
pub open spec fn lens_of(s: UiState) -> Lens {
    Lens {
        diag_results: s.diag.results@.len() as usize,
        dns_results: s.dns.results@.len() as usize,
        ports: s.term.ports@.len() as usize,
    }
}

/// The list lengths of a state.
pub open spec fn ctx_of(s: UiState) -> NavCtx {
    ctx_from(s.vendor_db, s.topo.entries@, lens_of(s))
}

/// The navigable part of a state.
pub open spec fn nav_of(s: UiState) -> Nav {
    Nav {
        tab: s.tab,
        show_help: s.show_help,
        running: s.running,
        ipv6_on: s.ipv6_on,
        diag_started: s.diag.started,
        diag_running: s.diag.running,
        diag_selected: s.diag.selected,
        drill_open: s.diag.drill_open,
        drill_selected: s.diag.drill_selected,
        dns_selected: s.dns.selected,
        dns_interactive: s.dns.interactive,
        editing: s.quick_set.editing,
        field_idx: s.quick_set.field_idx,
        editing_v6: s.quick_set.editing_v6,
        focus: s.quick_set.focus,
        ipv4_static: s.quick_set.ipv4_static,
        advanced_open: s.quick_set.advanced_open,
        advanced_selected: s.quick_set.advanced_selected,
        conn: s.term.conn,
        conn_type: s.term.conn_type,
        vendor_idx: s.term.vendor_idx,
        cmd_idx: s.term.cmd_idx,
        selected_port: s.term.selected_port,
        baud: s.term.baud,
        input_mode: s.term.input_mode,
        topo_mode: s.topo.mode,
        topo_selected: s.topo.selected,
        menu_idx: s.topo.menu_idx,
        dev_idx: s.topo.dev_idx,
        backup_selected: s.backup.selected,
    }
}

/// A step of the key machine: the new navigation state and the action, or
/// none where a key would make an index overflow or fall out of range.
pub type Step = Option<(Nav, KeyAction)>;

pub open spec fn stay(n: Nav) -> Step {
    Some((n, KeyAction::Nothing))
}

pub open spec fn act(n: Nav, a: KeyAction) -> Step {
    Some((n, a))
}

/// `(i + n - 1) % n` for a non-empty list of `n`, none where `i + n` overflows.
pub open spec fn back_one(i: usize, n: nat) -> Option<usize> {
    if i + n <= usize::MAX {
        Some(((i + n - 1) % (n as int)) as usize)
    } else {
        None
    }
}

/// `(i + 1) % n` for a non-empty list of `n`, none on overflow.
pub open spec fn on_one(i: usize, n: nat) -> Option<usize> {
    if i + 1 <= usize::MAX {
        Some(((i + 1) % (n as int)) as usize)
    } else {
        None
    }
}

/// The other connection type.
pub open spec fn other_conn_type(t: ConnType) -> ConnType {
    match t {
        ConnType::Generic => ConnType::Ensp,
        ConnType::Ensp => ConnType::Generic,
    }
}

/// The baud rates cycled through before connecting.
pub open spec fn baud_cycle() -> Seq<u32> {
    seq![9600u32, 115200, 19200, 38400, 57600]
}

/// The rate after `b` in the cycle; `b` itself when it is not in the cycle.
pub open spec fn next_baud(b: u32) -> u32 {
    if b == 9600 {
        115200
    } else if b == 115200 {
        19200
    } else if b == 19200 {
        38400
    } else if b == 38400 {
        57600
    } else if b == 57600 {
        9600
    } else {
        b
    }
}

/// Vendor selection moved back (`forward` false) or on by one.
pub open spec fn vendor_step(n: Nav, c: NavCtx, forward: bool) -> Step {
    let count = c.vendor_cmds.len();
    if count == 0 {
        stay(n)
    } else {
        let v = if forward {
            on_one(n.vendor_idx, count)
        } else {
            back_one(n.vendor_idx, count)
        };
        match v {
            Some(i) => stay(Nav { vendor_idx: i, cmd_idx: 0, ..n }),
            None => None,
        }
    }
}

/// The command selection moved by `delta` within the current vendor's commands.
pub open spec fn term_move_step(n: Nav, x: NavCtx, delta: i64) -> Step {
    if n.vendor_idx < x.vendor_cmds.len() && x.vendor_cmds[n.vendor_idx as int] > 0 {
        let c = x.vendor_cmds[n.vendor_idx as int];
        if cycle_fits(n.cmd_idx, delta, c) {
            stay(Nav { cmd_idx: cycled(n.cmd_idx, delta, c), ..n })
        } else {
            None
        }
    } else {
        stay(n)
    }
}

/// Moving within the topology module: topologies, menu operations or devices.
pub open spec fn topo_nav_step(n: Nav, x: NavCtx, delta: i64) -> Step {
    match n.topo_mode {
        TopoMode::List => if x.topo_entries > 0 {
            if cycle_fits(n.topo_selected, delta, x.topo_entries) {
                stay(Nav { topo_selected: cycled(n.topo_selected, delta, x.topo_entries), ..n })
            } else {
                None
            }
        } else {
            stay(n)
        },
        TopoMode::Menu => if cycle_fits(n.menu_idx, delta, TOPO_MENU_COUNT as nat) {
            stay(Nav { menu_idx: cycled(n.menu_idx, delta, TOPO_MENU_COUNT as nat), ..n })
        } else {
            None
        },
        TopoMode::Detail => if n.topo_selected < x.topo_devices.len()
            && x.topo_devices[n.topo_selected as int] > 0 {
            let c = x.topo_devices[n.topo_selected as int];
            if cycle_fits(n.dev_idx, delta, c) {
                stay(Nav { dev_idx: cycled(n.dev_idx, delta, c), ..n })
            } else {
                None
            }
        } else {
            stay(n)
        },
    }
}

/// The focused quick-settings row.
pub open spec fn row_of(n: Nav) -> QsRow {
    let rows = focus_rows_of(n.ipv4_static, n.ipv6_on, n.advanced_open);
    if n.focus < rows.len() {
        rows[n.focus as int]
    } else {
        QsRow::Ipv4Toggle
    }
}

/// Enter in the quick-settings module.
pub open spec fn quick_enter_step(n: Nav) -> Step {
    if n.editing {
        act(n, KeyAction::SubmitIpForm)
    } else if n.dns_interactive {
        act(n, KeyAction::ApplyDns)
    } else {
        match row_of(n) {
            QsRow::Ipv4Toggle => act(n, KeyAction::ToggleIpv4Dhcp),
            QsRow::Ipv4Field(i) => stay(Nav { editing: true, editing_v6: false, field_idx: i, ..n }),
            QsRow::Ipv6Toggle => act(n, KeyAction::ToggleIpv6),
            QsRow::Ipv6Field(i) => stay(Nav { editing: true, editing_v6: true, field_idx: i, ..n }),
            QsRow::AdvancedToggle => stay(
                Nav { advanced_open: !n.advanced_open, advanced_selected: 0, ..n },
            ),
            QsRow::AdvancedItem(i) => if i < ADVANCED_COUNT {
                act(n, KeyAction::RunQuick(advanced_action_list()[i as int].1))
            } else {
                stay(n)
            },
        }
    }
}

/// Enter in the topology module: open the menu, run a menu operation, or
/// produce the selected device's configuration.
pub open spec fn topo_enter_step(n: Nav, entries: nat) -> Step {
    match n.topo_mode {
        TopoMode::List => if entries > 0 {
            stay(Nav { topo_mode: TopoMode::Menu, menu_idx: 0, ..n })
        } else {
            stay(n)
        },
        TopoMode::Menu => if n.menu_idx == 0 {
            act(n, KeyAction::TopoOpenEditor)
        } else if n.menu_idx == 1 {
            stay(Nav { topo_mode: TopoMode::Detail, dev_idx: 0, ..n })
        } else if n.menu_idx == 2 {
            act(n, KeyAction::TopoRename)
        } else if n.menu_idx == 3 {
            act(n, KeyAction::TopoCopy)
        } else if n.menu_idx == 4 {
            act(n, KeyAction::TopoExportD2)
        } else if n.menu_idx == 5 {
            act(n, KeyAction::TopoDelete)
        } else {
            stay(n)
        },
        TopoMode::Detail => act(n, KeyAction::TopoGenCli),
    }
}

/// The characters accepted in an address field: digits, `.`, `:` and hex letters.
pub open spec fn field_char(c: char) -> bool {
    ('0' <= c <= '9') || c == '.' || c == ':' || ('a' <= c <= 'f') || ('A' <= c <= 'F')
}

/// Esc: closes, innermost first, the help, the drawer, the DNS ranking, the
/// field being edited, the terminal input, or a topology level.
pub open spec fn esc_step(n: Nav) -> Step {
    if n.show_help {
        stay(Nav { show_help: false, ..n })
    } else if n.drill_open {
        stay(Nav { drill_open: false, ..n })
    } else if n.dns_interactive {
        stay(Nav { dns_interactive: false, ..n })
    } else if n.editing {
        stay(Nav { editing: false, ..n })
    } else if n.input_mode {
        stay(Nav { input_mode: false, ..n })
    } else if n.tab == 3 {
        match n.topo_mode {
            TopoMode::Menu => stay(Nav { topo_mode: TopoMode::List, ..n }),
            TopoMode::Detail => stay(Nav { topo_mode: TopoMode::Menu, ..n }),
            TopoMode::List => stay(n),
        }
    } else {
        stay(n)
    }
}

/// Left or Right in the terminal: the connection type before connecting,
/// the vendor after.
pub open spec fn horizontal_step(n: Nav, x: NavCtx, forward: bool) -> Step {
    if n.tab == 2 {
        if n.conn == ConnState::Disconnected {
            stay(Nav { conn_type: other_conn_type(n.conn_type), ..n })
        } else {
            vendor_step(n, x, forward)
        }
    } else {
        stay(n)
    }
}

/// Up in the diagnosis module.
pub open spec fn diag_up(n: Nav, results: nat) -> Step {
    if n.drill_open {
        stay(
            Nav {
                drill_selected: if n.drill_selected > 0 {
                    (n.drill_selected - 1) as usize
                } else {
                    0
                },
                ..n
            },
        )
    } else if n.diag_started && results > 0 {
        match back_one(n.diag_selected, results) {
            Some(i) => stay(Nav { diag_selected: i, ..n }),
            None => None,
        }
    } else {
        stay(n)
    }
}

/// Down in the diagnosis module (the drawer lists no actions to move to).
pub open spec fn diag_down(n: Nav, results: nat) -> Step {
    if n.drill_open {
        if n.drill_selected + 1 <= usize::MAX {
            stay(n)
        } else {
            None
        }
    } else if n.diag_started && results > 0 {
        match on_one(n.diag_selected, results) {
            Some(i) => stay(Nav { diag_selected: i, ..n }),
            None => None,
        }
    } else {
        stay(n)
    }
}

/// Up (`forward` false) or Down in the quick-settings module.
pub open spec fn quick_vertical(n: Nav, dns_results: nat, forward: bool) -> Step {
    if n.editing {
        if forward {
            if n.field_idx + 1 < 5 {
                stay(Nav { field_idx: (n.field_idx + 1) as usize, ..n })
            } else if n.field_idx + 1 <= usize::MAX {
                stay(n)
            } else {
                None
            }
        } else {
            stay(
                Nav {
                    field_idx: if n.field_idx > 0 {
                        (n.field_idx - 1) as usize
                    } else {
                        n.field_idx
                    },
                    ..n
                },
            )
        }
    } else if n.dns_interactive {
        if dns_results > 0 {
            match if forward {
                on_one(n.dns_selected, dns_results)
            } else {
                back_one(n.dns_selected, dns_results)
            } {
                Some(i) => stay(Nav { dns_selected: i, ..n }),
                None => None,
            }
        } else {
            stay(n)
        }
    } else {
        let c = focus_rows_of(n.ipv4_static, n.ipv6_on, n.advanced_open).len();
        let d: i64 = if forward {
            1i64
        } else {
            -1i64
        };
        if cycle_fits(n.focus, d, c) {
            stay(Nav { focus: cycled(n.focus, d, c), ..n })
        } else {
            None
        }
    }
}

/// Up or Down in the terminal: the port before connecting, the command after.
pub open spec fn term_vertical(n: Nav, x: NavCtx, forward: bool) -> Step {
    if n.conn == ConnState::Disconnected {
        if x.ports > 0 {
            match if forward {
                on_one(n.selected_port, x.ports)
            } else {
                back_one(n.selected_port, x.ports)
            } {
                Some(i) => stay(Nav { selected_port: i, ..n }),
                None => None,
            }
        } else {
            stay(n)
        }
    } else if !n.input_mode {
        term_move_step(
            n,
            x,
            if forward {
                1i64
            } else {
                -1i64
            },
        )
    } else {
        stay(n)
    }
}

/// Up or Down in the backup module (four actions).
pub open spec fn backup_vertical(n: Nav, forward: bool) -> Step {
    stay(
        Nav {
            backup_selected: if forward {
                if n.backup_selected < 3 {
                    (n.backup_selected + 1) as usize
                } else {
                    n.backup_selected
                }
            } else if n.backup_selected > 0 {
                (n.backup_selected - 1) as usize
            } else {
                0
            },
            ..n
        },
    )
}

/// Up or Down, by module.
pub open spec fn vertical_step(n: Nav, x: NavCtx, forward: bool) -> Step {
    if n.tab == 0 {
        if forward {
            diag_down(n, x.diag_results)
        } else {
            diag_up(n, x.diag_results)
        }
    } else if n.tab == 1 {
        quick_vertical(n, x.dns_results, forward)
    } else if n.tab == 2 {
        term_vertical(n, x, forward)
    } else if n.tab == 3 {
        topo_nav_step(
            n,
            x,
            if forward {
                1i64
            } else {
                -1i64
            },
        )
    } else if n.tab == 4 {
        backup_vertical(n, forward)
    } else {
        stay(n)
    }
}

/// Enter (or `r`), by module.
pub open spec fn enter_step(n: Nav, x: NavCtx) -> Step {
    if n.tab == 0 {
        if n.drill_open {
            act(n, KeyAction::ExecuteDrill)
        } else if n.diag_started && !n.diag_running {
            stay(Nav { drill_open: true, drill_selected: 0, ..n })
        } else if !n.diag_running {
            act(n, KeyAction::StartDiag)
        } else {
            stay(n)
        }
    } else if n.tab == 1 {
        quick_enter_step(n)
    } else if n.tab == 2 {
        match n.conn {
            ConnState::Disconnected => act(n, KeyAction::ScanConnect),
            ConnState::Connected => if n.input_mode {
                act(n, KeyAction::TermSendInput)
            } else {
                act(n, KeyAction::TermSend)
            },
            ConnState::Scanning => stay(n),
        }
    } else if n.tab == 3 {
        topo_enter_step(n, x.topo_entries)
    } else if n.tab == 4 {
        act(n, KeyAction::Backup(n.backup_selected))
    } else {
        stay(n)
    }
}

/// The letter commands and typing.
pub open spec fn char_step(n: Nav, x: NavCtx, c: char) -> Step {
    if c == 'q' || c == 'Q' {
        stay(Nav { running: false, ..n })
    } else if c == 'h' || c == '?' {
        stay(Nav { show_help: !n.show_help, ..n })
    } else if c == '[' {
        if n.tab == 2 {
            vendor_step(n, x, false)
        } else {
            stay(n)
        }
    } else if c == ']' {
        if n.tab == 2 {
            vendor_step(n, x, true)
        } else {
            stay(n)
        }
    } else if c == 'i' || c == 'I' {
        if n.tab == 2 && n.conn == ConnState::Connected {
            stay(Nav { input_mode: true, ..n })
        } else if n.tab == 3 && n.topo_mode == TopoMode::List {
            act(n, KeyAction::TopoImport)
        } else {
            stay(n)
        }
    } else if c == 's' || c == 'S' {
        if n.tab == 2 && n.conn == ConnState::Disconnected {
            stay(Nav { baud: next_baud(n.baud), ..n })
        } else {
            stay(n)
        }
    } else if c == 'e' || c == 'E' {
        if n.tab == 3 {
            act(n, KeyAction::TopoExportD2)
        } else {
            stay(n)
        }
    } else if c == 'f' || c == 'F' {
        if n.tab == 0 && n.diag_started && !n.diag_running {
            act(n, KeyAction::AutoFix(n.diag_selected))
        } else {
            stay(n)
        }
    } else if c == 't' || c == 'T' {
        if n.tab == 0 {
            act(n, KeyAction::TraceRoute)
        } else {
            stay(n)
        }
    } else if c == 'g' || c == 'G' {
        if n.tab == 0 {
            act(n, KeyAction::ExportReport)
        } else {
            stay(n)
        }
    } else if c == 'n' || c == 'N' {
        if n.tab == 3 && n.topo_mode == TopoMode::List {
            act(n, KeyAction::TopoNew)
        } else {
            stay(n)
        }
    } else if c == 'd' || c == 'D' {
        if n.tab == 3 {
            act(n, KeyAction::TopoDeploy)
        } else {
            stay(n)
        }
    } else if c == 'o' || c == 'O' {
        if n.tab == 3 {
            act(n, KeyAction::TopoOpenEditor)
        } else {
            stay(n)
        }
    } else if c == 'b' || c == 'B' {
        if n.tab == 3 {
            act(n, KeyAction::TopoLoadJson)
        } else {
            stay(n)
        }
    } else if c == 'r' || c == 'R' {
        enter_step(n, x)
    } else if n.tab == 1 && n.editing && field_char(c) && n.field_idx >= 5 {
        None
    } else {
        stay(n)
    }
}

/// One key, after the module switch: what it changes and what it asks for.
pub open spec fn local_step(n: Nav, x: NavCtx, key: Key) -> Step {
    match key {
        Key::F(1) => stay(Nav { show_help: !n.show_help, ..n }),
        Key::F(2) => act(n, KeyAction::ToggleIme),
        Key::Esc => esc_step(n),
        Key::Left => horizontal_step(n, x, false),
        Key::Right => horizontal_step(n, x, true),
        Key::Up => vertical_step(n, x, false),
        Key::Down => vertical_step(n, x, true),
        Key::Enter => enter_step(n, x),
        Key::Backspace => if n.tab == 1 && n.editing && n.field_idx >= 5 {
            None
        } else {
            stay(n)
        },
        Key::Char(c) => char_step(n, x, c),
        _ => stay(n),
    }
}

/// One key: module switching first, then the module's own handling.
#[verifier::opaque]
pub open spec fn key_step(n: Nav, x: NavCtx, key: Key, ctrl: bool) -> Step {
    match nav_intent_of(key, ctrl) {
        NavIntent::ModuleNext => if n.tab + 1 <= usize::MAX {
            stay(Nav { tab: ((n.tab + 1) % (TAB_COUNT as int)) as usize, ..n })
        } else {
            None
        },
        NavIntent::ModulePrev => if n.tab + TAB_COUNT <= usize::MAX {
            stay(Nav { tab: ((n.tab + TAB_COUNT - 1) % (TAB_COUNT as int)) as usize, ..n })
        } else {
            None
        },
        NavIntent::Local => local_step(n, x, key),
    }
}

/// The text a key types.
pub enum TextEdit {
    Keep,
    /// Delete the last character of the edited address field.
    FieldPop,
    /// Append to the edited address field (when it is under 45 bytes).
    FieldPush(char),
    /// Delete the last character of the terminal input.
    InputPop,
    /// Append to the terminal input.
    InputPush(char),
}

/// Whether the key reaches the typing handlers (letters with a command of
/// their own never do).
pub open spec fn typing_key(c: char) -> bool {
    !(c == 'q' || c == 'Q' || c == 'h' || c == '?' || c == '[' || c == ']' || c == 'i' || c == 'I'
        || c == 's' || c == 'S' || c == 'e' || c == 'E' || c == 'f' || c == 'F' || c == 't' || c
        == 'T' || c == 'g' || c == 'G' || c == 'n' || c == 'N' || c == 'd' || c == 'D' || c == 'o'
        || c == 'O' || c == 'b' || c == 'B' || c == 'r' || c == 'R')
}

pub open spec fn text_edit(n: Nav, key: Key, ctrl: bool) -> TextEdit {
    if nav_intent_of(key, ctrl) != NavIntent::Local {
        TextEdit::Keep
    } else {
        match key {
            Key::Backspace => if n.tab == 1 && n.editing {
                TextEdit::FieldPop
            } else if n.tab == 2 && n.input_mode {
                TextEdit::InputPop
            } else {
                TextEdit::Keep
            },
            Key::Char(c) => if !typing_key(c) {
                TextEdit::Keep
            } else if n.tab == 1 && n.editing {
                if field_char(c) {
                    TextEdit::FieldPush(c)
                } else {
                    TextEdit::Keep
                }
            } else if n.tab == 2 && n.input_mode {
                TextEdit::InputPush(c)
            } else {
                TextEdit::Keep
            },
            _ => TextEdit::Keep,
        }
    }
}

/// The UTF-8 length of a text, as `str::len` reports it.
pub open spec fn byte_len(f: Seq<char>) -> usize {
    encode_utf8(f).len() as usize
}

/// Whether a text edit touches an address field.
pub open spec fn edits_field(e: TextEdit) -> bool {
    match e {
        TextEdit::FieldPop | TextEdit::FieldPush(_) => true,
        _ => false,
    }
}

/// A field after typing `c`: appended when the field holds fewer than 45 bytes.
pub open spec fn field_after_push(f: Seq<char>, c: char) -> Seq<char> {
    if byte_len(f) < 45 {
        f.push(c)
    } else {
        f
    }
}

/// A text after deleting its last character.
pub open spec fn popped(f: Seq<char>) -> Seq<char> {
    if f.len() > 0 {
        f.drop_last()
    } else {
        f
    }
}

/// Whether the fields other than the edited one are unchanged and the edited one is `f`.
pub open spec fn fields_edited(old_f: [String; 5], new_f: [String; 5], idx: usize, f: Seq<char>) -> bool {
    &&& new_f@[idx as int]@ == f
    &&& forall|k: int| 0 <= k < 5 && k != idx ==> #[trigger] new_f@[k] == old_f@[k]
}

/// `String::pop`: removes the last character, if any.
#[verifier::external_body]
fn pop_char(s: &mut String)
    ensures
        final(s)@ == popped(old(s)@),
{
    s.pop();
}

/// Everything keys leave alone: lists, texts, results, scroll offsets and the
/// vendor database.
pub open spec fn frame(a: UiState, b: UiState) -> bool {
    &&& b.diag.names == a.diag.names
    &&& b.diag.results == a.diag.results
    &&& b.diag.logs == a.diag.logs
    &&& b.diag.summary == a.diag.summary
    &&& b.diag.offset == a.diag.offset
    &&& b.quick_set.result == a.quick_set.result
    &&& b.term.ports == a.term.ports
    &&& b.term.output == a.term.output
    &&& b.term.status == a.term.status
    &&& b.term.detected_vendor == a.term.detected_vendor
    &&& b.term.detected_model == a.term.detected_model
    &&& b.term.cmd_offset == a.term.cmd_offset
    &&& b.term.port_offset == a.term.port_offset
    &&& b.dns.results == a.dns.results
    &&& b.dns.status == a.dns.status
    &&& b.dns.offset == a.dns.offset
    &&& b.dns.running == a.dns.running
    &&& b.topo.entries == a.topo.entries
    &&& b.topo.cli == a.topo.cli
    &&& b.topo.status == a.topo.status
    &&& b.topo.offset == a.topo.offset
    &&& b.topo.findings_offset == a.topo.findings_offset
    &&& b.backup.result == a.backup.result
    &&& b.backup.bundles == a.backup.bundles
    &&& b.backup.offset == a.backup.offset
    &&& b.backup.bundles_offset == a.backup.bundles_offset
    &&& b.vendor_db == a.vendor_db
}

/// The typed texts after the key.
pub open spec fn texts_after(a: UiState, b: UiState, e: TextEdit) -> bool {
    match e {
        TextEdit::Keep => {
            &&& b.term.input == a.term.input
            &&& b.quick_set.ipv4_fields == a.quick_set.ipv4_fields
            &&& b.quick_set.ipv6_fields == a.quick_set.ipv6_fields
        },
        TextEdit::FieldPop | TextEdit::FieldPush(_) => {
            let idx = a.quick_set.field_idx;
            let (olds, news, others_old, others_new) = if a.quick_set.editing_v6 {
                (
                    a.quick_set.ipv6_fields,
                    b.quick_set.ipv6_fields,
                    a.quick_set.ipv4_fields,
                    b.quick_set.ipv4_fields,
                )
            } else {
                (
                    a.quick_set.ipv4_fields,
                    b.quick_set.ipv4_fields,
                    a.quick_set.ipv6_fields,
                    b.quick_set.ipv6_fields,
                )
            };
            let f = olds@[idx as int]@;
            &&& fields_edited(
                olds,
                news,
                idx,
                match e {
                    TextEdit::FieldPush(c) => field_after_push(f, c),
                    _ => popped(f),
                },
            )
            &&& others_new == others_old
            &&& b.term.input == a.term.input
        },
        TextEdit::InputPop => {
            &&& b.term.input@ == popped(a.term.input@)
            &&& b.quick_set.ipv4_fields == a.quick_set.ipv4_fields
            &&& b.quick_set.ipv6_fields == a.quick_set.ipv6_fields
        },
        TextEdit::InputPush(c) => {
            &&& b.term.input@ == a.term.input@.push(c)
            &&& b.quick_set.ipv4_fields == a.quick_set.ipv4_fields
            &&& b.quick_set.ipv6_fields == a.quick_set.ipv6_fields
        },
    }
}

/// Edits one of five fields.
fn edit_field(fields: &mut [String; 5], idx: usize, push: Option<char>)
    requires
        idx < 5,
    ensures
        fields_edited(
            *old(fields),
            *final(fields),
            idx,
            match push {
                Some(c) => field_after_push(old(fields)@[idx as int]@, c),
                None => popped(old(fields)@[idx as int]@),
            },
        ),
{
    let mut f = fields[idx].clone();
    let ghost f0 = f@;
    assert(f0 == old(fields)@[idx as int]@);
    match push {
        Some(c) => {
            let n = f.as_str().len();
            if n < 45 {
                push_char(&mut f, c);
            }
        },
        None => pop_char(&mut f),
    }
    let ghost f1 = f@;
    fields[idx] = f;
    assert(fields@[idx as int]@ == f1);
}

/// An index or count far from any overflow.
pub open spec fn small(i: int) -> bool {
    0 <= i < 0x10_0000
}

/// Every index and list length of the screens is small, and no address
/// field past the fifth is being edited: then every key is handled.
pub open spec fn keys_bounded(n: Nav, x: NavCtx) -> bool {
    &&& small(n.tab as int)
    &&& small(n.diag_selected as int)
    &&& small(n.drill_selected as int)
    &&& small(n.dns_selected as int)
    &&& small(n.field_idx as int)
    &&& small(n.focus as int)
    &&& small(n.vendor_idx as int)
    &&& small(n.cmd_idx as int)
    &&& small(n.selected_port as int)
    &&& small(n.topo_selected as int)
    &&& small(n.menu_idx as int)
    &&& small(n.dev_idx as int)
    &&& small(x.diag_results as int)
    &&& small(x.dns_results as int)
    &&& small(x.ports as int)
    &&& small(x.topo_entries as int)
    &&& small(x.vendor_cmds.len() as int)
    &&& forall|i: int| 0 <= i < x.topo_devices.len() ==> small(#[trigger] x.topo_devices[i] as int)
    &&& forall|i: int| 0 <= i < x.vendor_cmds.len() ==> small(#[trigger] x.vendor_cmds[i] as int)
    &&& !(n.editing && n.field_idx >= 5)
}

proof fn lemma_bounded_vertical(n: Nav, x: NavCtx, forward: bool)
    requires
        keys_bounded(n, x),
    ensures
        vertical_step(n, x, forward) is Some,
{
    let rows = focus_rows_of(n.ipv4_static, n.ipv6_on, n.advanced_open);
    assert(rows.len() <= 17);
    if n.vendor_idx < x.vendor_cmds.len() {
        assert(small(x.vendor_cmds[n.vendor_idx as int] as int));
    }
    if n.topo_selected < x.topo_devices.len() {
        assert(small(x.topo_devices[n.topo_selected as int] as int));
    }
}

proof fn lemma_bounded_char(n: Nav, x: NavCtx, c: char)
    requires
        keys_bounded(n, x),
    ensures
        char_step(n, x, c) is Some,
{
    if n.vendor_idx < x.vendor_cmds.len() {
        assert(small(x.vendor_cmds[n.vendor_idx as int] as int));
    }
}

/// Within those bounds every key press has a defined outcome.
pub proof fn lemma_bounded_keys_handled(n: Nav, x: NavCtx, key: Key, ctrl: bool)
    requires
        keys_bounded(n, x),
    ensures
        key_step(n, x, key, ctrl) is Some,
{
    reveal(key_step);
    match nav_intent_of(key, ctrl) {
        NavIntent::Local => {
            match key {
                Key::Up => lemma_bounded_vertical(n, x, false),
                Key::Down => lemma_bounded_vertical(n, x, true),
                Key::Left | Key::Right => {
                    if n.vendor_idx < x.vendor_cmds.len() {
                        assert(small(x.vendor_cmds[n.vendor_idx as int] as int));
                    }
                },
                Key::Char(c) => lemma_bounded_char(n, x, c),
                _ => {},
            }
        },
        _ => {},
    }
}

fn is_small(i: usize) -> (r: bool)
    ensures
        r == small(i as int),
{
    i < 0x10_0000
}

impl UiState {
    /// Whether every key is handled in this state (see [`keys_bounded`]);
    /// [`UiState::on_key`] may be called whenever this holds.
    pub fn keys_handled(&self) -> (r: bool)
        ensures
            r == keys_bounded(nav_of(*self), ctx_of(*self)),
            r ==> forall|key: Key, ctrl: bool| #[trigger]
                key_step(nav_of(*self), ctx_of(*self), key, ctrl) is Some,
    {
        let n = self.nav();
        let ghost x = ctx_of(*self);
        let base = is_small(n.tab) && is_small(n.diag_selected) && is_small(n.drill_selected)
            && is_small(n.dns_selected) && is_small(n.field_idx) && is_small(n.focus)
            && is_small(n.vendor_idx) && is_small(n.cmd_idx) && is_small(n.selected_port)
            && is_small(n.topo_selected) && is_small(n.menu_idx) && is_small(n.dev_idx)
            && is_small(self.diag.results.len()) && is_small(self.dns.results.len())
            && is_small(self.term.ports.len()) && is_small(self.topo.entries.len())
            && is_small(self.vendor_db.vendors().len()) && !(n.editing && n.field_idx >= 5);
        let mut devs_ok = true;
        let mut i: usize = 0;
        while i < self.topo.entries.len()
            invariant
                i <= self.topo.entries@.len(),
                x == ctx_of(*self),
                x.topo_devices.len() == self.topo.entries@.len(),
                devs_ok == forall|k: int| 0 <= k < i ==> small(#[trigger] x.topo_devices[k] as int),
            decreases self.topo.entries@.len() - i,
        {
            assert(x.topo_devices[i as int] == self.topo.entries@[i as int].topology.devices@.len());
            if !is_small(self.topo.entries[i].topology.devices.len()) {
                devs_ok = false;
            }
            i = i + 1;
        }
        let vendors = self.vendor_db.vendors();
        let mut cmds_ok = true;
        let mut j: usize = 0;
        while j < vendors.len()
            invariant
                j <= vendors@.len(),
                vendors@ == self.vendor_db.templates(),
                x == ctx_of(*self),
                x.vendor_cmds.len() == vendors@.len(),
                cmds_ok == forall|k: int| 0 <= k < j ==> small(#[trigger] x.vendor_cmds[k] as int),
            decreases vendors@.len() - j,
        {
            assert(x.vendor_cmds[j as int] == vendors@[j as int].commands@.len());
            if !is_small(vendors[j].commands.len()) {
                cmds_ok = false;
            }
            j = j + 1;
        }
        let ok = base && devs_ok && cmds_ok;
        proof {
            if ok {
                assert forall|key: Key, ctrl: bool| #[trigger]
                    key_step(nav_of(*self), ctx_of(*self), key, ctrl) is Some by {
                    lemma_bounded_keys_handled(nav_of(*self), ctx_of(*self), key, ctrl);
                }
            }
        }
        ok
    }
}

impl UiState {
    /// The navigable part of the state.
    pub fn nav(&self) -> (r: Nav)
        ensures
            r == nav_of(*self),
    {
        Nav {
            tab: self.tab,
            show_help: self.show_help,
            running: self.running,
            ipv6_on: self.ipv6_on,
            diag_started: self.diag.started,
            diag_running: self.diag.running,
            diag_selected: self.diag.selected,
            drill_open: self.diag.drill_open,
            drill_selected: self.diag.drill_selected,
            dns_selected: self.dns.selected,
            dns_interactive: self.dns.interactive,
            editing: self.quick_set.editing,
            field_idx: self.quick_set.field_idx,
            editing_v6: self.quick_set.editing_v6,
            focus: self.quick_set.focus,
            ipv4_static: self.quick_set.ipv4_static,
            advanced_open: self.quick_set.advanced_open,
            advanced_selected: self.quick_set.advanced_selected,
            conn: self.term.conn,
            conn_type: self.term.conn_type,
            vendor_idx: self.term.vendor_idx,
            cmd_idx: self.term.cmd_idx,
            selected_port: self.term.selected_port,
            baud: self.term.baud,
            input_mode: self.term.input_mode,
            topo_mode: self.topo.mode,
            topo_selected: self.topo.selected,
            menu_idx: self.topo.menu_idx,
            dev_idx: self.topo.dev_idx,
            backup_selected: self.backup.selected,
        }
    }

    /// Writes the navigable part back.
    fn set_nav(&mut self, n: Nav)
        ensures
            nav_of(*final(self)) == n,
            frame(*old(self), *final(self)),
            texts_after(*old(self), *final(self), TextEdit::Keep),
    {
        self.tab = n.tab;
        self.show_help = n.show_help;
        self.running = n.running;
        self.ipv6_on = n.ipv6_on;
        self.diag.started = n.diag_started;
        self.diag.running = n.diag_running;
        self.diag.selected = n.diag_selected;
        self.diag.drill_open = n.drill_open;
        self.diag.drill_selected = n.drill_selected;
        self.dns.selected = n.dns_selected;
        self.dns.interactive = n.dns_interactive;
        self.quick_set.editing = n.editing;
        self.quick_set.field_idx = n.field_idx;
        self.quick_set.editing_v6 = n.editing_v6;
        self.quick_set.focus = n.focus;
        self.quick_set.ipv4_static = n.ipv4_static;
        self.quick_set.advanced_open = n.advanced_open;
        self.quick_set.advanced_selected = n.advanced_selected;
        self.term.conn = n.conn;
        self.term.conn_type = n.conn_type;
        self.term.vendor_idx = n.vendor_idx;
        self.term.cmd_idx = n.cmd_idx;
        self.term.selected_port = n.selected_port;
        self.term.baud = n.baud;
        self.term.input_mode = n.input_mode;
        self.topo.mode = n.topo_mode;
        self.topo.selected = n.topo_selected;
        self.topo.menu_idx = n.menu_idx;
        self.topo.dev_idx = n.dev_idx;
        self.backup.selected = n.backup_selected;
    }
}

/// Whether `c` may be typed into an address field.
fn is_field_char(c: char) -> (r: bool)
    ensures
        r == field_char(c),
{
    ('0' <= c && c <= '9') || c == '.' || c == ':' || ('a' <= c && c <= 'f') || ('A' <= c && c
        <= 'F')
}

/// Whether a character is typed rather than taken as a command.
fn is_typing_key(c: char) -> (r: bool)
    ensures
        r == typing_key(c),
{
    !(c == 'q' || c == 'Q' || c == 'h' || c == '?' || c == '[' || c == ']' || c == 'i' || c == 'I'
        || c == 's' || c == 'S' || c == 'e' || c == 'E' || c == 'f' || c == 'F' || c == 't' || c
        == 'T' || c == 'g' || c == 'G' || c == 'n' || c == 'N' || c == 'd' || c == 'D' || c == 'o'
        || c == 'O' || c == 'b' || c == 'B' || c == 'r' || c == 'R')
}

fn vendor_move(n: Nav, db: &VendorDb, entries: &Vec<TopoEntry>, l: Lens, forward: bool) -> (r: Nav)
    requires
        vendor_step(n, ctx_from(*db, entries@, l), forward) is Some,
    ensures
        vendor_step(n, ctx_from(*db, entries@, l), forward) == Some((r, KeyAction::Nothing)),
{
    let count = db.vendors().len();
    assert(ctx_from(*db, entries@, l).vendor_cmds.len() == count);
    if count == 0 {
        return n;
    }
    let i = if forward {
        (n.vendor_idx + 1) % count
    } else {
        (n.vendor_idx + count - 1) % count
    };
    Nav { vendor_idx: i, cmd_idx: 0, ..n }
}

fn term_move(n: Nav, db: &VendorDb, entries: &Vec<TopoEntry>, l: Lens, delta: i64) -> (r: Nav)
    requires
        term_move_step(n, ctx_from(*db, entries@, l), delta) is Some,
    ensures
        term_move_step(n, ctx_from(*db, entries@, l), delta) == Some((r, KeyAction::Nothing)),
{
    let vs = db.vendors();
    assert(ctx_from(*db, entries@, l).vendor_cmds.len() == vs@.len());
    if n.vendor_idx < vs.len() {
        let c = vs[n.vendor_idx].commands.len();
        assert(ctx_from(*db, entries@, l).vendor_cmds[n.vendor_idx as int] == c);
        if c > 0 {
            return Nav { cmd_idx: cycle_index(n.cmd_idx, delta, c), ..n };
        }
    }
    n
}

fn topo_nav(n: Nav, db: &VendorDb, entries: &Vec<TopoEntry>, l: Lens, delta: i64) -> (r: Nav)
    requires
        topo_nav_step(n, ctx_from(*db, entries@, l), delta) is Some,
    ensures
        topo_nav_step(n, ctx_from(*db, entries@, l), delta) == Some((r, KeyAction::Nothing)),
{
    match n.topo_mode {
        TopoMode::List => if entries.len() > 0 {
            Nav { topo_selected: cycle_index(n.topo_selected, delta, entries.len()), ..n }
        } else {
            n
        },
        TopoMode::Menu => Nav { menu_idx: cycle_index(n.menu_idx, delta, TOPO_MENU_COUNT), ..n },
        TopoMode::Detail => {
            assert(ctx_from(*db, entries@, l).topo_devices.len() == entries@.len());
            if n.topo_selected < entries.len() {
                let c = entries[n.topo_selected].topology.devices.len();
                assert(ctx_from(*db, entries@, l).topo_devices[n.topo_selected as int] == c);
                if c > 0 {
                    return Nav { dev_idx: cycle_index(n.dev_idx, delta, c), ..n };
                }
            }
            n
        },
    }
}

fn esc(n: Nav) -> (r: Nav)
    ensures
        esc_step(n) == Some((r, KeyAction::Nothing)),
{
    if n.show_help {
        Nav { show_help: false, ..n }
    } else if n.drill_open {
        Nav { drill_open: false, ..n }
    } else if n.dns_interactive {
        Nav { dns_interactive: false, ..n }
    } else if n.editing {
        Nav { editing: false, ..n }
    } else if n.input_mode {
        Nav { input_mode: false, ..n }
    } else if n.tab == 3 {
        match n.topo_mode {
            TopoMode::Menu => Nav { topo_mode: TopoMode::List, ..n },
            TopoMode::Detail => Nav { topo_mode: TopoMode::Menu, ..n },
            TopoMode::List => n,
        }
    } else {
        n
    }
}

fn horizontal(n: Nav, db: &VendorDb, entries: &Vec<TopoEntry>, l: Lens, forward: bool) -> (r: Nav)
    requires
        horizontal_step(n, ctx_from(*db, entries@, l), forward) is Some,
    ensures
        horizontal_step(n, ctx_from(*db, entries@, l), forward) == Some((r, KeyAction::Nothing)),
{
    if n.tab == 2 {
        if n.conn == ConnState::Disconnected {
            Nav {
                conn_type: match n.conn_type {
                    ConnType::Generic => ConnType::Ensp,
                    ConnType::Ensp => ConnType::Generic,
                },
                ..n
            }
        } else {
            vendor_move(n, db, entries, l, forward)
        }
    } else {
        n
    }
}

fn diag_vertical(n: Nav, results: usize, forward: bool) -> (r: Nav)
    requires
        (if forward {
            diag_down(n, results as nat)
        } else {
            diag_up(n, results as nat)
        }) is Some,
    ensures
        (if forward {
            diag_down(n, results as nat)
        } else {
            diag_up(n, results as nat)
        }) == Some((r, KeyAction::Nothing)),
{
    if n.drill_open {
        if forward {
            // The drawer lists no actions, so there is nothing below the first.
            let _next = n.drill_selected + 1;
            n
        } else if n.drill_selected > 0 {
            Nav { drill_selected: n.drill_selected - 1, ..n }
        } else {
            n
        }
    } else if n.diag_started && results > 0 {
        let c = results;
        if forward {
            Nav { diag_selected: (n.diag_selected + 1) % c, ..n }
        } else {
            Nav { diag_selected: (n.diag_selected + c - 1) % c, ..n }
        }
    } else {
        n
    }
}

fn row_count(ipv4_static: bool, ipv6_on: bool, advanced_open: bool) -> (r: usize)
    ensures
        r == focus_rows_of(ipv4_static, ipv6_on, advanced_open).len(),
{
    let rows = crate::state::rows_for(ipv4_static, ipv6_on, advanced_open);
    rows.len()
}

#[verifier::rlimit(40)]
#[verifier::spinoff_prover]
fn quick_move(n: Nav, dns_results: usize, forward: bool) -> (r: Nav)
    requires
        quick_vertical(n, dns_results as nat, forward) is Some,
    ensures
        quick_vertical(n, dns_results as nat, forward) == Some((r, KeyAction::Nothing)),
{
    if n.editing {
        if forward {
            if n.field_idx + 1 < 5 {
                Nav { field_idx: n.field_idx + 1, ..n }
            } else {
                n
            }
        } else if n.field_idx > 0 {
            Nav { field_idx: n.field_idx - 1, ..n }
        } else {
            n
        }
    } else if n.dns_interactive {
        let c = dns_results;
        if c > 0 {
            if forward {
                Nav { dns_selected: (n.dns_selected + 1) % c, ..n }
            } else {
                Nav { dns_selected: (n.dns_selected + c - 1) % c, ..n }
            }
        } else {
            n
        }
    } else {
        let c = row_count(n.ipv4_static, n.ipv6_on, n.advanced_open);
        let d: i64 = if forward {
            1
        } else {
            -1
        };
        Nav { focus: cycle_index(n.focus, d, c), ..n }
    }
}

fn term_lists_move(n: Nav, db: &VendorDb, entries: &Vec<TopoEntry>, l: Lens, forward: bool) -> (r: Nav)
    requires
        term_vertical(n, ctx_from(*db, entries@, l), forward) is Some,
    ensures
        term_vertical(n, ctx_from(*db, entries@, l), forward) == Some((r, KeyAction::Nothing)),
{
    if n.conn == ConnState::Disconnected {
        let c = l.ports;
        if c > 0 {
            if forward {
                Nav { selected_port: (n.selected_port + 1) % c, ..n }
            } else {
                Nav { selected_port: (n.selected_port + c - 1) % c, ..n }
            }
        } else {
            n
        }
    } else if !n.input_mode {
        term_move(
            n,
            db,
            entries,
            l,
            if forward {
                1
            } else {
                -1
            },
        )
    } else {
        n
    }
}

#[verifier::rlimit(100)]
fn vertical(n: Nav, db: &VendorDb, entries: &Vec<TopoEntry>, l: Lens, forward: bool) -> (r: Nav)
    requires
        vertical_step(n, ctx_from(*db, entries@, l), forward) is Some,
    ensures
        vertical_step(n, ctx_from(*db, entries@, l), forward) == Some((r, KeyAction::Nothing)),
{
    if n.tab == 0 {
        diag_vertical(n, l.diag_results, forward)
    } else if n.tab == 1 {
        quick_move(n, l.dns_results, forward)
    } else if n.tab == 2 {
        term_lists_move(n, db, entries, l, forward)
    } else if n.tab == 3 {
        topo_nav(
            n,
            db,
            entries,
            l,
            if forward {
                1
            } else {
                -1
            },
        )
    } else if n.tab == 4 {
        if forward {
            if n.backup_selected < 3 {
                Nav { backup_selected: n.backup_selected + 1, ..n }
            } else {
                n
            }
        } else if n.backup_selected > 0 {
            Nav { backup_selected: n.backup_selected - 1, ..n }
        } else {
            n
        }
    } else {
        n
    }
}

fn row_at(n: Nav) -> (r: QsRow)
    ensures
        r == row_of(n),
{
    let rows = crate::state::rows_for(n.ipv4_static, n.ipv6_on, n.advanced_open);
    if n.focus < rows.len() {
        rows[n.focus]
    } else {
        QsRow::Ipv4Toggle
    }
}

fn quick_enter(n: Nav) -> (r: (Nav, KeyAction))
    ensures
        quick_enter_step(n) == Some(r),
{
    if n.editing {
        (n, KeyAction::SubmitIpForm)
    } else if n.dns_interactive {
        (n, KeyAction::ApplyDns)
    } else {
        match row_at(n) {
            QsRow::Ipv4Toggle => (n, KeyAction::ToggleIpv4Dhcp),
            QsRow::Ipv4Field(i) => (
                Nav { editing: true, editing_v6: false, field_idx: i, ..n },
                KeyAction::Nothing,
            ),
            QsRow::Ipv6Toggle => (n, KeyAction::ToggleIpv6),
            QsRow::Ipv6Field(i) => (
                Nav { editing: true, editing_v6: true, field_idx: i, ..n },
                KeyAction::Nothing,
            ),
            QsRow::AdvancedToggle => (
                Nav { advanced_open: !n.advanced_open, advanced_selected: 0, ..n },
                KeyAction::Nothing,
            ),
            QsRow::AdvancedItem(i) => {
                let actions = crate::state::advanced_actions();
                if i < ADVANCED_COUNT {
                    assert(actions@.map_values(|p: (&str, QuickAction)| (p.0@, p.1)).len() == 4);
                    assert(actions@.map_values(|p: (&str, QuickAction)| (p.0@, p.1))[i as int]
                        == advanced_action_list()[i as int]);
                    (n, KeyAction::RunQuick(actions[i].1))
                } else {
                    (n, KeyAction::Nothing)
                }
            },
        }
    }
}

fn topo_enter(n: Nav, entries: usize) -> (r: (Nav, KeyAction))
    ensures
        topo_enter_step(n, entries as nat) == Some(r),
{
    match n.topo_mode {
        TopoMode::List => if entries > 0 {
            (Nav { topo_mode: TopoMode::Menu, menu_idx: 0, ..n }, KeyAction::Nothing)
        } else {
            (n, KeyAction::Nothing)
        },
        TopoMode::Menu => if n.menu_idx == 0 {
            (n, KeyAction::TopoOpenEditor)
        } else if n.menu_idx == 1 {
            (Nav { topo_mode: TopoMode::Detail, dev_idx: 0, ..n }, KeyAction::Nothing)
        } else if n.menu_idx == 2 {
            (n, KeyAction::TopoRename)
        } else if n.menu_idx == 3 {
            (n, KeyAction::TopoCopy)
        } else if n.menu_idx == 4 {
            (n, KeyAction::TopoExportD2)
        } else if n.menu_idx == 5 {
            (n, KeyAction::TopoDelete)
        } else {
            (n, KeyAction::Nothing)
        },
        TopoMode::Detail => (n, KeyAction::TopoGenCli),
    }
}

fn enter(n: Nav, db: &VendorDb, entries: &Vec<TopoEntry>, l: Lens) -> (r: (Nav, KeyAction))
    ensures
        enter_step(n, ctx_from(*db, entries@, l)) == Some(r),
{
    if n.tab == 0 {
        if n.drill_open {
            (n, KeyAction::ExecuteDrill)
        } else if n.diag_started && !n.diag_running {
            (Nav { drill_open: true, drill_selected: 0, ..n }, KeyAction::Nothing)
        } else if !n.diag_running {
            (n, KeyAction::StartDiag)
        } else {
            (n, KeyAction::Nothing)
        }
    } else if n.tab == 1 {
        quick_enter(n)
    } else if n.tab == 2 {
        match n.conn {
            ConnState::Disconnected => (n, KeyAction::ScanConnect),
            ConnState::Connected => if n.input_mode {
                (n, KeyAction::TermSendInput)
            } else {
                (n, KeyAction::TermSend)
            },
            ConnState::Scanning => (n, KeyAction::Nothing),
        }
    } else if n.tab == 3 {
        topo_enter(n, entries.len())
    } else if n.tab == 4 {
        (n, KeyAction::Backup(n.backup_selected))
    } else {
        (n, KeyAction::Nothing)
    }
}

fn command(n: Nav, db: &VendorDb, entries: &Vec<TopoEntry>, l: Lens, c: char) -> (r: (Nav, KeyAction))
    requires
        char_step(n, ctx_from(*db, entries@, l), c) is Some,
    ensures
        char_step(n, ctx_from(*db, entries@, l), c) == Some(r),
{
    if c == 'q' || c == 'Q' {
        (Nav { running: false, ..n }, KeyAction::Nothing)
    } else if c == 'h' || c == '?' {
        (Nav { show_help: !n.show_help, ..n }, KeyAction::Nothing)
    } else if c == '[' {
        if n.tab == 2 {
            (vendor_move(n, db, entries, l, false), KeyAction::Nothing)
        } else {
            (n, KeyAction::Nothing)
        }
    } else if c == ']' {
        if n.tab == 2 {
            (vendor_move(n, db, entries, l, true), KeyAction::Nothing)
        } else {
            (n, KeyAction::Nothing)
        }
    } else if c == 'i' || c == 'I' {
        if n.tab == 2 && n.conn == ConnState::Connected {
            (Nav { input_mode: true, ..n }, KeyAction::Nothing)
        } else if n.tab == 3 && n.topo_mode == TopoMode::List {
            (n, KeyAction::TopoImport)
        } else {
            (n, KeyAction::Nothing)
        }
    } else if c == 's' || c == 'S' {
        if n.tab == 2 && n.conn == ConnState::Disconnected {
            let b = n.baud;
            let next = if b == 9600 {
                115200
            } else if b == 115200 {
                19200
            } else if b == 19200 {
                38400
            } else if b == 38400 {
                57600
            } else if b == 57600 {
                9600
            } else {
                b
            };
            (Nav { baud: next, ..n }, KeyAction::Nothing)
        } else {
            (n, KeyAction::Nothing)
        }
    } else if c == 'e' || c == 'E' {
        (
            n,
            if n.tab == 3 {
                KeyAction::TopoExportD2
            } else {
                KeyAction::Nothing
            },
        )
    } else if c == 'f' || c == 'F' {
        (
            n,
            if n.tab == 0 && n.diag_started && !n.diag_running {
                KeyAction::AutoFix(n.diag_selected)
            } else {
                KeyAction::Nothing
            },
        )
    } else if c == 't' || c == 'T' {
        (
            n,
            if n.tab == 0 {
                KeyAction::TraceRoute
            } else {
                KeyAction::Nothing
            },
        )
    } else if c == 'g' || c == 'G' {
        (
            n,
            if n.tab == 0 {
                KeyAction::ExportReport
            } else {
                KeyAction::Nothing
            },
        )
    } else if c == 'n' || c == 'N' {
        (
            n,
            if n.tab == 3 && n.topo_mode == TopoMode::List {
                KeyAction::TopoNew
            } else {
                KeyAction::Nothing
            },
        )
    } else if c == 'd' || c == 'D' {
        (
            n,
            if n.tab == 3 {
                KeyAction::TopoDeploy
            } else {
                KeyAction::Nothing
            },
        )
    } else if c == 'o' || c == 'O' {
        (
            n,
            if n.tab == 3 {
                KeyAction::TopoOpenEditor
            } else {
                KeyAction::Nothing
            },
        )
    } else if c == 'b' || c == 'B' {
        (
            n,
            if n.tab == 3 {
                KeyAction::TopoLoadJson
            } else {
                KeyAction::Nothing
            },
        )
    } else if c == 'r' || c == 'R' {
        enter(n, db, entries, l)
    } else {
        (n, KeyAction::Nothing)
    }
}

/// Whether `cur + delta + n` fits in 64-bit signed arithmetic.
fn fits_cycle(cur: usize, delta: i64, n: usize) -> (r: bool)
    ensures
        r == cycle_fits(cur, delta, n as nat),
{
    let s: i128 = cur as i64 as i128 + delta as i128 + n as i128;
    i64::MIN as i128 <= s && s <= i64::MAX as i128
}

fn vendor_defined(n: Nav, db: &VendorDb, entries: &Vec<TopoEntry>, l: Lens, forward: bool) -> (r: bool)
    ensures
        r == vendor_step(n, ctx_from(*db, entries@, l), forward) is Some,
{
    let count = db.vendors().len();
    assert(ctx_from(*db, entries@, l).vendor_cmds.len() == count);
    if count == 0 {
        true
    } else if forward {
        n.vendor_idx < usize::MAX
    } else {
        n.vendor_idx <= usize::MAX - count
    }
}

fn term_move_defined(n: Nav, db: &VendorDb, entries: &Vec<TopoEntry>, l: Lens, delta: i64) -> (r: bool)
    ensures
        r == term_move_step(n, ctx_from(*db, entries@, l), delta) is Some,
{
    let vs = db.vendors();
    assert(ctx_from(*db, entries@, l).vendor_cmds.len() == vs@.len());
    if n.vendor_idx < vs.len() {
        let c = vs[n.vendor_idx].commands.len();
        assert(ctx_from(*db, entries@, l).vendor_cmds[n.vendor_idx as int] == c);
        if c > 0 {
            return fits_cycle(n.cmd_idx, delta, c);
        }
    }
    true
}

fn topo_nav_defined(n: Nav, db: &VendorDb, entries: &Vec<TopoEntry>, l: Lens, delta: i64) -> (r: bool)
    ensures
        r == topo_nav_step(n, ctx_from(*db, entries@, l), delta) is Some,
{
    match n.topo_mode {
        TopoMode::List => if entries.len() > 0 {
            fits_cycle(n.topo_selected, delta, entries.len())
        } else {
            true
        },
        TopoMode::Menu => fits_cycle(n.menu_idx, delta, TOPO_MENU_COUNT),
        TopoMode::Detail => {
            assert(ctx_from(*db, entries@, l).topo_devices.len() == entries@.len());
            if n.topo_selected < entries.len() {
                let c = entries[n.topo_selected].topology.devices.len();
                assert(ctx_from(*db, entries@, l).topo_devices[n.topo_selected as int] == c);
                if c > 0 {
                    return fits_cycle(n.dev_idx, delta, c);
                }
            }
            true
        },
    }
}

fn vertical_defined(n: Nav, db: &VendorDb, entries: &Vec<TopoEntry>, l: Lens, forward: bool) -> (r: bool)
    ensures
        r == vertical_step(n, ctx_from(*db, entries@, l), forward) is Some,
{
    let d: i64 = if forward {
        1
    } else {
        -1
    };
    if n.tab == 0 {
        if n.drill_open {
            !forward || n.drill_selected < usize::MAX
        } else if n.diag_started && l.diag_results > 0 {
            if forward {
                n.diag_selected < usize::MAX
            } else {
                n.diag_selected <= usize::MAX - l.diag_results
            }
        } else {
            true
        }
    } else if n.tab == 1 {
        if n.editing {
            !forward || n.field_idx < usize::MAX
        } else if n.dns_interactive {
            if l.dns_results > 0 {
                if forward {
                    n.dns_selected < usize::MAX
                } else {
                    n.dns_selected <= usize::MAX - l.dns_results
                }
            } else {
                true
            }
        } else {
            let rows = crate::state::rows_for(n.ipv4_static, n.ipv6_on, n.advanced_open);
            fits_cycle(n.focus, d, rows.len())
        }
    } else if n.tab == 2 {
        if n.conn == ConnState::Disconnected {
            if l.ports > 0 {
                if forward {
                    n.selected_port < usize::MAX
                } else {
                    n.selected_port <= usize::MAX - l.ports
                }
            } else {
                true
            }
        } else if !n.input_mode {
            term_move_defined(n, db, entries, l, d)
        } else {
            true
        }
    } else if n.tab == 3 {
        topo_nav_defined(n, db, entries, l, d)
    } else {
        true
    }
}

fn char_defined(n: Nav, db: &VendorDb, entries: &Vec<TopoEntry>, l: Lens, c: char) -> (r: bool)
    ensures
        r == char_step(n, ctx_from(*db, entries@, l), c) is Some,
{
    if c == 'q' || c == 'Q' || c == 'h' || c == '?' {
        true
    } else if c == '[' || c == ']' {
        n.tab != 2 || vendor_defined(n, db, entries, l, c == ']')
    } else if c == 'i' || c == 'I' || c == 's' || c == 'S' || c == 'e' || c == 'E' || c == 'f'
        || c == 'F' || c == 't' || c == 'T' || c == 'g' || c == 'G' || c == 'n' || c == 'N' || c
        == 'd' || c == 'D' || c == 'o' || c == 'O' || c == 'b' || c == 'B' || c == 'r' || c == 'R' {
        true
    } else {
        !(n.tab == 1 && n.editing && is_field_char(c) && n.field_idx >= 5)
    }
}

fn horizontal_defined(n: Nav, db: &VendorDb, entries: &Vec<TopoEntry>, l: Lens, forward: bool) -> (r: bool)
    ensures
        r == horizontal_step(n, ctx_from(*db, entries@, l), forward) is Some,
{
    if n.tab == 2 && n.conn != ConnState::Disconnected {
        vendor_defined(n, db, entries, l, forward)
    } else {
        true
    }
}

fn local_defined(n: Nav, db: &VendorDb, entries: &Vec<TopoEntry>, l: Lens, key: Key) -> (r: bool)
    ensures
        r == local_step(n, ctx_from(*db, entries@, l), key) is Some,
{
    match key {
        Key::Left => horizontal_defined(n, db, entries, l, false),
        Key::Right => horizontal_defined(n, db, entries, l, true),
        Key::Up => vertical_defined(n, db, entries, l, false),
        Key::Down => vertical_defined(n, db, entries, l, true),
        Key::Backspace => !(n.tab == 1 && n.editing && n.field_idx >= 5),
        Key::Char(c) => char_defined(n, db, entries, l, c),
        _ => true,
    }
}

/// Whether the key machine defines a step for `key` from `n`: false exactly
/// where a move would overflow an index.
pub fn key_step_defined(n: Nav, db: &VendorDb, entries: &Vec<TopoEntry>, l: Lens, key: Key, ctrl: bool) -> (r:
    bool)
    ensures
        r == key_step(n, ctx_from(*db, entries@, l), key, ctrl) is Some,
{
    reveal(key_step);
    match nav_intent(key, ctrl) {
        NavIntent::ModuleNext => n.tab < usize::MAX,
        NavIntent::ModulePrev => n.tab <= usize::MAX - TAB_COUNT,
        NavIntent::Local => local_defined(n, db, entries, l, key),
    }
}

/// One step of the key machine on the navigable state.
pub fn key_step_exec(n: Nav, db: &VendorDb, entries: &Vec<TopoEntry>, l: Lens, key: Key, ctrl: bool) -> (r: (
    Nav,
    KeyAction,
))
    requires
        key_step(n, ctx_from(*db, entries@, l), key, ctrl) is Some,
    ensures
        key_step(n, ctx_from(*db, entries@, l), key, ctrl) == Some(r),
{
    reveal(key_step);
    match nav_intent(key, ctrl) {
        NavIntent::ModuleNext => {
            return (Nav { tab: (n.tab + 1) % TAB_COUNT, ..n }, KeyAction::Nothing);
        },
        NavIntent::ModulePrev => {
            return (Nav { tab: (n.tab + TAB_COUNT - 1) % TAB_COUNT, ..n }, KeyAction::Nothing);
        },
        NavIntent::Local => {},
    }
    match key {
        Key::F(1) => (Nav { show_help: !n.show_help, ..n }, KeyAction::Nothing),
        Key::F(2) => (n, KeyAction::ToggleIme),
        Key::Esc => (esc(n), KeyAction::Nothing),
        Key::Left => (horizontal(n, db, entries, l, false), KeyAction::Nothing),
        Key::Right => (horizontal(n, db, entries, l, true), KeyAction::Nothing),
        Key::Up => (vertical(n, db, entries, l, false), KeyAction::Nothing),
        Key::Down => (vertical(n, db, entries, l, true), KeyAction::Nothing),
        Key::Enter => enter(n, db, entries, l),
        Key::Char(c) => command(n, db, entries, l, c),
        _ => (n, KeyAction::Nothing),
    }
}

impl UiState {
    /// Edits the address field being edited.
    #[verifier::rlimit(60)]
    fn field_edit(&mut self, push: Option<char>)
        requires
            old(self).quick_set.field_idx < 5,
        ensures
            nav_of(*final(self)) == nav_of(*old(self)),
            frame(*old(self), *final(self)),
            texts_after(
                *old(self),
                *final(self),
                match push {
                    Some(c) => TextEdit::FieldPush(c),
                    None => TextEdit::FieldPop,
                },
            ),
    {
        let idx = self.quick_set.field_idx;
        if self.quick_set.editing_v6 {
            edit_field(&mut self.quick_set.ipv6_fields, idx, push);
        } else {
            edit_field(&mut self.quick_set.ipv4_fields, idx, push);
        }
    }

    /// Edits the terminal input.
    #[verifier::rlimit(60)]
    fn input_edit(&mut self, push: Option<char>)
        ensures
            nav_of(*final(self)) == nav_of(*old(self)),
            frame(*old(self), *final(self)),
            texts_after(
                *old(self),
                *final(self),
                match push {
                    Some(c) => TextEdit::InputPush(c),
                    None => TextEdit::InputPop,
                },
            ),
    {
        match push {
            Some(c) => push_char(&mut self.term.input, c),
            None => pop_char(&mut self.term.input),
        }
    }

    /// Applies the typing of a key to the edited field or the terminal input.
    fn apply_text(&mut self, n: Nav, key: Key, ctrl: bool)
        requires
            n.tab == old(self).tab,
            n.editing == old(self).quick_set.editing,
            n.editing_v6 == old(self).quick_set.editing_v6,
            n.field_idx == old(self).quick_set.field_idx,
            n.input_mode == old(self).term.input_mode,
            edits_field(text_edit(n, key, ctrl)) ==> n.field_idx < 5,
        ensures
            nav_of(*final(self)) == nav_of(*old(self)),
            frame(*old(self), *final(self)),
            texts_after(*old(self), *final(self), text_edit(n, key, ctrl)),
    {
        let local = match nav_intent(key, ctrl) {
            NavIntent::Local => true,
            _ => false,
        };
        if !local {
            return;
        }
        match key {
            Key::Backspace => {
                if n.tab == 1 && n.editing {
                    self.field_edit(None);
                } else if n.tab == 2 && n.input_mode {
                    self.input_edit(None);
                }
            },
            Key::Char(c) => {
                if is_typing_key(c) {
                    if n.tab == 1 && n.editing {
                        if is_field_char(c) {
                            self.field_edit(Some(c));
                        }
                    } else if n.tab == 2 && n.input_mode {
                        self.input_edit(Some(c));
                    }
                }
            },
            _ => {},
        }
    }

    /// Whether [`UiState::on_key`] may be called with this key: exactly when
    /// the key machine defines a step for it.
    pub fn key_defined(&self, key: Key, ctrl: bool) -> (r: bool)
        ensures
            r == key_step(nav_of(*self), ctx_of(*self), key, ctrl) is Some,
    {
        let n = self.nav();
        let l = Lens {
            diag_results: self.diag.results.len(),
            dns_results: self.dns.results.len(),
            ports: self.term.ports.len(),
        };
        assert(ctx_from(self.vendor_db, self.topo.entries@, l) == ctx_of(*self));
        key_step_defined(n, &self.vendor_db, &self.topo.entries, l, key, ctrl)
    }

    /// Handles one key press: switches modules, moves selections, types into
    /// the edited field or the terminal input, and returns the work left to
    /// the application.
    pub fn on_key(&mut self, key: Key, ctrl: bool) -> (r: KeyAction)
        requires
            key_step(nav_of(*old(self)), ctx_of(*old(self)), key, ctrl) is Some,
        ensures
            key_step(nav_of(*old(self)), ctx_of(*old(self)), key, ctrl) == Some(
                (nav_of(*final(self)), r),
            ),
            frame(*old(self), *final(self)),
            texts_after(*old(self), *final(self), text_edit(nav_of(*old(self)), key, ctrl)),
    {
        let n = self.nav();
        let l = Lens {
            diag_results: self.diag.results.len(),
            dns_results: self.dns.results.len(),
            ports: self.term.ports.len(),
        };
        assert(ctx_from(self.vendor_db, self.topo.entries@, l) == ctx_of(*self));
        proof {
            lemma_edit_index_in_range(n, ctx_of(*self), key, ctrl);
        }
        let (next, action) = key_step_exec(n, &self.vendor_db, &self.topo.entries, l, key, ctrl);
        self.apply_text(n, key, ctrl);
        self.set_nav(next);
        action
    }
}

/// A key that edits an address field comes with a field index in range
/// (otherwise the step is refused).
proof fn lemma_edit_index_in_range(n: Nav, x: NavCtx, key: Key, ctrl: bool)
    requires
        key_step(n, x, key, ctrl) is Some,
    ensures
        edits_field(text_edit(n, key, ctrl)) ==> n.field_idx < 5,
{
    reveal(key_step);
}

/// Switching to the next module and back returns to the module one started from.
pub proof fn lemma_module_round_trip(n: Nav, x: NavCtx)
    requires
        n.tab < TAB_COUNT,
    ensures
        key_step(n, x, Key::Tab, false) matches Some((m, a)) && a == KeyAction::Nothing
            && key_step(m, x, Key::BackTab, false) == Some((n, KeyAction::Nothing)),
{
    let m = Nav { tab: ((n.tab + 1) % (TAB_COUNT as int)) as usize, ..n };
    assert(nav_intent_of(Key::Tab, false) == NavIntent::ModuleNext);
    assert(nav_intent_of(Key::BackTab, false) == NavIntent::ModulePrev);
    assert(key_step(n, x, Key::Tab, false) == Some((m, KeyAction::Nothing))) by {
        reveal(key_step);
    }
    assert(((m.tab + TAB_COUNT - 1) % (TAB_COUNT as int)) as usize == n.tab);
    assert(Nav { tab: ((m.tab + TAB_COUNT - 1) % (TAB_COUNT as int)) as usize, ..m } == n);
    assert(key_step(m, x, Key::BackTab, false) == Some((n, KeyAction::Nothing))) by {
        reveal(key_step);
    }
}

/// Esc never asks the application for work, and a second Esc after closing
/// the help leaves the help closed.
pub proof fn lemma_esc_is_local(n: Nav, x: NavCtx, ctrl: bool)
    ensures
        key_step(n, x, Key::Esc, ctrl) matches Some((m, a)) && a == KeyAction::Nothing
            && !m.show_help,
{
    reveal(key_step);
}

} // verus!
