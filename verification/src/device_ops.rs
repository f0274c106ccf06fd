//! Work on a connected device: sending a generated configuration line by
//! line, and archiving the configuration the device shows.
use vstd::prelude::*;
use vstd::string::*;

use crate::serial::PortInfo;
use crate::state::{lines_of, text_lines, ConnState, TermState};
use crate::text::{decimal, join, push_decimal, str_eq, trim, trim_str};
use crate::topology::views;
use crate::vendor_cli::VendorDb;

verus! {

broadcast use vstd::seq_lib::group_seq_properties;

/// The lines of a configuration that are sent to a device: those that are
/// not blank.
pub open spec fn sent_lines(cli: Seq<char>) -> Seq<Seq<char>> {
    text_lines(cli).filter(|l: Seq<char>| trim(l).len() > 0)
}

/// What sending the generated configuration needs.
pub enum DeployPlan {
    /// Refused, with this message.
    Refuse(String),
    /// Open `port` and write these lines.
    Send { port: String, lines: Vec<String> },
}

/// Plans sending the generated configuration `cli` over the first detected
/// serial port; `blocked` tells that the topology has an error finding,
/// which blocks deployment.
pub fn plan_deploy(cli: &Option<String>, ports: &[PortInfo], blocked: bool) -> (r: DeployPlan)
    ensures
        cli is None ==> (r matches DeployPlan::Refuse(m) && m@ == "请先按 Enter 生成 CLI"@),
        cli is Some && blocked ==> (r matches DeployPlan::Refuse(m) && m@
            == "✗ 预检存在错误级问题，已阻断下发"@),
        cli is Some && !blocked && ports@.len() == 0 ==> (r matches DeployPlan::Refuse(m) && m@
            == "未检测到串口，无法下发"@),
        cli is Some && !blocked && ports@.len() > 0 ==> (r matches DeployPlan::Send { port, lines }
            && port@ == ports@[0].name@ && views(lines@) == sent_lines(cli->0@)),
{
    match cli {
        None => DeployPlan::Refuse(String::from_str("请先按 Enter 生成 CLI")),
        Some(text) => {
            if blocked {
                return DeployPlan::Refuse(String::from_str("✗ 预检存在错误级问题，已阻断下发"));
            }
            if ports.len() == 0 {
                return DeployPlan::Refuse(String::from_str("未检测到串口，无法下发"));
            }
            let all = lines_of(text.as_str());
            let ghost keep = |l: Seq<char>| trim(l).len() > 0;
            let mut lines: Vec<String> = Vec::new();
            let mut i: usize = 0;
            assert(views(all@).take(0) =~= Seq::<Seq<char>>::empty());
            while i < all.len()
                invariant
                    i <= all@.len(),
                    keep == (|l: Seq<char>| trim(l).len() > 0),
                    views(lines@) == views(all@).take(i as int).filter(keep),
                decreases all@.len() - i,
            {
                let t = trim_str(all[i].as_str());
                let ghost before = views(lines@);
                proof {
                    assert(views(all@).take(i + 1) =~= views(all@).take(i as int).push(
                        all@[i as int]@,
                    ));
                    views(all@).take(i as int).lemma_filter_push(all@[i as int]@, keep);
                }
                if !t.as_str().is_empty() {
                    lines.push(all[i].clone());
                    assert(views(lines@) =~= before.push(all@[i as int]@));
                }
                i = i + 1;
            }
            assert(views(all@).take(i as int) =~= views(all@));
            DeployPlan::Send { port: ports[0].name.clone(), lines }
        },
    }
}

/// The status after sending: `sent` lines were written to `port`.
pub fn deploy_done(sent: usize, port: &str) -> (r: String)
    ensures
        r@ == "已下发 "@ + decimal(sent as nat) + " 行到 "@ + port@,
{
    let mut s = String::from_str("已下发 ");
    push_decimal(&mut s, sent as u64);
    s.append(" 行到 ");
    s.append(port);
    s
}

/// The status when the port could not be opened.
pub fn deploy_failed(port: &str, err: &str) -> (r: String)
    ensures
        r@ == "连接 "@ + port@ + " 失败: "@ + err@,
{
    let mut s = String::from_str("连接 ");
    s.append(port);
    s.append(" 失败: ");
    s.append(err);
    s
}

/// What archiving a device's configuration needs: the command that makes
/// the device show it, the vendor and device names the archive is filed
/// under, and the text to archive (the terminal output so far).
pub struct DeviceBackup {
    pub show_cmd: &'static str,
    pub vendor: String,
    pub device: String,
    pub config: String,
}

/// The vendor a configuration archive is filed under: the selected command
/// set's vendor, or `huawei_vrp`.
pub open spec fn archive_vendor(term: TermState, db: VendorDb) -> Seq<char> {
    if term.vendor_idx < db.templates().len() {
        db.templates()[term.vendor_idx as int].vendor@
    } else {
        "huawei_vrp"@
    }
}

/// The device a configuration archive is filed under: the selected port's
/// name, or `device`.
pub open spec fn archive_device(term: TermState) -> Seq<char> {
    if term.selected_port < term.ports@.len() {
        term.ports@[term.selected_port as int].name@
    } else {
        "device"@
    }
}

/// The command showing the running configuration: Cisco's for `cisco_ios`,
/// the VRP one otherwise.
pub open spec fn show_config_command(vendor: Seq<char>) -> Seq<char> {
    if vendor == "cisco_ios"@ {
        "show running-config"@
    } else {
        "display current-configuration"@
    }
}

/// The lines joined with newlines.
pub fn join_lines(v: &[String]) -> (r: String)
    ensures
        r@ == join(views(v@), "\n"@),
{
    let mut s = String::new();
    let mut i: usize = 0;
    assert(views(v@).take(0) =~= Seq::<Seq<char>>::empty());
    while i < v.len()
        invariant
            i <= v@.len(),
            s@ == join(views(v@).take(i as int), "\n"@),
        decreases v@.len() - i,
    {
        let ghost prev = views(v@).take(i as int);
        assert(views(v@).take(i + 1) =~= prev.push(v@[i as int]@));
        assert(views(v@).take(i + 1).drop_last() =~= prev);
        if i > 0 {
            s.append("\n");
        } else {
            assert(s@ =~= Seq::<char>::empty());
        }
        s.append(v[i].as_str());
        assert(s@ =~= join(views(v@).take(i + 1), "\n"@));
        i = i + 1;
    }
    assert(views(v@).take(i as int) =~= views(v@));
    s
}

/// Plans archiving the connected device's configuration; refused until a
/// device is connected.
pub fn plan_device_backup(term: &TermState, db: &VendorDb) -> (r: Result<DeviceBackup, String>)
    ensures
        term.conn != ConnState::Connected ==> (r matches Err(m) && m@
            == "✗ 请先在「网工工具」连接设备"@),
        term.conn == ConnState::Connected ==> (r matches Ok(b) && b.vendor@ == archive_vendor(
            *term,
            *db,
        ) && b.device@ == archive_device(*term) && b.show_cmd@ == show_config_command(
            archive_vendor(*term, *db),
        ) && b.config@ == join(views(term.output@), "\n"@)),
{
    if term.conn != ConnState::Connected {
        return Err(String::from_str("✗ 请先在「网工工具」连接设备"));
    }
    let vendors = db.vendors();
    let vendor = if term.vendor_idx < vendors.len() {
        vendors[term.vendor_idx].vendor.clone()
    } else {
        String::from_str("huawei_vrp")
    };
    let device = if term.selected_port < term.ports.len() {
        term.ports[term.selected_port].name.clone()
    } else {
        String::from_str("device")
    };
    let show_cmd = if str_eq(vendor.as_str(), "cisco_ios") {
        "show running-config"
    } else {
        "display current-configuration"
    };
    proof {
        reveal_strlit("show running-config");
        reveal_strlit("display current-configuration");
    }
    let config = join_lines(term.output.as_slice());
    Ok(DeviceBackup { show_cmd, vendor, device, config })
}

impl TermState {
    /// Takes the line typed by hand for sending: the input is cleared and
    /// input mode ends; a blank line is not sent.
    pub fn take_input(&mut self) -> (r: Option<String>)
        ensures
            final(self).input@.len() == 0,
            !final(self).input_mode,
            trim(old(self).input@).len() > 0 ==> r == Some(old(self).input),
            trim(old(self).input@).len() == 0 ==> r is None,
            final(self).conn == old(self).conn,
            final(self).status == old(self).status,
            final(self).output == old(self).output,
    {
        let line = self.input.clone();
        self.input = String::new();
        self.input_mode = false;
        let t = trim_str(line.as_str());
        if t.as_str().is_empty() {
            None
        } else {
            Some(line)
        }
    }

    /// The outcome of sending `line`: `None` when no session is open,
    /// otherwise what writing it gave. Returns whether the session must be
    /// dropped (a failed write disconnects).
    pub fn on_send(&mut self, line: &str, write: Option<Result<(), String>>) -> (drop: bool)
        ensures
            match write {
                None => !drop && final(self).conn == old(self).conn && (final(self).status matches Some(
                    m,
                ) && m@ == "未连接设备，请先按 Enter 扫描连接"@),
                Some(Ok(())) => !drop && final(self).conn == old(self).conn && (final(self).status matches Some(m) && m@ == "已发送: "@ + line@),
                Some(Err(e)) => drop && final(self).conn == ConnState::Disconnected && (final(self).status matches Some(m) && m@ == "发送失败: "@ + e@),
            },
            final(self).output == old(self).output,
            final(self).input == old(self).input,
    {
        match write {
            None => {
                self.status = Some(String::from_str("未连接设备，请先按 Enter 扫描连接"));
                false
            },
            Some(Ok(())) => {
                let mut m = String::from_str("已发送: ");
                m.append(line);
                self.status = Some(m);
                false
            },
            Some(Err(e)) => {
                let mut m = String::from_str("发送失败: ");
                m.append(e.as_str());
                self.status = Some(m);
                self.conn = ConnState::Disconnected;
                true
            },
        }
    }
}

} // verus!
