//! Design-time pre-checks: declarative intents evaluated against a topology,
//! producing findings. `Error` findings block configuration synthesis,
//! `Warn` findings flag risks.
use vstd::prelude::*;
use vstd::string::*;

use crate::graph::{graph_edges, graph_is_cyclic, graph_nodes, index_limit, topology_edges, undirected_cycle};
use crate::addr::{cidr_overlap, cidr_overlaps, parse_cidr, parse_cidr_str};
use crate::seqs::{lemma_filter_map_prefix_index, lemma_filter_map_split, lemma_take_all};
use crate::text::{decimal, push_decimal};
use crate::topology::{find_device, neighbor_ids, views, Device, DeviceRole, Link, RoutingProtocol, Topology};

verus! {

broadcast use vstd::seq_lib::group_seq_properties;

/// Severity of a finding.
#[derive(Debug, Clone, Copy, PartialEq, Eq, Structural)]
pub enum Severity {
    Error,
    Warn,
    Info,
}

impl Severity {
    /// Display name.
    pub open spec fn label_text(self) -> Seq<char> {
        match self {
            Severity::Error => "错误"@,
            Severity::Warn => "警告"@,
            Severity::Info => "信息"@,
        }
    }

    pub fn label(&self) -> (r: &'static str)
        ensures
            r@ == self.label_text(),
    {
        match self {
            Severity::Error => "错误",
            Severity::Warn => "警告",
            Severity::Info => "信息",
        }
    }
}

/// A declarative design constraint.
#[derive(Debug, Clone, Copy, PartialEq, Eq, Structural)]
pub enum Intent {
    /// No two layer-3 subnets overlap.
    UniqueSubnet,
    /// Management and service VLANs are kept apart.
    MgmtVlanSeparate,
    /// Devices of the role have two uplinks.
    RedundantUplink { role: DeviceRole },
    /// The VLAN reaches every device of the role that needs it.
    VlanPropagated { vlan: u16, to: DeviceRole },
    /// All layer-3 devices run the same routing protocol.
    RoutingConsistent,
    /// Redundant links are protected by STP.
    NoLoop,
    /// Both ends of a link use the same MTU.
    MtuMatch,
    /// Key devices have redundant links.
    NoSinglePointOfFailure,
}

impl Intent {
    /// Display name.
    pub open spec fn label_text(self) -> Seq<char> {
        match self {
            Intent::UniqueSubnet => "子网不重叠"@,
            Intent::MgmtVlanSeparate => "管理/业务 VLAN 分离"@,
            Intent::RedundantUplink { .. } => "冗余上联"@,
            Intent::VlanPropagated { vlan, to } => "VLAN "@ + decimal(vlan as nat) + " 传播到"@
                + to.label_text(),
            Intent::RoutingConsistent => "路由协议一致"@,
            Intent::NoLoop => "无二层环路"@,
            Intent::MtuMatch => "MTU 一致"@,
            Intent::NoSinglePointOfFailure => "无单点故障"@,
        }
    }

    pub fn label(&self) -> (r: String)
        ensures
            r@ == self.label_text(),
    {
        match self {
            Intent::UniqueSubnet => String::from_str("子网不重叠"),
            Intent::MgmtVlanSeparate => String::from_str("管理/业务 VLAN 分离"),
            Intent::RedundantUplink { .. } => String::from_str("冗余上联"),
            Intent::VlanPropagated { vlan, to } => {
                let mut s = String::from_str("VLAN ");
                push_decimal(&mut s, *vlan as u64);
                s.append(" 传播到");
                s.append(to.label());
                s
            },
            Intent::RoutingConsistent => String::from_str("路由协议一致"),
            Intent::NoLoop => String::from_str("无二层环路"),
            Intent::MtuMatch => String::from_str("MTU 一致"),
            Intent::NoSinglePointOfFailure => String::from_str("无单点故障"),
        }
    }
}

/// A problem found by a check.
#[derive(Debug, Clone)]
pub struct Finding {
    pub intent: String,
    pub severity: Severity,
    pub devices: Vec<String>,
    pub message: String,
    pub suggestion: String,
}

/// The content of a finding.
pub struct FindingView {
    pub intent: Seq<char>,
    pub severity: Severity,
    pub devices: Seq<Seq<char>>,
    pub message: Seq<char>,
    pub suggestion: Seq<char>,
}

impl View for Finding {
    type V = FindingView;

    open spec fn view(&self) -> FindingView {
        FindingView {
            intent: self.intent@,
            severity: self.severity,
            devices: views(self.devices@),
            message: self.message@,
            suggestion: self.suggestion@,
        }
    }
}

impl Finding {
    /// A copy with the same content.
    pub fn copied(&self) -> (r: Finding)
        ensures
            r@ == self@,
    {
        let mut devices: Vec<String> = Vec::new();
        let mut i: usize = 0;
        while i < self.devices.len()
            invariant
                i <= self.devices@.len(),
                views(devices@) == views(self.devices@).take(i as int),
            decreases self.devices@.len() - i,
        {
            let ghost before = views(devices@);
            devices.push(self.devices[i].clone());
            assert(views(devices@) =~= before.push(self.devices@[i as int]@));
            assert(views(self.devices@).take(i + 1) =~= views(self.devices@).take(i as int).push(
                self.devices@[i as int]@,
            ));
            i = i + 1;
        }
        assert(views(self.devices@).take(self.devices@.len() as int) =~= views(self.devices@));
        Finding {
            intent: self.intent.clone(),
            severity: self.severity,
            devices,
            message: self.message.clone(),
            suggestion: self.suggestion.clone(),
        }
    }
}

/// Whether some finding is an error; errors block configuration synthesis
/// and deployment.
pub open spec fn has_error(findings: Seq<Finding>) -> bool {
    exists|k: int| 0 <= k < findings.len() && #[trigger] findings[k].severity == Severity::Error
}

/// Whether some finding is an error.
pub fn any_error(findings: &Vec<Finding>) -> (r: bool)
    ensures
        r == has_error(findings@),
{
    let mut i: usize = 0;
    while i < findings.len()
        invariant
            i <= findings@.len(),
            forall|k: int| 0 <= k < i ==> #[trigger] findings@[k].severity != Severity::Error,
        decreases findings@.len() - i,
    {
        if findings[i].severity == Severity::Error {
            return true;
        }
        i = i + 1;
    }
    false
}

/// Copies of a list of findings.
pub fn copy_findings(v: &Vec<Finding>) -> (r: Vec<Finding>)
    ensures
        finding_views(r@) == finding_views(v@),
{
    let mut r: Vec<Finding> = Vec::new();
    let mut i: usize = 0;
    while i < v.len()
        invariant
            i <= v@.len(),
            finding_views(r@) == finding_views(v@).take(i as int),
        decreases v@.len() - i,
    {
        let ghost before = finding_views(r@);
        let f = v[i].copied();
        r.push(f);
        assert(finding_views(r@) =~= before.push(v@[i as int]@));
        assert(finding_views(v@).take(i + 1) =~= finding_views(v@).take(i as int).push(v@[i as int]@));
        i = i + 1;
    }
    assert(finding_views(v@).take(v@.len() as int) =~= finding_views(v@));
    r
}

/// The contents of a list of findings.
pub open spec fn finding_views(v: Seq<Finding>) -> Seq<FindingView> {
    v.map_values(|f: Finding| f@)
}

// ---------------------------------------------------------------------------
// Specifications of the individual checks.

/// A parsed layer-3 subnet: (index of its device, network value, prefix length).
pub type SubnetEntry = (int, u32, u32);

/// The subnets of device `k` that parse as CIDR prefixes, in interface order.
pub open spec fn device_subnets(k: int, d: Device) -> Seq<SubnetEntry> {
    d.config.l3_intfs@.filter_map(
        |l: crate::topology::L3Intf|
            match parse_cidr(l.subnet@) {
                Some((n, p)) => Some((k, n, p)),
                None => None,
            },
    )
}

/// The subnets of the first `k` devices.
pub open spec fn subnets_upto(ds: Seq<Device>, k: int) -> Seq<SubnetEntry>
    decreases k,
{
    if k <= 0 {
        Seq::empty()
    } else {
        subnets_upto(ds, k - 1) + device_subnets(k - 1, ds[k - 1])
    }
}

/// All parsed layer-3 subnets of a topology, device by device.
pub open spec fn all_subnets(ds: Seq<Device>) -> Seq<SubnetEntry> {
    subnets_upto(ds, ds.len() as int)
}

/// The finding for two overlapping subnets.
pub open spec fn overlap_finding(ds: Seq<Device>, a: SubnetEntry, b: SubnetEntry) -> FindingView {
    let da = ds[a.0];
    let db = ds[b.0];
    FindingView {
        intent: "子网不重叠"@,
        severity: Severity::Error,
        devices: seq![da.id@, db.id@],
        message: da.name@ + " 与 "@ + db.name@ + " 的 L3 子网重叠（"@ + decimal(a.1 as nat) + "/"@
            + decimal(a.2 as nat) + " vs "@ + decimal(b.1 as nat) + "/"@ + decimal(b.2 as nat)
            + "）"@,
        suggestion: "调整网段，保证各三层子网互不重叠"@,
    }
}

/// The finding, if any, for subnet `a` against subnet `b`.
pub open spec fn overlap_with(ds: Seq<Device>, a: SubnetEntry) -> spec_fn(SubnetEntry) -> Option<FindingView> {
    |b: SubnetEntry|
        if cidr_overlaps(a.1, a.2, b.1, b.2) {
            Some(overlap_finding(ds, a, b))
        } else {
            None
        }
}

/// Findings of subnet `i` against every later subnet.
pub open spec fn overlap_row(ds: Seq<Device>, subs: Seq<SubnetEntry>, i: int) -> Seq<FindingView> {
    subs.skip(i + 1).filter_map(overlap_with(ds, subs[i]))
}

/// Findings of the first `i` subnets against their successors.
pub open spec fn overlap_rows_upto(ds: Seq<Device>, subs: Seq<SubnetEntry>, i: int) -> Seq<FindingView>
    decreases i,
{
    if i <= 0 {
        Seq::empty()
    } else {
        overlap_rows_upto(ds, subs, i - 1) + overlap_row(ds, subs, i - 1)
    }
}

/// `UniqueSubnet`: one error per pair of overlapping subnets (earlier first).
pub open spec fn unique_subnet_findings(t: Topology) -> Seq<FindingView> {
    let subs = all_subnets(t.devices@);
    overlap_rows_upto(t.devices@, subs, subs.len() as int)
}

/// `MgmtVlanSeparate`: a note for each device with both an access VLAN and a layer-3 interface.
pub open spec fn mgmt_vlan_finding(d: Device) -> Option<FindingView> {
    if d.config.l3_intfs@.len() > 0 && d.config.access_vlan is Some {
        Some(
            FindingView {
                intent: "管理/业务 VLAN 分离"@,
                severity: Severity::Info,
                devices: seq![d.id@],
                message: d.name@ + " 同时配置了业务 access VLAN 与三层接口，注意管理流量与业务流量分离"@,
                suggestion: "建议管理 VLAN 独立规划"@,
            },
        )
    } else {
        None
    }
}

pub open spec fn mgmt_vlan_findings(t: Topology) -> Seq<FindingView> {
    t.devices@.filter_map(|d: Device| mgmt_vlan_finding(d))
}

/// Whether a link from a `down` device to an `up` device is an uplink.
pub open spec fn is_uplink(down: DeviceRole, up: DeviceRole) -> bool {
    (down == DeviceRole::Access && up == DeviceRole::Dist) || (down == DeviceRole::Access && up
        == DeviceRole::Core) || (down == DeviceRole::Dist && up == DeviceRole::Core)
}

/// The devices reached from `d` over links, one per link, skipping unknown ids.
pub open spec fn neighbor_devices(t: Topology, d: Device) -> Seq<Device> {
    neighbor_ids(t.links@, d.id@).filter_map(|n: Seq<char>| find_device(t.devices@, n))
}

/// Number of uplinks of `d`.
pub open spec fn uplink_count(t: Topology, d: Device) -> nat {
    neighbor_devices(t, d).filter(|n: Device| is_uplink(d.role, n.role)).len()
}

pub open spec fn redundant_uplink_finding(t: Topology, role: DeviceRole, d: Device) -> Option<FindingView> {
    if d.role == role && uplink_count(t, d) < 2 {
        Some(
            FindingView {
                intent: "冗余上联"@,
                severity: Severity::Warn,
                devices: seq![d.id@],
                message: d.name@ + "（"@ + role.label_text() + "）仅 "@ + decimal(uplink_count(t, d))
                    + " 条上联，存在单点故障风险"@,
                suggestion: "增加第二条上联链路"@,
            },
        )
    } else {
        None
    }
}

/// `RedundantUplink`: a warning for each device of the role with fewer than two uplinks.
pub open spec fn redundant_uplink_findings(t: Topology, role: DeviceRole) -> Seq<FindingView> {
    t.devices@.filter_map(|d: Device| redundant_uplink_finding(t, role, d))
}

/// Whether a device uses the VLAN (access, declared, or trunk).
pub open spec fn needs_vlan(d: Device, vlan: u16) -> bool {
    d.config.access_vlan == Some(vlan) || (exists|i: int|
        0 <= i < d.config.vlans@.len() && #[trigger] d.config.vlans@[i].id == vlan)
        || d.config.trunk_vlans@.contains(vlan)
}

/// Whether some linked device lets the VLAN through its trunk.
pub open spec fn upstream_allows(t: Topology, d: Device, vlan: u16) -> bool {
    let ups = neighbor_devices(t, d);
    exists|k: int| 0 <= k < ups.len() && #[trigger] ups[k].config.trunk_vlans@.contains(vlan)
}

pub open spec fn vlan_finding(t: Topology, vlan: u16, to: DeviceRole, d: Device) -> Option<FindingView> {
    if d.role == to && needs_vlan(d, vlan) && !upstream_allows(t, d, vlan) {
        Some(
            FindingView {
                intent: "VLAN "@ + decimal(vlan as nat) + " 传播"@,
                severity: Severity::Error,
                devices: seq![d.id@],
                message: d.name@ + " 需要 VLAN "@ + decimal(vlan as nat) + "，但上联设备 trunk 未放行该 VLAN"@,
                suggestion: "在上联 trunk 接口放行 VLAN "@ + decimal(vlan as nat),
            },
        )
    } else {
        None
    }
}

/// `VlanPropagated`: an error for each device of the role that needs the VLAN
/// while no linked device trunks it.
pub open spec fn vlan_propagated_findings(t: Topology, vlan: u16, to: DeviceRole) -> Seq<FindingView> {
    t.devices@.filter_map(|d: Device| vlan_finding(t, vlan, to, d))
}

/// Whether a device has a layer-3 interface.
pub open spec fn has_l3(d: Device) -> bool {
    d.config.l3_intfs@.len() > 0
}

/// The layer-3 devices of a topology.
pub open spec fn l3_devices(t: Topology) -> Seq<Device> {
    t.devices@.filter(|d: Device| has_l3(d))
}

/// `RoutingConsistent`: one warning listing every layer-3 device when their
/// routing protocols differ.
pub open spec fn routing_findings(t: Topology) -> Seq<FindingView> {
    let ls = l3_devices(t);
    if ls.len() > 0 && exists|k: int| 0 <= k < ls.len() && #[trigger] ls[k].config.routing
        != ls[0].config.routing {
        seq![
            FindingView {
                intent: "路由协议一致"@,
                severity: Severity::Warn,
                devices: ls.map_values(|d: Device| d.id@),
                message: "三层设备路由协议不一致，可能导致路由不通"@,
                suggestion: "统一同域路由协议（静态 / OSPF）"@,
            },
        ]
    } else {
        Seq::empty()
    }
}

/// The MTU configured on the device with the given id, if any.
pub open spec fn mtu_of(t: Topology, id: Seq<char>) -> Option<u16> {
    match find_device(t.devices@, id) {
        Some(d) => d.config.mtu,
        None => None,
    }
}

pub open spec fn mtu_finding(t: Topology, l: crate::topology::Link) -> Option<FindingView> {
    match (mtu_of(t, l.from@), mtu_of(t, l.to@)) {
        (Some(a), Some(b)) => if a != b {
            Some(
                FindingView {
                    intent: "MTU 一致"@,
                    severity: Severity::Warn,
                    devices: seq![l.from@, l.to@],
                    message: "链路 "@ + l.from@ + "↔"@ + l.to@ + " MTU 不一致（"@ + decimal(a as nat)
                        + " vs "@ + decimal(b as nat) + "），大包可能分片/丢包"@,
                    suggestion: "统一链路两端 MTU"@,
                },
            )
        } else {
            None
        },
        _ => None,
    }
}

/// `MtuMatch`: a warning for each link whose two ends declare different MTUs.
pub open spec fn mtu_findings(t: Topology) -> Seq<FindingView> {
    t.links@.filter_map(|l: crate::topology::Link| mtu_finding(t, l))
}

/// Whether a role is critical enough that a single link is a single point of failure.
pub open spec fn is_critical_role(r: DeviceRole) -> bool {
    r == DeviceRole::Core || r == DeviceRole::Dist || r == DeviceRole::Router
}

pub open spec fn spof_finding(t: Topology, d: Device) -> Option<FindingView> {
    let deg = neighbor_ids(t.links@, d.id@).len();
    if deg <= 1 && is_critical_role(d.role) {
        Some(
            FindingView {
                intent: "无单点故障"@,
                severity: Severity::Warn,
                devices: seq![d.id@],
                message: d.name@ + " 仅 "@ + decimal(deg) + " 条链路，是关键单点"@,
                suggestion: "增加冗余链路 / 设备"@,
            },
        )
    } else {
        None
    }
}

/// `NoSinglePointOfFailure`: a warning for each core, distribution or router
/// device with at most one link.
pub open spec fn spof_findings(t: Topology) -> Seq<FindingView> {
    t.devices@.filter_map(|d: Device| spof_finding(t, d))
}

// ---------------------------------------------------------------------------
// Implementations.

fn push_finding(
    out: &mut Vec<Finding>,
    intent: String,
    severity: Severity,
    devices: Vec<String>,
    message: String,
    suggestion: String,
)
    ensures
        finding_views(final(out)@) == finding_views(old(out)@).push(
            FindingView {
                intent: intent@,
                severity,
                devices: views(devices@),
                message: message@,
                suggestion: suggestion@,
            },
        ),
{
    let f = Finding { intent, severity, devices, message, suggestion };
    let ghost fv = f@;
    out.push(f);
    assert(finding_views(out@) =~= finding_views(old(out)@).push(fv));
}

fn one_id(id: &String) -> (r: Vec<String>)
    ensures
        views(r@) == seq![id@],
{
    let r = vec![id.clone()];
    assert(views(r@) =~= seq![id@]);
    r
}

fn two_ids(a: &String, b: &String) -> (r: Vec<String>)
    ensures
        views(r@) == seq![a@, b@],
{
    let r = vec![a.clone(), b.clone()];
    assert(views(r@) =~= seq![a@, b@]);
    r
}

/// The parsed subnets of device `k`, appended to `subs`.
fn collect_device_subnets(k: usize, d: &Device, subs: &mut Vec<(usize, u32, u32)>)
    requires
        forall|j: int| 0 <= j < old(subs)@.len() ==> #[trigger] old(subs)@[j].2 <= 32,
    ensures
        entries(final(subs)@) == entries(old(subs)@) + device_subnets(k as int, *d),
        forall|j: int| 0 <= j < final(subs)@.len() ==> #[trigger] final(subs)@[j].2 <= 32,
        final(subs)@.len() >= old(subs)@.len(),
        forall|j: int| 0 <= j < old(subs)@.len() ==> #[trigger] final(subs)@[j] == old(subs)@[j],
        forall|j: int| old(subs)@.len() <= j < final(subs)@.len() ==> #[trigger] final(subs)@[j].0 == k,
{
    let ghost orig = subs@;
    let ghost f = |l: crate::topology::L3Intf|
        match parse_cidr(l.subnet@) {
            Some((n, p)) => Some((k as int, n, p)),
            None => None,
        };
    let ghost start = entries(subs@);
    let mut i: usize = 0;
    while i < d.config.l3_intfs.len()
        invariant
            i <= d.config.l3_intfs@.len(),
            f == (|l: crate::topology::L3Intf|
                match parse_cidr(l.subnet@) {
                    Some((n, p)) => Some((k as int, n, p)),
                    None => None,
                }),
            entries(subs@) == start + d.config.l3_intfs@.take(i as int).filter_map(f),
            forall|j: int| 0 <= j < subs@.len() ==> #[trigger] subs@[j].2 <= 32,
            subs@.len() >= orig.len(),
            forall|j: int| 0 <= j < orig.len() ==> #[trigger] subs@[j] == orig[j],
            forall|j: int| orig.len() <= j < subs@.len() ==> #[trigger] subs@[j].0 == k,
        decreases d.config.l3_intfs@.len() - i,
    {
        proof {
            d.config.l3_intfs@.lemma_filter_map_take_succ(f, i as int);
        }
        let l3 = &d.config.l3_intfs[i];
        let ghost before = entries(subs@);
        match parse_cidr_str(l3.subnet.as_str()) {
            Some((n, p)) => {
                subs.push((k, n, p));
                assert(entries(subs@) =~= before.push((k as int, n, p)));
            },
            None => {},
        }
        i = i + 1;
    }
    proof {
        lemma_take_all(d.config.l3_intfs@);
    }
}

/// The view of collected subnet entries.
pub open spec fn entries(v: Seq<(usize, u32, u32)>) -> Seq<SubnetEntry> {
    v.map_values(|e: (usize, u32, u32)| (e.0 as int, e.1, e.2))
}

/// Appends an error for every pair of layer-3 subnets that overlap.
pub fn check_unique_subnet(t: &Topology, out: &mut Vec<Finding>)
    ensures
        finding_views(final(out)@) == finding_views(old(out)@) + unique_subnet_findings(*t),
{
    let ghost ds = t.devices@;
    let mut subs: Vec<(usize, u32, u32)> = Vec::new();
    let mut k: usize = 0;
    while k < t.devices.len()
        invariant
            k <= ds.len(),
            ds == t.devices@,
            entries(subs@) == subnets_upto(ds, k as int),
            forall|j: int| 0 <= j < subs@.len() ==> #[trigger] subs@[j].2 <= 32,
            forall|j: int| 0 <= j < subs@.len() ==> #[trigger] subs@[j].0 < k,
        decreases ds.len() - k,
    {
        let ghost before = subs@;
        collect_device_subnets(k, &t.devices[k], &mut subs);
        proof {
            assert forall|j: int| 0 <= j < subs@.len() implies #[trigger] subs@[j].0 < k + 1 by {
                if j < before.len() {
                    assert(subs@[j] == before[j]);
                }
            }
        }
        k = k + 1;
    }
    let ghost subsv = entries(subs@);
    assert(subsv == all_subnets(ds));
    let ghost start = finding_views(out@);
    let mut i: usize = 0;
    while i < subs.len()
        invariant
            i <= subs@.len(),
            ds == t.devices@,
            subsv == entries(subs@),
            forall|j: int| 0 <= j < subs@.len() ==> #[trigger] subs@[j].2 <= 32,
            forall|j: int| 0 <= j < subs@.len() ==> #[trigger] subs@[j].0 < ds.len(),
            finding_views(out@) == start + overlap_rows_upto(ds, subsv, i as int),
        decreases subs@.len() - i,
    {
        let (ka, na, pa) = subs[i];
        let ghost a = subsv[i as int];
        let ghost row = subsv.skip(i + 1);
        let ghost g = overlap_with(ds, a);
        let ghost row_start = finding_views(out@);
        let mut j: usize = i + 1;
        while j < subs.len()
            invariant
                i < j <= subs@.len(),
                ds == t.devices@,
                subsv == entries(subs@),
                a == subsv[i as int],
                a == (ka as int, na, pa),
                pa <= 32,
                ka < ds.len(),
                row == subsv.skip(i + 1),
                g == overlap_with(ds, a),
                forall|q: int| 0 <= q < subs@.len() ==> #[trigger] subs@[q].2 <= 32,
                forall|q: int| 0 <= q < subs@.len() ==> #[trigger] subs@[q].0 < ds.len(),
                finding_views(out@) == row_start + row.take(j - i - 1).filter_map(g),
            decreases subs@.len() - j,
        {
            let (kb, nb, pb) = subs[j];
            proof {
                row.lemma_filter_map_take_succ(g, j - i - 1);
                assert(row[j - i - 1] == subsv[j as int]);
            }
            if cidr_overlap(na, pa, nb, pb) {
                let da = &t.devices[ka];
                let db = &t.devices[kb];
                let mut msg = da.name.clone();
                msg.append(" 与 ");
                msg.append(db.name.as_str());
                msg.append(" 的 L3 子网重叠（");
                push_decimal(&mut msg, na as u64);
                msg.append("/");
                push_decimal(&mut msg, pa as u64);
                msg.append(" vs ");
                push_decimal(&mut msg, nb as u64);
                msg.append("/");
                push_decimal(&mut msg, pb as u64);
                msg.append("）");
                let ghost b = subsv[j as int];
                assert(msg@ =~= overlap_finding(ds, a, b).message);
                push_finding(
                    out,
                    String::from_str("子网不重叠"),
                    Severity::Error,
                    two_ids(&da.id, &db.id),
                    msg,
                    String::from_str("调整网段，保证各三层子网互不重叠"),
                );
            }
            assert(finding_views(out@) =~= row_start + row.take(j - i).filter_map(g));
            j = j + 1;
        }
        proof {
            lemma_take_all(row);
            assert(row.take(subs@.len() - i - 1) =~= row);
        }
        i = i + 1;
    }
}


/// Appends a note for every layer-3 device that also carries a business
/// access VLAN.
pub fn check_mgmt_vlan(t: &Topology, out: &mut Vec<Finding>)
    ensures
        finding_views(final(out)@) == finding_views(old(out)@) + mgmt_vlan_findings(*t),
{
    let ghost f = |d: Device| mgmt_vlan_finding(d);
    let ghost start = finding_views(out@);
    let mut i: usize = 0;
    while i < t.devices.len()
        invariant
            i <= t.devices@.len(),
            f == (|d: Device| mgmt_vlan_finding(d)),
            finding_views(out@) == start + t.devices@.take(i as int).filter_map(f),
        decreases t.devices@.len() - i,
    {
        proof {
            t.devices@.lemma_filter_map_take_succ(f, i as int);
        }
        let d = &t.devices[i];
        let has_l3 = d.config.l3_intfs.len() > 0;
        let has_access = d.config.access_vlan.is_some();
        if has_l3 && has_access {
            let mut msg = d.name.clone();
            msg.append(" 同时配置了业务 access VLAN 与三层接口，注意管理流量与业务流量分离");
            push_finding(
                out,
                String::from_str("管理/业务 VLAN 分离"),
                Severity::Info,
                one_id(&d.id),
                msg,
                String::from_str("建议管理 VLAN 独立规划"),
            );
        }
        assert(finding_views(out@) =~= start + t.devices@.take(i + 1).filter_map(f));
        i = i + 1;
    }
    proof {
        lemma_take_all(t.devices@);
    }
}

/// Whether a link from a `down` device to an `up` device counts as an uplink
/// (access to distribution or core, distribution to core).
pub fn is_uplink_role(down: DeviceRole, up: DeviceRole) -> (r: bool)
    ensures
        r == is_uplink(down, up),
{
    match (down, up) {
        (DeviceRole::Access, DeviceRole::Dist) | (DeviceRole::Access, DeviceRole::Core) | (
            DeviceRole::Dist,
            DeviceRole::Core,
        ) => true,
        _ => false,
    }
}

/// Number of uplinks of `d`.
fn count_uplinks(t: &Topology, d: &Device) -> (r: u64)
    ensures
        r as nat == uplink_count(*t, *d),
{
    let ns = t.neighbors(d.id.as_str());
    let ghost nv = views(ns@);
    let ghost f = |n: Seq<char>| find_device(t.devices@, n);
    let ghost p = |n: Device| is_uplink(d.role, n.role);
    let mut count: u64 = 0;
    let mut k: usize = 0;
    while k < ns.len()
        invariant
            k <= ns@.len(),
            nv == views(ns@),
            nv == neighbor_ids(t.links@, d.id@),
            f == (|n: Seq<char>| find_device(t.devices@, n)),
            p == (|n: Device| is_uplink(d.role, n.role)),
            count <= k,
            count as nat == nv.take(k as int).filter_map(f).filter(p).len(),
        decreases ns@.len() - k,
    {
        proof {
            nv.lemma_filter_map_take_succ(f, k as int);
        }
        let ghost prev = nv.take(k as int).filter_map(f);
        match t.device(ns[k].as_str()) {
            Some(n) => {
                proof {
                    assert(nv.take(k + 1).filter_map(f) =~= prev.push(*n));
                    prev.lemma_filter_push(*n, p);
                }
                if is_uplink_role(d.role, n.role) {
                    count = count + 1;
                }
            },
            None => {
                assert(nv.take(k + 1).filter_map(f) =~= prev);
            },
        }
        k = k + 1;
    }
    proof {
        lemma_take_all(nv);
    }
    count
}

/// Appends a warning for every device of `role` with fewer than two uplinks.
pub fn check_redundant_uplink(t: &Topology, role: DeviceRole, out: &mut Vec<Finding>)
    ensures
        finding_views(final(out)@) == finding_views(old(out)@) + redundant_uplink_findings(*t, role),
{
    let ghost f = |d: Device| redundant_uplink_finding(*t, role, d);
    let ghost start = finding_views(out@);
    let mut i: usize = 0;
    while i < t.devices.len()
        invariant
            i <= t.devices@.len(),
            f == (|d: Device| redundant_uplink_finding(*t, role, d)),
            finding_views(out@) == start + t.devices@.take(i as int).filter_map(f),
        decreases t.devices@.len() - i,
    {
        proof {
            t.devices@.lemma_filter_map_take_succ(f, i as int);
        }
        let d = &t.devices[i];
        if d.role == role {
            let n = count_uplinks(t, d);
            if n < 2 {
                let mut msg = d.name.clone();
                msg.append("（");
                msg.append(role.label());
                msg.append("）仅 ");
                push_decimal(&mut msg, n);
                msg.append(" 条上联，存在单点故障风险");
                push_finding(
                    out,
                    String::from_str("冗余上联"),
                    Severity::Warn,
                    one_id(&d.id),
                    msg,
                    String::from_str("增加第二条上联链路"),
                );
            }
        }
        assert(finding_views(out@) =~= start + t.devices@.take(i + 1).filter_map(f));
        i = i + 1;
    }
    proof {
        lemma_take_all(t.devices@);
    }
}

/// Whether the list holds the VLAN id.
fn holds_vlan(v: &Vec<u16>, vlan: u16) -> (r: bool)
    ensures
        r == v@.contains(vlan),
{
    let mut i: usize = 0;
    while i < v.len()
        invariant
            i <= v@.len(),
            forall|k: int| 0 <= k < i ==> v@[k] != vlan,
        decreases v@.len() - i,
    {
        if v[i] == vlan {
            assert(v@[i as int] == vlan);
            return true;
        }
        i = i + 1;
    }
    false
}

fn device_needs_vlan(d: &Device, vlan: u16) -> (r: bool)
    ensures
        r == needs_vlan(*d, vlan),
{
    if d.config.access_vlan == Some(vlan) {
        return true;
    }
    let mut i: usize = 0;
    while i < d.config.vlans.len()
        invariant
            i <= d.config.vlans@.len(),
            forall|k: int| 0 <= k < i ==> #[trigger] d.config.vlans@[k].id != vlan,
        decreases d.config.vlans@.len() - i,
    {
        if d.config.vlans[i].id == vlan {
            return true;
        }
        i = i + 1;
    }
    holds_vlan(&d.config.trunk_vlans, vlan)
}

fn upstream_trunks(t: &Topology, d: &Device, vlan: u16) -> (r: bool)
    ensures
        r == upstream_allows(*t, *d, vlan),
{
    let ns = t.neighbors(d.id.as_str());
    let ghost nv = views(ns@);
    let ghost f = |n: Seq<char>| find_device(t.devices@, n);
    let ghost full = nv.filter_map(f);
    assert(full == neighbor_devices(*t, *d));
    let mut k: usize = 0;
    while k < ns.len()
        invariant
            k <= ns@.len(),
            nv == views(ns@),
            f == (|n: Seq<char>| find_device(t.devices@, n)),
            full == nv.filter_map(f),
            full == neighbor_devices(*t, *d),
            forall|m: int| 0 <= m < nv.take(k as int).filter_map(f).len()
                ==> !(#[trigger] nv.take(k as int).filter_map(f)[m]).config.trunk_vlans@.contains(vlan),
        decreases ns@.len() - k,
    {
        proof {
            nv.lemma_filter_map_take_succ(f, k as int);
        }
        let ghost prev = nv.take(k as int).filter_map(f);
        match t.device(ns[k].as_str()) {
            Some(n) => {
                assert(nv.take(k + 1).filter_map(f) =~= prev.push(*n));
                if holds_vlan(&n.config.trunk_vlans, vlan) {
                    proof {
                        let m = prev.len() as int;
                        lemma_filter_map_prefix_index(nv, f, k + 1, m);
                        assert(full[m] == *n);
                        assert(full[m].config.trunk_vlans@.contains(vlan));
                        assert(full == neighbor_devices(*t, *d));
                    }
                    return true;
                }
                assert forall|m: int| 0 <= m < nv.take(k + 1).filter_map(f).len()
                    implies !(#[trigger] nv.take(k + 1).filter_map(f)[m]).config.trunk_vlans@.contains(vlan) by {
                    if m < prev.len() {
                        assert(nv.take(k + 1).filter_map(f)[m] == prev[m]);
                    }
                }
            },
            None => {
                assert(nv.take(k + 1).filter_map(f) =~= prev);
            },
        }
        k = k + 1;
    }
    proof {
        lemma_take_all(nv);
    }
    false
}

/// Appends an error for every device of role `to` that needs `vlan` while
/// no neighbour trunk allows it.
pub fn check_vlan_propagated(t: &Topology, vlan: u16, to: DeviceRole, out: &mut Vec<Finding>)
    ensures
        finding_views(final(out)@) == finding_views(old(out)@) + vlan_propagated_findings(*t, vlan, to),
{
    let ghost f = |d: Device| vlan_finding(*t, vlan, to, d);
    let ghost start = finding_views(out@);
    let mut i: usize = 0;
    while i < t.devices.len()
        invariant
            i <= t.devices@.len(),
            f == (|d: Device| vlan_finding(*t, vlan, to, d)),
            finding_views(out@) == start + t.devices@.take(i as int).filter_map(f),
        decreases t.devices@.len() - i,
    {
        proof {
            t.devices@.lemma_filter_map_take_succ(f, i as int);
        }
        let d = &t.devices[i];
        if d.role == to && device_needs_vlan(d, vlan) && !upstream_trunks(t, d, vlan) {
            let mut intent = String::from_str("VLAN ");
            push_decimal(&mut intent, vlan as u64);
            intent.append(" 传播");
            let mut msg = d.name.clone();
            msg.append(" 需要 VLAN ");
            push_decimal(&mut msg, vlan as u64);
            msg.append("，但上联设备 trunk 未放行该 VLAN");
            let mut sug = String::from_str("在上联 trunk 接口放行 VLAN ");
            push_decimal(&mut sug, vlan as u64);
            push_finding(out, intent, Severity::Error, one_id(&d.id), msg, sug);
        }
        assert(finding_views(out@) =~= start + t.devices@.take(i + 1).filter_map(f));
        i = i + 1;
    }
    proof {
        lemma_take_all(t.devices@);
    }
}

/// Appends the findings on routing of the layer-3 devices.
pub fn check_routing(t: &Topology, out: &mut Vec<Finding>)
    ensures
        finding_views(final(out)@) == finding_views(old(out)@) + routing_findings(*t),
{
    let ghost p = |d: Device| has_l3(d);
    let mut protos: Vec<RoutingProtocol> = Vec::new();
    let mut ids: Vec<String> = Vec::new();
    let mut i: usize = 0;
    while i < t.devices.len()
        invariant
            i <= t.devices@.len(),
            p == (|d: Device| has_l3(d)),
            protos@ == t.devices@.take(i as int).filter(p).map_values(|d: Device| d.config.routing),
            views(ids@) == t.devices@.take(i as int).filter(p).map_values(|d: Device| d.id@),
        decreases t.devices@.len() - i,
    {
        proof {
            crate::seqs::lemma_filter_take_step(t.devices@, p, i as int);
        }
        let d = &t.devices[i];
        let ghost old_ids = ids@;
        if d.config.l3_intfs.len() > 0 {
            protos.push(d.config.routing);
            ids.push(d.id.clone());
            assert(views(ids@) =~= views(old_ids).push(d.id@));
        }
        assert(protos@ =~= t.devices@.take(i + 1).filter(p).map_values(|d: Device| d.config.routing));
        assert(views(ids@) =~= t.devices@.take(i + 1).filter(p).map_values(|d: Device| d.id@));
        i = i + 1;
    }
    proof {
        lemma_take_all(t.devices@);
    }
    let ghost ls = l3_devices(*t);
    assert(protos@.len() == ls.len());
    if protos.len() == 0 {
        return;
    }
    let first = protos[0];
    let mut k: usize = 0;
    let mut differs = false;
    while k < protos.len()
        invariant
            k <= protos@.len(),
            protos@.len() == ls.len(),
            first == ls[0].config.routing,
            forall|q: int| 0 <= q < protos@.len() ==> protos@[q] == #[trigger] ls[q].config.routing,
            differs == exists|q: int| 0 <= q < k && #[trigger] ls[q].config.routing != first,
        decreases protos@.len() - k,
    {
        assert(protos@[k as int] == ls[k as int].config.routing);
        if protos[k] != first {
            differs = true;
        }
        k = k + 1;
    }
    if differs {
        push_finding(
            out,
            String::from_str("路由协议一致"),
            Severity::Warn,
            ids,
            String::from_str("三层设备路由协议不一致，可能导致路由不通"),
            String::from_str("统一同域路由协议（静态 / OSPF）"),
        );
    }
}

fn device_mtu(t: &Topology, id: &String) -> (r: Option<u16>)
    ensures
        r == mtu_of(*t, id@),
{
    match t.device(id.as_str()) {
        Some(d) => d.config.mtu,
        None => None,
    }
}

/// Appends the findings on links whose two ends differ in MTU.
pub fn check_mtu(t: &Topology, out: &mut Vec<Finding>)
    ensures
        finding_views(final(out)@) == finding_views(old(out)@) + mtu_findings(*t),
{
    let ghost f = |l: Link| mtu_finding(*t, l);
    let ghost start = finding_views(out@);
    let mut i: usize = 0;
    while i < t.links.len()
        invariant
            i <= t.links@.len(),
            f == (|l: Link| mtu_finding(*t, l)),
            finding_views(out@) == start + t.links@.take(i as int).filter_map(f),
        decreases t.links@.len() - i,
    {
        proof {
            t.links@.lemma_filter_map_take_succ(f, i as int);
        }
        let l = &t.links[i];
        let a = device_mtu(t, &l.from);
        let b = device_mtu(t, &l.to);
        match (a, b) {
            (Some(a), Some(b)) => {
                if a != b {
                    let mut msg = String::from_str("链路 ");
                    msg.append(l.from.as_str());
                    msg.append("↔");
                    msg.append(l.to.as_str());
                    msg.append(" MTU 不一致（");
                    push_decimal(&mut msg, a as u64);
                    msg.append(" vs ");
                    push_decimal(&mut msg, b as u64);
                    msg.append("），大包可能分片/丢包");
                    push_finding(
                        out,
                        String::from_str("MTU 一致"),
                        Severity::Warn,
                        two_ids(&l.from, &l.to),
                        msg,
                        String::from_str("统一链路两端 MTU"),
                    );
                }
            },
            _ => {},
        }
        assert(finding_views(out@) =~= start + t.links@.take(i + 1).filter_map(f));
        i = i + 1;
    }
    proof {
        lemma_take_all(t.links@);
    }
}

/// Appends the findings on single points of failure.
pub fn check_spof(t: &Topology, out: &mut Vec<Finding>)
    ensures
        finding_views(final(out)@) == finding_views(old(out)@) + spof_findings(*t),
{
    let ghost f = |d: Device| spof_finding(*t, d);
    let ghost start = finding_views(out@);
    let mut i: usize = 0;
    while i < t.devices.len()
        invariant
            i <= t.devices@.len(),
            f == (|d: Device| spof_finding(*t, d)),
            finding_views(out@) == start + t.devices@.take(i as int).filter_map(f),
        decreases t.devices@.len() - i,
    {
        proof {
            t.devices@.lemma_filter_map_take_succ(f, i as int);
        }
        let d = &t.devices[i];
        let deg = t.neighbors(d.id.as_str()).len();
        let critical = match d.role {
            DeviceRole::Core | DeviceRole::Dist | DeviceRole::Router => true,
            _ => false,
        };
        if deg <= 1 && critical {
            let mut msg = d.name.clone();
            msg.append(" 仅 ");
            push_decimal(&mut msg, deg as u64);
            msg.append(" 条链路，是关键单点");
            push_finding(
                out,
                String::from_str("无单点故障"),
                Severity::Warn,
                one_id(&d.id),
                msg,
                String::from_str("增加冗余链路 / 设备"),
            );
        }
        assert(finding_views(out@) =~= start + t.devices@.take(i + 1).filter_map(f));
        i = i + 1;
    }
    proof {
        lemma_take_all(t.devices@);
    }
}


/// Whether a switch runs without STP.
pub open spec fn stp_risk(d: Device) -> bool {
    !d.config.stp_enabled && (d.role == DeviceRole::Core || d.role == DeviceRole::Dist || d.role
        == DeviceRole::Access)
}

/// `NoLoop`: when the topology graph has a cycle, one error listing the switches without STP (if any).
pub open spec fn loop_findings(t: Topology) -> Seq<FindingView> {
    let risky = t.devices@.filter(|d: Device| stp_risk(d));
    if undirected_cycle(t.devices@.len(), topology_edges(t)) && risky.len() > 0 {
        seq![
            FindingView {
                intent: "无二层环路"@,
                severity: Severity::Error,
                devices: risky.map_values(|d: Device| d.id@),
                message: "拓扑存在冗余环路，但以下设备未启用 STP，存在广播风暴风险"@,
                suggestion: "启用生成树协议（STP）"@,
            },
        ]
    } else {
        Seq::empty()
    }
}

/// Appends the finding on a layer-2 loop.
pub fn check_loop(t: &Topology, out: &mut Vec<Finding>)
    requires
        t.devices@.len() < index_limit(),
        t.links@.len() < index_limit(),
    ensures
        finding_views(final(out)@) == finding_views(old(out)@) + loop_findings(*t),
{
    let g = t.build_graph();
    if graph_is_cyclic(&g) {
        let ghost p = |d: Device| stp_risk(d);
        let mut ids: Vec<String> = Vec::new();
        let mut i: usize = 0;
        while i < t.devices.len()
            invariant
                i <= t.devices@.len(),
                p == (|d: Device| stp_risk(d)),
                views(ids@) == t.devices@.take(i as int).filter(p).map_values(|d: Device| d.id@),
            decreases t.devices@.len() - i,
        {
            proof {
                crate::seqs::lemma_filter_take_step(t.devices@, p, i as int);
            }
            let d = &t.devices[i];
            let risky = !d.config.stp_enabled && match d.role {
                DeviceRole::Core | DeviceRole::Dist | DeviceRole::Access => true,
                _ => false,
            };
            let ghost old_ids = ids@;
            if risky {
                ids.push(d.id.clone());
                assert(views(ids@) =~= views(old_ids).push(d.id@));
            }
            assert(views(ids@) =~= t.devices@.take(i + 1).filter(p).map_values(|d: Device| d.id@));
            i = i + 1;
        }
        proof {
            lemma_take_all(t.devices@);
        }
        if ids.len() > 0 {
            push_finding(
                out,
                String::from_str("无二层环路"),
                Severity::Error,
                ids,
                String::from_str("拓扑存在冗余环路，但以下设备未启用 STP，存在广播风暴风险"),
                String::from_str("启用生成树协议（STP）"),
            );
        }
    }
}

/// The findings of one intent.
pub open spec fn intent_findings(t: Topology, intent: Intent) -> Seq<FindingView> {
    match intent {
        Intent::UniqueSubnet => unique_subnet_findings(t),
        Intent::MgmtVlanSeparate => mgmt_vlan_findings(t),
        Intent::RedundantUplink { role } => redundant_uplink_findings(t, role),
        Intent::VlanPropagated { vlan, to } => vlan_propagated_findings(t, vlan, to),
        Intent::RoutingConsistent => routing_findings(t),
        Intent::NoLoop => loop_findings(t),
        Intent::MtuMatch => mtu_findings(t),
        Intent::NoSinglePointOfFailure => spof_findings(t),
    }
}

/// The findings of a list of intents, intent by intent.
pub open spec fn check_findings(t: Topology, intents: Seq<Intent>) -> Seq<FindingView> {
    intents.flat_map(|i: Intent| intent_findings(t, i))
}

/// Whether the topology is small enough for a graph with 32-bit indices.
pub open spec fn graph_fits(t: Topology) -> bool {
    t.devices@.len() < index_limit() && t.links@.len() < index_limit()
}

/// Whether the topology is small enough for the loop check's graph (node
/// and edge indices are 32-bit).
pub fn fits_graph(t: &Topology) -> (r: bool)
    ensures
        r == graph_fits(*t),
{
    t.devices.len() < 0xffff_ffff && t.links.len() < 0xffff_ffff
}

/// Evaluates each intent against the topology and returns the findings, intent by intent.
pub fn check(t: &Topology, intents: &[Intent]) -> (r: Vec<Finding>)
    requires
        intents@.contains(Intent::NoLoop) ==> graph_fits(*t),
    ensures
        finding_views(r@) == check_findings(*t, intents@),
{
    let ghost f = |i: Intent| intent_findings(*t, i);
    let mut findings: Vec<Finding> = Vec::new();
    let mut k: usize = 0;
    while k < intents.len()
        invariant
            k <= intents@.len(),
            f == (|i: Intent| intent_findings(*t, i)),
            intents@.contains(Intent::NoLoop) ==> graph_fits(*t),
            finding_views(findings@) == intents@.take(k as int).flat_map(f),
        decreases intents@.len() - k,
    {
        proof {
            intents@.lemma_flat_map_take_append(f, k as int);
        }
        match intents[k] {
            Intent::UniqueSubnet => check_unique_subnet(t, &mut findings),
            Intent::MgmtVlanSeparate => check_mgmt_vlan(t, &mut findings),
            Intent::RedundantUplink { role } => check_redundant_uplink(t, role, &mut findings),
            Intent::VlanPropagated { vlan, to } => check_vlan_propagated(t, vlan, to, &mut findings),
            Intent::RoutingConsistent => check_routing(t, &mut findings),
            Intent::NoLoop => {
                assert(intents@.contains(intents@[k as int]));
                check_loop(t, &mut findings)
            },
            Intent::MtuMatch => check_mtu(t, &mut findings),
            Intent::NoSinglePointOfFailure => check_spof(t, &mut findings),
        }
        k = k + 1;
    }
    proof {
        lemma_take_all(intents@);
    }
    findings
}

/// Checking against a list of intents one part after another gives the
/// findings of the first part followed by those of the second.
pub proof fn lemma_check_findings_concat(t: Topology, a: Seq<Intent>, b: Seq<Intent>)
    ensures
        check_findings(t, a + b) == check_findings(t, a) + check_findings(t, b),
    decreases b.len(),
{
    let f = |i: Intent| intent_findings(t, i);
    if b.len() == 0 {
        assert(a + b =~= a);
        assert(check_findings(t, a) + Seq::<FindingView>::empty() =~= check_findings(t, a));
    } else {
        let bl = b.drop_last();
        lemma_check_findings_concat(t, a, bl);
        assert((a + b).drop_last() =~= a + bl);
        assert((a + b).last() == b.last());
        (a + bl).lemma_flat_map_push(f, b.last());
        bl.lemma_flat_map_push(f, b.last());
        assert(a + bl.push(b.last()) =~= (a + bl).push(b.last()));
        assert(bl.push(b.last()) =~= b);
    }
}

/// Two distinct places of `s` that satisfy `p` make a filter of at least two.
proof fn lemma_filter_two<A>(s: Seq<A>, p: spec_fn(A) -> bool, i: int, j: int)
    requires
        0 <= i < j < s.len(),
        p(s[i]),
        p(s[j]),
    ensures
        s.filter(p).len() >= 2,
    decreases s.len(),
{
    let d = s.drop_last();
    assert(s =~= d.push(s.last()));
    d.lemma_filter_push(s.last(), p);
    if j == s.len() - 1 {
        d.lemma_filter_contains(p, i);
        assert(d[i] == s[i]);
        assert(d.filter(p).len() > 0);
    } else {
        lemma_filter_two(d, p, i, j);
    }
}

/// A link from an access switch to a distribution or core switch, and from a
/// distribution switch to a core switch, goes up the hierarchy: an access
/// switch linked to two distribution or core switches (a dual-homed one) has
/// two uplinks and draws no redundant-uplink finding; a distribution switch
/// linked to two core switches likewise.
pub proof fn lemma_dual_homed_not_flagged(t: Topology, role: DeviceRole, d: Device, i: int, j: int)
    requires
        0 <= i < j < neighbor_devices(t, d).len(),
        d.role == DeviceRole::Access ==> (neighbor_devices(t, d)[i].role == DeviceRole::Dist
            || neighbor_devices(t, d)[i].role == DeviceRole::Core) && (neighbor_devices(t, d)[j].role
            == DeviceRole::Dist || neighbor_devices(t, d)[j].role == DeviceRole::Core),
        d.role == DeviceRole::Dist ==> neighbor_devices(t, d)[i].role == DeviceRole::Core
            && neighbor_devices(t, d)[j].role == DeviceRole::Core,
        d.role == DeviceRole::Access || d.role == DeviceRole::Dist,
    ensures
        uplink_count(t, d) >= 2,
        redundant_uplink_finding(t, role, d) is None,
{
    let p = |n: Device| is_uplink(d.role, n.role);
    lemma_filter_two(neighbor_devices(t, d), p, i, j);
}

} // verus!
