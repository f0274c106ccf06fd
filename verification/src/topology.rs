//! Topology data model: devices with their design parameters, links between
//! ports, neighbour queries, lookup and D2 diagram export.
use vstd::prelude::*;
use vstd::string::*;

use crate::seqs::{first_such, lemma_filter_take_step, lemma_first_hit, lemma_take_all};
use crate::text::str_eq;
use vstd::seq_lib::lemma_flatten_concat;

verus! {

broadcast use vstd::seq_lib::group_seq_properties;

/// Device vendor.
#[derive(Debug, Clone, Copy, PartialEq, Eq, Structural)]
pub enum Vendor {
    HuaweiVrp,
    H3cVrp,
    CiscoIos,
}

impl Vendor {
    /// Identifier used by the vendor template database.
    pub open spec fn id_text(self) -> Seq<char> {
        match self {
            Vendor::HuaweiVrp => "huawei_vrp"@,
            Vendor::H3cVrp => "h3c_vrp"@,
            Vendor::CiscoIos => "cisco_ios"@,
        }
    }

    /// Display name.
    pub open spec fn label_text(self) -> Seq<char> {
        match self {
            Vendor::HuaweiVrp => "华为"@,
            Vendor::H3cVrp => "H3C"@,
            Vendor::CiscoIos => "Cisco"@,
        }
    }

    pub fn id(&self) -> (r: &'static str)
        ensures
            r@ == self.id_text(),
    {
        match self {
            Vendor::HuaweiVrp => "huawei_vrp",
            Vendor::H3cVrp => "h3c_vrp",
            Vendor::CiscoIos => "cisco_ios",
        }
    }

    pub fn label(&self) -> (r: &'static str)
        ensures
            r@ == self.label_text(),
    {
        match self {
            Vendor::HuaweiVrp => "华为",
            Vendor::H3cVrp => "H3C",
            Vendor::CiscoIos => "Cisco",
        }
    }
}

/// Device role in the hierarchy.
#[derive(Debug, Clone, Copy, PartialEq, Eq, Structural)]
pub enum DeviceRole {
    Core,
    Dist,
    Access,
    Router,
    Firewall,
}

impl DeviceRole {
    /// Display name.
    pub open spec fn label_text(self) -> Seq<char> {
        match self {
            DeviceRole::Core => "核心"@,
            DeviceRole::Dist => "汇聚"@,
            DeviceRole::Access => "接入"@,
            DeviceRole::Router => "路由器"@,
            DeviceRole::Firewall => "防火墙"@,
        }
    }

    pub fn label(&self) -> (r: &'static str)
        ensures
            r@ == self.label_text(),
    {
        match self {
            DeviceRole::Core => "核心",
            DeviceRole::Dist => "汇聚",
            DeviceRole::Access => "接入",
            DeviceRole::Router => "路由器",
            DeviceRole::Firewall => "防火墙",
        }
    }
}

/// Login credentials of a device.
#[derive(Debug, Clone)]
pub struct Credentials {
    pub username: String,
    pub password: String,
    pub protocol: String,
}

/// The protocol assumed when none is given.
pub fn default_protocol() -> (r: String)
    ensures
        r@ == "ssh"@,
{
    String::from_str("ssh")
}

/// A VLAN.
#[derive(Debug, Clone)]
pub struct Vlan {
    pub id: u16,
    pub name: String,
    pub purpose: String,
}

/// A layer-3 interface; `subnet` is written `a.b.c.d/len`.
#[derive(Debug, Clone)]
pub struct L3Intf {
    pub name: String,
    pub subnet: String,
    pub vrrp: bool,
}

/// Port role.
#[derive(Debug, Clone, Copy, PartialEq, Eq, Structural)]
pub enum PortKind {
    Uplink,
    Downlink,
    Trunk,
    Access,
}

/// Port configuration.
#[derive(Debug, Clone)]
pub struct PortConf {
    pub name: String,
    pub kind: PortKind,
    pub access_vlan: Option<u16>,
}

/// Routing protocol.
#[derive(Debug, Clone, Copy, PartialEq, Eq, Structural)]
pub enum RoutingProtocol {
    Static,
    Ospf,
    /// No routing protocol configured.
    NoRouting,
}

impl Default for RoutingProtocol {
    fn default() -> (r: Self)
        ensures
            r == RoutingProtocol::NoRouting,
    {
        RoutingProtocol::NoRouting
    }
}

/// Per-device design parameters.
#[derive(Debug, Clone)]
pub struct DeviceConfig {
    pub hostname: String,
    pub vlans: Vec<Vlan>,
    pub trunk_vlans: Vec<u16>,
    pub access_vlan: Option<u16>,
    pub l3_intfs: Vec<L3Intf>,
    pub routing: RoutingProtocol,
    pub stp_enabled: bool,
    pub dhcp_server: bool,
    /// Link MTU, compared across links by the MTU check.
    pub mtu: Option<u16>,
}

/// The empty configuration: no hostname, VLANs or interfaces, no routing.
pub open spec fn is_empty_config(c: DeviceConfig) -> bool {
    &&& c.hostname@ == Seq::<char>::empty()
    &&& c.vlans@.len() == 0
    &&& c.trunk_vlans@.len() == 0
    &&& c.access_vlan is None
    &&& c.l3_intfs@.len() == 0
    &&& c.routing == RoutingProtocol::NoRouting
    &&& !c.stp_enabled
    &&& !c.dhcp_server
    &&& c.mtu is None
}

impl Default for DeviceConfig {
    fn default() -> (r: Self)
        ensures
            is_empty_config(r),
    {
        DeviceConfig {
            hostname: String::new(),
            vlans: Vec::new(),
            trunk_vlans: Vec::new(),
            access_vlan: None,
            l3_intfs: Vec::new(),
            routing: RoutingProtocol::NoRouting,
            stp_enabled: false,
            dhcp_server: false,
            mtu: None,
        }
    }
}

/// A device node.
#[derive(Debug, Clone)]
pub struct Device {
    pub id: String,
    pub name: String,
    pub vendor: Vendor,
    pub role: DeviceRole,
    pub mgmt_ip: String,
    pub creds: Option<Credentials>,
    pub config: DeviceConfig,
}

impl Default for Device {
    fn default() -> (r: Self)
        ensures
            r.id@ == Seq::<char>::empty(),
            r.name@ == Seq::<char>::empty(),
            r.vendor == Vendor::HuaweiVrp,
            r.role == DeviceRole::Core,
            r.mgmt_ip@ == Seq::<char>::empty(),
            r.creds is None,
            is_empty_config(r.config),
    {
        Device {
            id: String::new(),
            name: String::new(),
            vendor: Vendor::HuaweiVrp,
            role: DeviceRole::Core,
            mgmt_ip: String::new(),
            creds: None,
            config: DeviceConfig::default(),
        }
    }
}

/// A link between two devices, with the port (and optional address) used at each end.
#[derive(Debug, Clone)]
pub struct Link {
    pub from: String,
    pub to: String,
    pub from_port: String,
    pub to_port: String,
    pub from_ip: String,
    pub to_ip: String,
}

/// A topology: devices and the links between them.
#[derive(Debug, Clone)]
pub struct Topology {
    pub devices: Vec<Device>,
    pub links: Vec<Link>,
}

impl Vlan {
    /// A field-by-field copy.
    pub fn copied(&self) -> (r: Vlan)
        ensures
            r == *self,
    {
        Vlan { id: self.id, name: self.name.clone(), purpose: self.purpose.clone() }
    }
}

impl L3Intf {
    /// A field-by-field copy.
    pub fn copied(&self) -> (r: L3Intf)
        ensures
            r == *self,
    {
        L3Intf { name: self.name.clone(), subnet: self.subnet.clone(), vrrp: self.vrrp }
    }
}

impl Credentials {
    /// A field-by-field copy.
    pub fn copied(&self) -> (r: Credentials)
        ensures
            r == *self,
    {
        Credentials {
            username: self.username.clone(),
            password: self.password.clone(),
            protocol: self.protocol.clone(),
        }
    }
}

impl Link {
    /// A field-by-field copy.
    pub fn copied(&self) -> (r: Link)
        ensures
            r == *self,
    {
        Link {
            from: self.from.clone(),
            to: self.to.clone(),
            from_port: self.from_port.clone(),
            to_port: self.to_port.clone(),
            from_ip: self.from_ip.clone(),
            to_ip: self.to_ip.clone(),
        }
    }
}

/// Two configurations with the same parameters.
pub open spec fn same_config(a: DeviceConfig, b: DeviceConfig) -> bool {
    &&& a.hostname == b.hostname
    &&& a.vlans@ == b.vlans@
    &&& a.trunk_vlans@ == b.trunk_vlans@
    &&& a.access_vlan == b.access_vlan
    &&& a.l3_intfs@ == b.l3_intfs@
    &&& a.routing == b.routing
    &&& a.stp_enabled == b.stp_enabled
    &&& a.dhcp_server == b.dhcp_server
    &&& a.mtu == b.mtu
}

/// Two devices with the same fields and the same configuration.
pub open spec fn same_device(a: Device, b: Device) -> bool {
    &&& a.id == b.id
    &&& a.name == b.name
    &&& a.vendor == b.vendor
    &&& a.role == b.role
    &&& a.mgmt_ip == b.mgmt_ip
    &&& a.creds == b.creds
    &&& same_config(a.config, b.config)
}

/// Two topologies with the same devices, in order, and the same links.
pub open spec fn same_topology(a: Topology, b: Topology) -> bool {
    &&& a.devices@.len() == b.devices@.len()
    &&& forall|i: int| 0 <= i < a.devices@.len() ==> same_device(#[trigger] a.devices@[i], b.devices@[i])
    &&& a.links@ == b.links@
}

impl DeviceConfig {
    /// A copy with the same parameters.
    pub fn copied(&self) -> (r: DeviceConfig)
        ensures
            same_config(r, *self),
    {
        let mut vlans: Vec<Vlan> = Vec::new();
        let mut i: usize = 0;
        while i < self.vlans.len()
            invariant
                i <= self.vlans@.len(),
                vlans@ == self.vlans@.take(i as int),
            decreases self.vlans@.len() - i,
        {
            vlans.push(self.vlans[i].copied());
            assert(vlans@ =~= self.vlans@.take(i + 1));
            i = i + 1;
        }
        assert(vlans@ =~= self.vlans@);
        let mut trunk: Vec<u16> = Vec::new();
        let mut j: usize = 0;
        while j < self.trunk_vlans.len()
            invariant
                j <= self.trunk_vlans@.len(),
                trunk@ == self.trunk_vlans@.take(j as int),
            decreases self.trunk_vlans@.len() - j,
        {
            trunk.push(self.trunk_vlans[j]);
            assert(trunk@ =~= self.trunk_vlans@.take(j + 1));
            j = j + 1;
        }
        assert(trunk@ =~= self.trunk_vlans@);
        let mut l3: Vec<L3Intf> = Vec::new();
        let mut k: usize = 0;
        while k < self.l3_intfs.len()
            invariant
                k <= self.l3_intfs@.len(),
                l3@ == self.l3_intfs@.take(k as int),
            decreases self.l3_intfs@.len() - k,
        {
            l3.push(self.l3_intfs[k].copied());
            assert(l3@ =~= self.l3_intfs@.take(k + 1));
            k = k + 1;
        }
        assert(l3@ =~= self.l3_intfs@);
        DeviceConfig {
            hostname: self.hostname.clone(),
            vlans,
            trunk_vlans: trunk,
            access_vlan: self.access_vlan,
            l3_intfs: l3,
            routing: self.routing,
            stp_enabled: self.stp_enabled,
            dhcp_server: self.dhcp_server,
            mtu: self.mtu,
        }
    }
}

impl Device {
    /// A copy with the same fields and configuration.
    pub fn copied(&self) -> (r: Device)
        ensures
            same_device(r, *self),
    {
        let creds = match &self.creds {
            Some(c) => Some(c.copied()),
            None => None,
        };
        Device {
            id: self.id.clone(),
            name: self.name.clone(),
            vendor: self.vendor,
            role: self.role,
            mgmt_ip: self.mgmt_ip.clone(),
            creds,
            config: self.config.copied(),
        }
    }
}

impl Topology {
    /// A copy with the same devices and links.
    pub fn copied(&self) -> (r: Topology)
        ensures
            same_topology(r, *self),
    {
        let mut devices: Vec<Device> = Vec::new();
        let mut i: usize = 0;
        while i < self.devices.len()
            invariant
                i <= self.devices@.len(),
                devices@.len() == i,
                forall|k: int| 0 <= k < i ==> same_device(#[trigger] devices@[k], self.devices@[k]),
            decreases self.devices@.len() - i,
        {
            devices.push(self.devices[i].copied());
            i = i + 1;
        }
        let mut links: Vec<Link> = Vec::new();
        let mut j: usize = 0;
        while j < self.links.len()
            invariant
                j <= self.links@.len(),
                links@ == self.links@.take(j as int),
            decreases self.links@.len() - j,
        {
            links.push(self.links[j].copied());
            assert(links@ =~= self.links@.take(j + 1));
            j = j + 1;
        }
        assert(links@ =~= self.links@);
        Topology { devices, links }
    }
}

impl Default for Topology {
    fn default() -> (r: Self)
        ensures
            r.devices@.len() == 0,
            r.links@.len() == 0,
    {
        Topology { devices: Vec::new(), links: Vec::new() }
    }
}

/// Whether a device carries the given id.
pub open spec fn has_id(id: Seq<char>) -> spec_fn(Device) -> bool {
    |d: Device| d.id@ == id
}

/// The first device with the given id.
pub open spec fn find_device(devices: Seq<Device>, id: Seq<char>) -> Option<Device> {
    first_such(devices, has_id(id))
}

/// The far end of `l` seen from `id`, if `l` touches `id`.
pub open spec fn far_end(id: Seq<char>) -> spec_fn(Link) -> Option<Seq<char>> {
    |l: Link|
        if l.from@ == id {
            Some(l.to@)
        } else if l.to@ == id {
            Some(l.from@)
        } else {
            None
        }
}

/// Ids of the devices linked to `id`, one entry per link, in link order.
pub open spec fn neighbor_ids(links: Seq<Link>, id: Seq<char>) -> Seq<Seq<char>> {
    links.filter_map(far_end(id))
}

/// The views of a list of strings.
pub open spec fn views(v: Seq<String>) -> Seq<Seq<char>> {
    v.map_values(|s: String| s@)
}

/// Whether `s` equals the string slice `t`.
pub fn string_is(s: &String, t: &str) -> (r: bool)
    ensures
        r == (s@ == t@),
{
    str_eq(s.as_str(), t)
}

/// Shape used for a device in the D2 diagram.
pub open spec fn d2_shape(role: DeviceRole) -> Seq<char> {
    match role {
        DeviceRole::Router | DeviceRole::Firewall => "hexagon"@,
        _ => "rectangle"@,
    }
}

/// D2 block of one device.
pub open spec fn d2_node(d: Device) -> Seq<char> {
    d.id@ + ": "@ + d.name@ + " {\n  shape: "@ + d2_shape(d.role)
        + "\n  style.fill: \"#E8F4FD\"\n}\n"@
}

/// D2 line of one link.
pub open spec fn d2_edge(l: Link) -> Seq<char> {
    l.from@ + " -> "@ + l.to@ + "\n"@
}

/// Header of the D2 document.
pub open spec fn d2_header() -> Seq<char> {
    "# NMTs 拓扑（由 NMTs 生成）\n"@ + "direction: right\n\n"@
}

/// The whole D2 document of a topology.
pub open spec fn d2_text(t: Topology) -> Seq<char> {
    d2_header() + t.devices@.flat_map(|d: Device| d2_node(d)) + t.links@.flat_map(
        |l: Link| d2_edge(l),
    )
}

/// The image of element `i` appears in a flat map right after the images
/// of the elements before it.
proof fn lemma_flat_map_occurs<A>(s: Seq<A>, f: spec_fn(A) -> Seq<char>, i: int)
    requires
        0 <= i < s.len(),
    ensures
        crate::text::occurs_at(s.flat_map(f), f(s[i]), s.take(i).flat_map(f).len() as int),
{
    let a = s.take(i + 1);
    let b = s.skip(i + 1);
    assert(s =~= a + b);
    assert(s.map_values(f) =~= a.map_values(f) + b.map_values(f));
    lemma_flatten_concat(a.map_values(f), b.map_values(f));
    s.lemma_flat_map_take_append(f, i);
    assert(s.take(i + 1) =~= a);
    let k = s.take(i).flat_map(f).len() as int;
    let hay = s.flat_map(f);
    assert(hay =~= s.take(i).flat_map(f) + f(s[i]) + b.flat_map(f));
    assert(hay.subrange(k, k + f(s[i]).len()) =~= f(s[i]));
}

/// The D2 document declares every device and draws every link.
pub proof fn lemma_d2_mentions_all(t: Topology)
    ensures
        forall|i: int|
            0 <= i < t.devices@.len() ==> crate::text::contains(
                d2_text(t),
                #[trigger] d2_node(t.devices@[i]),
            ),
        forall|j: int|
            0 <= j < t.links@.len() ==> crate::text::contains(
                d2_text(t),
                #[trigger] d2_edge(t.links@[j]),
            ),
{
    let h = d2_header();
    let nf = |d: Device| d2_node(d);
    let ef = |l: Link| d2_edge(l);
    let dn = t.devices@.flat_map(nf);
    let ln = t.links@.flat_map(ef);
    let doc = d2_text(t);
    assert(doc == h + dn + ln);
    assert forall|i: int| 0 <= i < t.devices@.len() implies crate::text::contains(
        doc,
        #[trigger] d2_node(t.devices@[i]),
    ) by {
        lemma_flat_map_occurs(t.devices@, nf, i);
        let k = t.devices@.take(i).flat_map(nf).len() as int;
        let x = d2_node(t.devices@[i]);
        assert(dn.subrange(k, k + x.len()) == x);
        assert(doc.subrange(h.len() + k, h.len() + k + x.len()) =~= dn.subrange(k, k + x.len()));
        assert(crate::text::occurs_at(doc, x, h.len() + k));
    }
    assert forall|j: int| 0 <= j < t.links@.len() implies crate::text::contains(
        doc,
        #[trigger] d2_edge(t.links@[j]),
    ) by {
        lemma_flat_map_occurs(t.links@, ef, j);
        let k = t.links@.take(j).flat_map(ef).len() as int;
        let x = d2_edge(t.links@[j]);
        assert(ln.subrange(k, k + x.len()) == x);
        let off = h.len() + dn.len() + k;
        assert(doc.subrange(off, off + x.len()) =~= ln.subrange(k, k + x.len()));
        assert(crate::text::occurs_at(doc, x, off));
    }
}

impl Topology {
    /// The first device with id `id`.
    pub fn device(&self, id: &str) -> (r: Option<&Device>)
        ensures
            match r {
                Some(d) => find_device(self.devices@, id@) == Some(*d),
                None => find_device(self.devices@, id@) is None,
            },
    {
        let ghost p = has_id(id@);
        let mut i: usize = 0;
        while i < self.devices.len()
            invariant
                i <= self.devices@.len(),
                p == has_id(id@),
                self.devices@.take(i as int).filter(p).len() == 0,
            decreases self.devices@.len() - i,
        {
            proof {
                lemma_filter_take_step(self.devices@, p, i as int);
            }
            if string_is(&self.devices[i].id, id) {
                proof {
                    lemma_first_hit(self.devices@, p, i as int);
                }
                return Some(&self.devices[i]);
            }
            i = i + 1;
        }
        proof {
            lemma_take_all(self.devices@);
        }
        None
    }

    /// Ids of all devices linked to `id` (one per link).
    pub fn neighbors(&self, id: &str) -> (r: Vec<String>)
        ensures
            views(r@) == neighbor_ids(self.links@, id@),
    {
        let ghost f = far_end(id@);
        let mut out: Vec<String> = Vec::new();
        let mut i: usize = 0;
        while i < self.links.len()
            invariant
                i <= self.links@.len(),
                f == far_end(id@),
                views(out@) == self.links@.take(i as int).filter_map(f),
            decreases self.links@.len() - i,
        {
            let l = &self.links[i];
            proof {
                self.links@.lemma_filter_map_take_succ(f, i as int);
            }
            if string_is(&l.from, id) {
                out.push(l.to.clone());
            } else if string_is(&l.to, id) {
                out.push(l.from.clone());
            }
            assert(views(out@) =~= self.links@.take(i + 1).filter_map(f));
            i = i + 1;
        }
        proof {
            lemma_take_all(self.links@);
        }
        out
    }

    /// The topology as a D2 diagram document.
    pub fn export_d2(&self) -> (r: String)
        ensures
            r@ == d2_text(*self),
    {
        let mut out = String::new();
        out.append("# NMTs 拓扑（由 NMTs 生成）\n");
        out.append("direction: right\n\n");
        let ghost fd = |d: Device| d2_node(d);
        let ghost fl = |l: Link| d2_edge(l);
        let mut i: usize = 0;
        while i < self.devices.len()
            invariant
                i <= self.devices@.len(),
                fd == (|d: Device| d2_node(d)),
                out@ == d2_header() + self.devices@.take(i as int).flat_map(fd),
            decreases self.devices@.len() - i,
        {
            let d = &self.devices[i];
            let ghost before = out@;
            out.append(d.id.as_str());
            out.append(": ");
            out.append(d.name.as_str());
            out.append(" {\n  shape: ");
            match d.role {
                DeviceRole::Router | DeviceRole::Firewall => out.append("hexagon"),
                _ => out.append("rectangle"),
            }
            out.append("\n  style.fill: \"#E8F4FD\"\n}\n");
            proof {
                self.devices@.lemma_flat_map_take_append(fd, i as int);
                assert(out@ =~= before + d2_node(*d));
            }
            i = i + 1;
        }
        proof {
            lemma_take_all(self.devices@);
        }
        let mut j: usize = 0;
        while j < self.links.len()
            invariant
                j <= self.links@.len(),
                fl == (|l: Link| d2_edge(l)),
                out@ == d2_header() + self.devices@.flat_map(fd) + self.links@.take(j as int).flat_map(fl),
                fd == (|d: Device| d2_node(d)),
            decreases self.links@.len() - j,
        {
            let l = &self.links[j];
            let ghost before = out@;
            out.append(l.from.as_str());
            out.append(" -> ");
            out.append(l.to.as_str());
            out.append("\n");
            proof {
                self.links@.lemma_flat_map_take_append(fl, j as int);
                assert(out@ =~= before + d2_edge(*l));
            }
            j = j + 1;
        }
        proof {
            lemma_take_all(self.links@);
        }
        out
    }
}


/// A VLAN with the given fields.
pub open spec fn vlan_is(v: Vlan, id: u16, name: Seq<char>, purpose: Seq<char>) -> bool {
    v.id == id && v.name@ == name && v.purpose@ == purpose
}

/// A layer-3 interface with the given fields.
pub open spec fn l3_is(l: L3Intf, name: Seq<char>, subnet: Seq<char>, vrrp: bool) -> bool {
    l.name@ == name && l.subnet@ == subnet && l.vrrp == vrrp
}

/// A link with the given ends and ports and no addresses.
pub open spec fn link_is(l: Link, from: Seq<char>, to: Seq<char>, fp: Seq<char>, tp: Seq<char>) -> bool {
    &&& l.from@ == from
    &&& l.to@ == to
    &&& l.from_port@ == fp
    &&& l.to_port@ == tp
    &&& l.from_ip@ == Seq::<char>::empty()
    &&& l.to_ip@ == Seq::<char>::empty()
}

/// A device header (everything but the configuration and credentials).
pub open spec fn device_is(
    d: Device,
    id: Seq<char>,
    name: Seq<char>,
    vendor: Vendor,
    role: DeviceRole,
    mgmt_ip: Seq<char>,
) -> bool {
    d.id@ == id && d.name@ == name && d.vendor == vendor && d.role == role && d.mgmt_ip@ == mgmt_ip
}

/// A configuration with the given scalar settings and no DHCP server.
pub open spec fn config_is(
    c: DeviceConfig,
    hostname: Seq<char>,
    access_vlan: Option<u16>,
    routing: RoutingProtocol,
    stp: bool,
    mtu: Option<u16>,
) -> bool {
    &&& c.hostname@ == hostname
    &&& c.access_vlan == access_vlan
    &&& c.routing == routing
    &&& c.stp_enabled == stp
    &&& !c.dhcp_server
    &&& c.mtu == mtu
}

/// The built-in demonstration topology: a core and a distribution switch,
/// two access switches and an edge router.
pub open spec fn is_demo_topology(t: Topology) -> bool {
    let ds = t.devices@;
    let ls = t.links@;
    &&& ds.len() == 5
    &&& device_is(ds[0], "core"@, "核心交换机"@, Vendor::HuaweiVrp, DeviceRole::Core, "10.0.0.1"@)
    &&& ds[0].creds is None
    &&& config_is(ds[0].config, "CORE"@, None, RoutingProtocol::Static, true, Some(1500u16))
    &&& ds[0].config.vlans@.len() == 2
    &&& vlan_is(ds[0].config.vlans@[0], 10, "业务"@, "办公"@)
    &&& vlan_is(ds[0].config.vlans@[1], 20, "访客"@, "Guest"@)
    &&& ds[0].config.trunk_vlans@ =~= seq![10u16, 20u16]
    &&& ds[0].config.l3_intfs@.len() == 2
    &&& l3_is(ds[0].config.l3_intfs@[0], "Vlanif10"@, "192.168.10.0/24"@, true)
    &&& l3_is(ds[0].config.l3_intfs@[1], "Vlanif20"@, "192.168.20.0/24"@, true)
    &&& device_is(ds[1], "dist"@, "汇聚交换机"@, Vendor::HuaweiVrp, DeviceRole::Dist, "10.0.0.2"@)
    &&& ds[1].creds is None
    &&& config_is(ds[1].config, "DIST"@, None, RoutingProtocol::NoRouting, true, Some(1500u16))
    &&& ds[1].config.vlans@.len() == 0
    &&& ds[1].config.trunk_vlans@ =~= seq![10u16]
    &&& ds[1].config.l3_intfs@.len() == 1
    &&& l3_is(ds[1].config.l3_intfs@[0], "Vlanif10"@, "192.168.10.0/24"@, true)
    &&& device_is(ds[2], "acc1"@, "接入交换机1"@, Vendor::HuaweiVrp, DeviceRole::Access, "10.0.0.11"@)
    &&& ds[2].creds is None
    &&& config_is(ds[2].config, "ACC1"@, Some(10u16), RoutingProtocol::NoRouting, true, None)
    &&& ds[2].config.vlans@.len() == 0
    &&& ds[2].config.trunk_vlans@.len() == 0
    &&& ds[2].config.l3_intfs@.len() == 0
    &&& device_is(ds[3], "acc2"@, "接入交换机2"@, Vendor::CiscoIos, DeviceRole::Access, "10.0.0.12"@)
    &&& ds[3].creds is None
    &&& config_is(ds[3].config, "ACC2"@, Some(20u16), RoutingProtocol::NoRouting, false, None)
    &&& ds[3].config.vlans@.len() == 0
    &&& ds[3].config.trunk_vlans@.len() == 0
    &&& ds[3].config.l3_intfs@.len() == 0
    &&& device_is(ds[4], "r1"@, "出口路由器"@, Vendor::CiscoIos, DeviceRole::Router, "10.0.0.254"@)
    &&& ds[4].creds matches Some(c) && c.username@ == "admin"@ && c.password@ == Seq::<char>::empty()
        && c.protocol@ == "ssh"@
    &&& config_is(ds[4].config, "R1"@, None, RoutingProtocol::Static, false, None)
    &&& ds[4].config.vlans@.len() == 0
    &&& ds[4].config.trunk_vlans@.len() == 0
    &&& ds[4].config.l3_intfs@.len() == 1
    &&& l3_is(ds[4].config.l3_intfs@[0], "GigabitEthernet0/0"@, "203.0.113.0/30"@, false)
    &&& ls.len() == 4
    &&& link_is(ls[0], "core"@, "dist"@, "GE0/0/1"@, "GE0/0/1"@)
    &&& link_is(ls[1], "dist"@, "acc1"@, "GE0/0/2"@, "GE0/0/1"@)
    &&& link_is(ls[2], "dist"@, "acc2"@, "GE0/0/3"@, "Gi0/1"@)
    &&& link_is(ls[3], "core"@, "r1"@, "GE0/0/24"@, "Gi0/0"@)
}

fn mk_vlan(id: u16, name: &str, purpose: &str) -> (v: Vlan)
    ensures
        vlan_is(v, id, name@, purpose@),
{
    Vlan { id, name: String::from_str(name), purpose: String::from_str(purpose) }
}

fn mk_l3(name: &str, subnet: &str, vrrp: bool) -> (l: L3Intf)
    ensures
        l3_is(l, name@, subnet@, vrrp),
{
    L3Intf { name: String::from_str(name), subnet: String::from_str(subnet), vrrp }
}

fn mk_link(from: &str, to: &str, fp: &str, tp: &str) -> (l: Link)
    ensures
        link_is(l, from@, to@, fp@, tp@),
{
    Link {
        from: String::from_str(from),
        to: String::from_str(to),
        from_port: String::from_str(fp),
        to_port: String::from_str(tp),
        from_ip: String::new(),
        to_ip: String::new(),
    }
}

fn mk_config(
    hostname: &str,
    vlans: Vec<Vlan>,
    trunk_vlans: Vec<u16>,
    access_vlan: Option<u16>,
    l3_intfs: Vec<L3Intf>,
    routing: RoutingProtocol,
    stp: bool,
    mtu: Option<u16>,
) -> (c: DeviceConfig)
    ensures
        config_is(c, hostname@, access_vlan, routing, stp, mtu),
        c.vlans == vlans,
        c.trunk_vlans == trunk_vlans,
        c.l3_intfs == l3_intfs,
{
    DeviceConfig {
        hostname: String::from_str(hostname),
        vlans,
        trunk_vlans,
        access_vlan,
        l3_intfs,
        routing,
        stp_enabled: stp,
        dhcp_server: false,
        mtu,
    }
}

fn mk_device(
    id: &str,
    name: &str,
    vendor: Vendor,
    role: DeviceRole,
    mgmt_ip: &str,
    creds: Option<Credentials>,
    config: DeviceConfig,
) -> (d: Device)
    ensures
        device_is(d, id@, name@, vendor, role, mgmt_ip@),
        d.creds == creds,
        d.config == config,
{
    Device {
        id: String::from_str(id),
        name: String::from_str(name),
        vendor,
        role,
        mgmt_ip: String::from_str(mgmt_ip),
        creds,
        config,
    }
}

/// The built-in demonstration topology.
pub fn demo_topology() -> (t: Topology)
    ensures
        is_demo_topology(t),
{
    let core = mk_device(
        "core",
        "核心交换机",
        Vendor::HuaweiVrp,
        DeviceRole::Core,
        "10.0.0.1",
        None,
        mk_config(
            "CORE",
            vec![mk_vlan(10, "业务", "办公"), mk_vlan(20, "访客", "Guest")],
            vec![10, 20],
            None,
            vec![mk_l3("Vlanif10", "192.168.10.0/24", true), mk_l3("Vlanif20", "192.168.20.0/24", true)],
            RoutingProtocol::Static,
            true,
            Some(1500),
        ),
    );
    let dist = mk_device(
        "dist",
        "汇聚交换机",
        Vendor::HuaweiVrp,
        DeviceRole::Dist,
        "10.0.0.2",
        None,
        mk_config(
            "DIST",
            Vec::new(),
            vec![10],
            None,
            vec![mk_l3("Vlanif10", "192.168.10.0/24", true)],
            RoutingProtocol::NoRouting,
            true,
            Some(1500),
        ),
    );
    let acc1 = mk_device(
        "acc1",
        "接入交换机1",
        Vendor::HuaweiVrp,
        DeviceRole::Access,
        "10.0.0.11",
        None,
        mk_config("ACC1", Vec::new(), Vec::new(), Some(10), Vec::new(), RoutingProtocol::NoRouting, true, None),
    );
    let acc2 = mk_device(
        "acc2",
        "接入交换机2",
        Vendor::CiscoIos,
        DeviceRole::Access,
        "10.0.0.12",
        None,
        mk_config("ACC2", Vec::new(), Vec::new(), Some(20), Vec::new(), RoutingProtocol::NoRouting, false, None),
    );
    let creds = Credentials {
        username: String::from_str("admin"),
        password: String::new(),
        protocol: String::from_str("ssh"),
    };
    let router = mk_device(
        "r1",
        "出口路由器",
        Vendor::CiscoIos,
        DeviceRole::Router,
        "10.0.0.254",
        Some(creds),
        mk_config(
            "R1",
            Vec::new(),
            Vec::new(),
            None,
            vec![mk_l3("GigabitEthernet0/0", "203.0.113.0/30", false)],
            RoutingProtocol::Static,
            false,
            None,
        ),
    );
    let links = vec![
        mk_link("core", "dist", "GE0/0/1", "GE0/0/1"),
        mk_link("dist", "acc1", "GE0/0/2", "GE0/0/1"),
        mk_link("dist", "acc2", "GE0/0/3", "Gi0/1"),
        mk_link("core", "r1", "GE0/0/24", "Gi0/0"),
    ];
    Topology { devices: vec![core, dist, acc1, acc2, router], links }
}

/// Adjacency is mutual: `b` is listed among the neighbours of `a` exactly when
/// `a` is listed among the neighbours of `b`.
pub proof fn lemma_neighbors_mutual(links: Seq<Link>, a: Seq<char>, b: Seq<char>)
    ensures
        neighbor_ids(links, a).contains(b) <==> neighbor_ids(links, b).contains(a),
{
    if neighbor_ids(links, a).contains(b) {
        links.lemma_filter_map_contains(far_end(a), b);
        let l = choose|l: Link| #[trigger] links.contains(l) && far_end(a)(l) == Some(b);
        assert(far_end(b)(l) == Some(a));
        crate::seqs::lemma_filter_map_has(links, far_end(b), l, a);
    }
    if neighbor_ids(links, b).contains(a) {
        links.lemma_filter_map_contains(far_end(b), a);
        let l = choose|l: Link| #[trigger] links.contains(l) && far_end(b)(l) == Some(a);
        assert(far_end(a)(l) == Some(b));
        crate::seqs::lemma_filter_map_has(links, far_end(a), l, b);
    }
}

} // verus!
