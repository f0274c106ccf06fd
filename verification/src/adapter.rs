//! Network adapters: which are virtual, which are up, how each is labelled,
//! and which one carries the default route.
use vstd::prelude::*;
use vstd::string::*;

use crate::seqs::{collect_somes, first_such, lemma_filter_take_step, lemma_first_hit, lemma_take_all, somes};
use crate::text::{contains, eq_ignore_ascii_case, lowercase, str_contains, str_eq_ignore_ascii_case, to_lower};

verus! {

broadcast use vstd::seq_lib::group_seq_properties;

/// A network adapter as the system reports it.
#[derive(Debug, Clone)]
pub struct Adapter {
    pub interface_index: u32,
    pub name: String,
    pub description: String,
    pub interface_type: String,
    pub status: String,
    pub hardware_interface: bool,
}

impl Default for Adapter {
    fn default() -> (r: Adapter)
        ensures
            r.interface_index == 0,
            r.name@.len() == 0,
            r.description@.len() == 0,
            r.interface_type@.len() == 0,
            r.status@.len() == 0,
            !r.hardware_interface,
    {
        Adapter {
            interface_index: 0,
            name: String::new(),
            description: String::new(),
            interface_type: String::new(),
            status: String::new(),
            hardware_interface: false,
        }
    }
}

/// Words whose presence in an adapter's name or description marks it virtual.
pub open spec fn virtual_keywords() -> Seq<Seq<char>> {
    seq![
        "virtual"@,
        "vpn"@,
        "hyper-v"@,
        "vethernet"@,
        "vmware"@,
        "virtualbox"@,
        "wsl"@,
        "tailscale"@,
        "zerotier"@,
        "loopback"@,
        "tap"@,
        "tun"@,
        "docker"@,
        "容器"@,
        "虚拟"@,
        "隧道"@,
        "环回"@,
    ]
}

fn keyword_list() -> (r: Vec<&'static str>)
    ensures
        r@.map_values(|k: &str| k@) == virtual_keywords(),
{
    let r = vec![
        "virtual",
        "vpn",
        "hyper-v",
        "vethernet",
        "vmware",
        "virtualbox",
        "wsl",
        "tailscale",
        "zerotier",
        "loopback",
        "tap",
        "tun",
        "docker",
        "容器",
        "虚拟",
        "隧道",
        "环回",
    ];
    assert(r@.map_values(|k: &str| k@) =~= virtual_keywords());
    r
}

/// The lowercased name and description, separated by a space.
pub open spec fn search_text(a: Adapter) -> Seq<char> {
    lowercase(a.name@) + " "@ + lowercase(a.description@)
}

/// Virtual: not a hardware interface, or a keyword in its name or description.
pub open spec fn is_virtual_adapter(a: Adapter) -> bool {
    !a.hardware_interface || exists|k: int|
        0 <= k < virtual_keywords().len() && contains(search_text(a), #[trigger] virtual_keywords()[k])
}

/// The type badge of an adapter.
pub open spec fn kind_label_text(a: Adapter) -> Seq<char> {
    if contains(search_text(a), "vpn"@) || contains(search_text(a), "隧道"@) {
        "VPN"@
    } else if is_virtual_adapter(a) {
        "虚拟"@
    } else {
        "物理"@
    }
}

impl Adapter {
    /// A field-by-field copy.
    pub fn copied(&self) -> (r: Adapter)
        ensures
            r == *self,
    {
        Adapter {
            interface_index: self.interface_index,
            name: self.name.clone(),
            description: self.description.clone(),
            interface_type: self.interface_type.clone(),
            status: self.status.clone(),
            hardware_interface: self.hardware_interface,
        }
    }

    fn search_string(&self) -> (r: String)
        ensures
            r@ == search_text(*self),
    {
        let mut s = to_lower(self.name.as_str());
        s.append(" ");
        let d = to_lower(self.description.as_str());
        s.append(d.as_str());
        s
    }

    fn has_keyword(hay: &String) -> (r: bool)
        ensures
            r == exists|k: int|
                0 <= k < virtual_keywords().len() && contains(hay@, #[trigger] virtual_keywords()[k]),
    {
        let ks = keyword_list();
        let mut i: usize = 0;
        while i < ks.len()
            invariant
                i <= ks@.len(),
                ks@.map_values(|k: &str| k@) == virtual_keywords(),
                forall|k: int| 0 <= k < i ==> !contains(hay@, #[trigger] virtual_keywords()[k]),
            decreases ks@.len() - i,
        {
            assert(virtual_keywords()[i as int] == ks@[i as int]@);
            if str_contains(hay.as_str(), ks[i]) {
                return true;
            }
            i = i + 1;
        }
        false
    }

    /// Whether the adapter counts as virtual (never the internet adapter).
    pub fn is_virtual(&self) -> (r: bool)
        ensures
            r == is_virtual_adapter(*self),
    {
        if !self.hardware_interface {
            return true;
        }
        let hay = self.search_string();
        Self::has_keyword(&hay)
    }

    /// Whether the adapter is up (status `up`, in any letter case).
    pub fn is_up(&self) -> (r: bool)
        ensures
            r == eq_ignore_ascii_case(self.status@, "up"@),
    {
        str_eq_ignore_ascii_case(self.status.as_str(), "up")
    }

    /// The type badge: `VPN`, `虚拟` (virtual) or `物理` (physical).
    pub fn kind_label(&self) -> (r: &'static str)
        ensures
            r@ == kind_label_text(*self),
    {
        let hay = self.search_string();
        if str_contains(hay.as_str(), "vpn") || str_contains(hay.as_str(), "隧道") {
            "VPN"
        } else if self.is_virtual() {
            "虚拟"
        } else {
            "物理"
        }
    }
}

/// Whether an adapter has the interface index.
pub open spec fn has_index(index: u32) -> spec_fn(Adapter) -> bool {
    |a: Adapter| a.interface_index == index
}

/// The internet adapter: the first adapter on the interface of the default
/// route, when a default route was found.
pub fn get_active_adapter(route_index: Option<u32>, adapters: &[Adapter]) -> (r: Option<Adapter>)
    ensures
        r == match route_index {
            Some(i) => first_such(adapters@, has_index(i)),
            None => None,
        },
{
    let index = match route_index {
        Some(i) => i,
        None => return None,
    };
    let ghost p = has_index(index);
    let mut i: usize = 0;
    while i < adapters.len()
        invariant
            i <= adapters@.len(),
            p == has_index(index),
            route_index == Some(index),
            adapters@.take(i as int).filter(p).len() == 0,
        decreases adapters@.len() - i,
    {
        proof {
            lemma_filter_take_step(adapters@, p, i as int);
        }
        if adapters[i].interface_index == index {
            proof {
                lemma_first_hit(adapters@, p, i as int);
            }
            return Some(adapters[i].copied());
        }
        i = i + 1;
    }
    proof {
        lemma_take_all(adapters@);
    }
    None
}

/// The shape of a listing reply: a list, a single object, or anything
/// else; each object as it was read (`None` when it did not fit).
pub enum Listed<A> {
    Many(Vec<Option<A>>),
    One(Option<A>),
    Neither,
}

/// The objects a listing reply holds that could be read, in order.
pub open spec fn listed_values<A>(reply: Listed<A>) -> Seq<A> {
    match reply {
        Listed::Many(v) => somes(v@),
        Listed::One(Some(a)) => seq![a],
        Listed::One(None) => Seq::empty(),
        Listed::Neither => Seq::empty(),
    }
}

/// The adapters of an adapter listing, whether it came as a list or as a
/// single object; entries that could not be read are skipped.
pub fn adapters_from(reply: Listed<Adapter>) -> (r: Vec<Adapter>)
    ensures
        r@ == listed_values(reply),
{
    match reply {
        Listed::Many(v) => collect_somes(v),
        Listed::One(Some(a)) => vec![a],
        Listed::One(None) => Vec::new(),
        Listed::Neither => Vec::new(),
    }
}

/// The adapter listing query.
pub const ADAPTER_LIST_SCRIPT: &'static str = "Get-NetAdapter -ErrorAction SilentlyContinue | Select-Object InterfaceIndex,Name,InterfaceDescription,@{N='InterfaceType';E={[string]$_.InterfaceType}},Status,HardwareInterface | ConvertTo-Json -Compress";

/// The destination prefixes whose best route marks the internet adapter,
/// tried in order: IPv4 first, then IPv6.
pub open spec fn default_prefixes() -> Seq<Seq<char>> {
    seq!["0.0.0.0/0"@, "::/0"@]
}

/// The default route prefixes, in the order they are tried.
pub fn default_route_prefixes() -> (r: Vec<&'static str>)
    ensures
        r@.map_values(|p: &str| p@) == default_prefixes(),
{
    let r = vec!["0.0.0.0/0", "::/0"];
    assert(r@.map_values(|p: &str| p@) =~= default_prefixes());
    r
}

/// The query for the best route to `prefix` (lowest route, then
/// interface, metric).
pub open spec fn route_script_text(prefix: Seq<char>) -> Seq<char> {
    "Get-NetRoute -DestinationPrefix '"@ + prefix
        + "' -ErrorAction SilentlyContinue | Sort-Object RouteMetric,InterfaceMetric | Select-Object -First 1 InterfaceIndex,InterfaceAlias,RouteMetric,InterfaceMetric,NextHop | ConvertTo-Json -Compress"@
}

/// The query for the best route to `prefix`.
pub fn route_script(prefix: &str) -> (r: String)
    ensures
        r@ == route_script_text(prefix@),
{
    let mut s = String::from_str("Get-NetRoute -DestinationPrefix '");
    s.append(prefix);
    s.append(
        "' -ErrorAction SilentlyContinue | Sort-Object RouteMetric,InterfaceMetric | Select-Object -First 1 InterfaceIndex,InterfaceAlias,RouteMetric,InterfaceMetric,NextHop | ConvertTo-Json -Compress",
    );
    s
}

} // verus!
