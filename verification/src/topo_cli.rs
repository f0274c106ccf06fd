//! Configuration synthesis: derives each device's CLI configuration
//! (hostname, VLANs, trunk and access ports, layer-3 interfaces, static
//! default route) from the topology, in the vendor's dialect.
use vstd::prelude::*;
use vstd::string::*;

use crate::addr::{prefix_mask, mask_of, split_once, split_once_chars};
use crate::seqs::{lemma_filter_take_step, lemma_take_all};
use crate::text::{
    chars_of, decimal, decimals, join, parse_u32, parse_u32_chars, push_decimal,
    push_joined_decimals, string_of, trim, trim_chars,
};
use crate::topology::{views, Device, L3Intf, Link, RoutingProtocol, Topology, Vendor, Vlan};

verus! {

broadcast use vstd::seq_lib::group_seq_properties;

/// The dotted-decimal rendering of a 32-bit mask.
pub open spec fn dotted(m: u32) -> Seq<char> {
    decimal(((m >> 24u32) & 0xffu32) as nat) + "."@ + decimal(((m >> 16u32) & 0xffu32) as nat) + "."@
        + decimal(((m >> 8u32) & 0xffu32) as nat) + "."@ + decimal((m & 0xffu32) as nat)
}

/// Splits `ip/len` into the trimmed address text and the dotted netmask of
/// `len` (which must parse and be at most 32); the address is not checked.
pub open spec fn split_cidr_text(cidr: Seq<char>) -> Option<(Seq<char>, Seq<char>)> {
    match split_once(cidr, '/') {
        Some((ip, len)) => match parse_u32(trim(len)) {
            Some(l) => if l <= 32 {
                Some((trim(ip), dotted(prefix_mask(l))))
            } else {
                None
            },
            None => None,
        },
        None => None,
    }
}

/// Splits a CIDR prefix into its address and netmask, e.g. `/24` gives `255.255.255.0`.
pub fn split_cidr(cidr: &str) -> (r: Option<(String, String)>)
    ensures
        match r {
            Some((ip, mask)) => split_cidr_text(cidr@) == Some((ip@, mask@)),
            None => split_cidr_text(cidr@) is None,
        },
{
    let v = chars_of(cidr);
    let (ip, len) = match split_once_chars(&v, '/') {
        Some(x) => x,
        None => return None,
    };
    let l = match parse_u32_chars(&trim_chars(&len)) {
        Some(l) => l,
        None => return None,
    };
    if l > 32 {
        return None;
    }
    let m = mask_of(l);
    let mut mask = String::new();
    push_decimal(&mut mask, ((m >> 24u32) & 0xffu32) as u64);
    mask.append(".");
    push_decimal(&mut mask, ((m >> 16u32) & 0xffu32) as u64);
    mask.append(".");
    push_decimal(&mut mask, ((m >> 8u32) & 0xffu32) as u64);
    mask.append(".");
    push_decimal(&mut mask, (m & 0xffu32) as u64);
    assert(mask@ =~= dotted(m));
    Some((string_of(&trim_chars(&ip)), mask))
}

/// The port of `d` at one end of `l`, if `l` touches `d`.
pub open spec fn port_on(id: Seq<char>) -> spec_fn(Link) -> Option<Seq<char>> {
    |l: Link|
        if l.from@ == id {
            Some(l.from_port@)
        } else if l.to@ == id {
            Some(l.to_port@)
        } else {
            None
        }
}

/// Whether a port name is non-empty.
pub open spec fn named(p: Seq<char>) -> bool {
    p.len() > 0
}

/// The named ports of `d` used by links, in link order.
pub open spec fn ports_of(d: Device, t: Topology) -> Seq<Seq<char>> {
    t.links@.filter_map(port_on(d.id@)).filter(|p: Seq<char>| named(p))
}

/// The ports of `device` that the topology's links use, skipping unnamed ones.
pub fn device_ports(device: &Device, topo: &Topology) -> (r: Vec<String>)
    ensures
        views(r@) == ports_of(*device, *topo),
{
    let ghost f = port_on(device.id@);
    let ghost p = |q: Seq<char>| named(q);
    let mut out: Vec<String> = Vec::new();
    let mut i: usize = 0;
    while i < topo.links.len()
        invariant
            i <= topo.links@.len(),
            f == port_on(device.id@),
            p == (|q: Seq<char>| named(q)),
            views(out@) == topo.links@.take(i as int).filter_map(f).filter(p),
        decreases topo.links@.len() - i,
    {
        proof {
            topo.links@.lemma_filter_map_take_succ(f, i as int);
        }
        let ghost prev = topo.links@.take(i as int).filter_map(f);
        let l = &topo.links[i];
        let port: Option<&String> = if l.from == device.id {
            Some(&l.from_port)
        } else if l.to == device.id {
            Some(&l.to_port)
        } else {
            None
        };
        match port {
            Some(name) => {
                proof {
                    assert(topo.links@.take(i + 1).filter_map(f) =~= prev.push(name@));
                    prev.lemma_filter_push(name@, p);
                }
                let ghost before = out@;
                if name.unicode_len() > 0 {
                    out.push(name.clone());
                    assert(views(out@) =~= views(before).push(name@));
                }
            },
            None => {
                assert(topo.links@.take(i + 1).filter_map(f) =~= prev);
            },
        }
        i = i + 1;
    }
    proof {
        lemma_take_all(topo.links@);
    }
    out
}

/// The address line of a layer-3 interface (empty when its subnet does not split).
pub open spec fn ip_line(l: L3Intf) -> Seq<char> {
    match split_cidr_text(l.subnet@) {
        Some((ip, mask)) => " ip address "@ + ip + " "@ + mask + "\n"@,
        None => Seq::empty(),
    }
}

/// VRP: the VLAN declaration line.
pub open spec fn vrp_vlan_text(c: crate::topology::DeviceConfig) -> Seq<char> {
    if c.vlans@.len() > 0 {
        "vlan batch "@ + join(c.vlans@.map_values(|v: Vlan| decimal(v.id as nat)), " "@) + "\n"@
    } else {
        match c.access_vlan {
            Some(av) => "vlan batch "@ + decimal(av as nat) + "\n"@,
            None => Seq::empty(),
        }
    }
}

/// VRP: the block of one port.
pub open spec fn vrp_port_text(c: crate::topology::DeviceConfig, port: Seq<char>) -> Seq<char> {
    "interface "@ + port + "\n"@ + (if c.trunk_vlans@.len() > 0 {
        " port link-type trunk\n"@ + " port trunk allow-pass vlan "@ + join(
            decimals(c.trunk_vlans@),
            " "@,
        ) + "\n"@
    } else {
        match c.access_vlan {
            Some(av) => " port default vlan "@ + decimal(av as nat) + "\n"@,
            None => Seq::empty(),
        }
    }) + "#\n"@
}

/// VRP: the block of one layer-3 interface.
pub open spec fn vrp_l3_text(l: L3Intf) -> Seq<char> {
    "interface "@ + l.name@ + "\n"@ + ip_line(l) + "#\n"@
}

/// The block of one port in either dialect.
pub open spec fn port_block(c: crate::topology::DeviceConfig, port: Seq<char>, vrp: bool) -> Seq<char> {
    if vrp {
        vrp_port_text(c, port)
    } else {
        ios_port_text(c, port)
    }
}

/// The blocks of a list of ports, in order.
pub open spec fn port_blocks(c: crate::topology::DeviceConfig, ports: Seq<Seq<char>>, vrp: bool) -> Seq<char>
    decreases ports.len(),
{
    if ports.len() == 0 {
        Seq::empty()
    } else {
        port_blocks(c, ports.drop_last(), vrp) + port_block(c, ports.last(), vrp)
    }
}

/// The block of one layer-3 interface in either dialect.
pub open spec fn l3_block(l: L3Intf, vrp: bool) -> Seq<char> {
    if vrp {
        vrp_l3_text(l)
    } else {
        ios_l3_text(l)
    }
}

/// The blocks of a list of layer-3 interfaces, in order.
pub open spec fn l3_blocks(ls: Seq<L3Intf>, vrp: bool) -> Seq<char>
    decreases ls.len(),
{
    if ls.len() == 0 {
        Seq::empty()
    } else {
        l3_blocks(ls.drop_last(), vrp) + l3_block(ls.last(), vrp)
    }
}

/// IOS: the declaration of one VLAN.
pub open spec fn ios_vlan_decl(v: Vlan) -> Seq<char> {
    "vlan "@ + decimal(v.id as nat) + "\n name "@ + v.name@ + "\n"@
}

/// IOS: the declarations of a list of VLANs.
pub open spec fn ios_vlan_decls(vs: Seq<Vlan>) -> Seq<char>
    decreases vs.len(),
{
    if vs.len() == 0 {
        Seq::empty()
    } else {
        ios_vlan_decls(vs.drop_last()) + ios_vlan_decl(vs.last())
    }
}

/// The whole VRP (Huawei / H3C) configuration of a device.
pub open spec fn vrp_text(d: Device, t: Topology) -> Seq<char> {
    let c = d.config;
    "#\n"@ + "sysname "@ + c.hostname@ + "\n"@ + "#\n"@ + vrp_vlan_text(c) + port_blocks(c, ports_of(d, t), true)
        + l3_blocks(c.l3_intfs@, true) + (if c.routing
        == RoutingProtocol::Static && c.l3_intfs@.len() > 0 {
        "ip route-static 0.0.0.0 0.0.0.0 <下一跳>\n"@
    } else {
        Seq::empty()
    }) + "return\n"@
}

/// IOS: the VLAN declarations.
pub open spec fn ios_vlan_text(c: crate::topology::DeviceConfig) -> Seq<char> {
    ios_vlan_decls(c.vlans@) + (
    if c.vlans@.len() == 0 {
        match c.access_vlan {
            Some(av) => "vlan "@ + decimal(av as nat) + "\n"@,
            None => Seq::empty(),
        }
    } else {
        Seq::empty()
    })
}

/// IOS: the block of one port.
pub open spec fn ios_port_text(c: crate::topology::DeviceConfig, port: Seq<char>) -> Seq<char> {
    "interface "@ + port + "\n"@ + (if c.trunk_vlans@.len() > 0 {
        " switchport mode trunk\n"@ + " switchport trunk allowed vlan "@ + join(
            decimals(c.trunk_vlans@),
            ","@,
        ) + "\n"@
    } else {
        match c.access_vlan {
            Some(av) => " switchport mode access\n"@ + " switchport access vlan "@ + decimal(
                av as nat,
            ) + "\n"@,
            None => Seq::empty(),
        }
    }) + "!\n"@
}

/// IOS: the block of one layer-3 interface.
pub open spec fn ios_l3_text(l: L3Intf) -> Seq<char> {
    "interface "@ + l.name@ + "\n"@ + ip_line(l) + "!\n"@
}

/// The whole IOS (Cisco) configuration of a device.
pub open spec fn ios_text(d: Device, t: Topology) -> Seq<char> {
    let c = d.config;
    "!\n"@ + "hostname "@ + c.hostname@ + "\n"@ + "!\n"@ + ios_vlan_text(c) + port_blocks(c, ports_of(d, t), false)
        + l3_blocks(c.l3_intfs@, false) + (if c.routing
        == RoutingProtocol::Static {
        "ip route 0.0.0.0 0.0.0.0 <下一跳>\n"@
    } else {
        Seq::empty()
    }) + "end\n"@
}

/// The configuration of a device in its vendor's dialect.
pub open spec fn device_cli_text(d: Device, t: Topology) -> Seq<char> {
    match d.vendor {
        Vendor::HuaweiVrp | Vendor::H3cVrp => vrp_text(d, t),
        Vendor::CiscoIos => ios_text(d, t),
    }
}

fn push_ip_line(s: &mut String, l: &L3Intf)
    ensures
        final(s)@ == old(s)@ + ip_line(*l),
{
    match split_cidr(l.subnet.as_str()) {
        Some((ip, mask)) => {
            s.append(" ip address ");
            s.append(ip.as_str());
            s.append(" ");
            s.append(mask.as_str());
            s.append("\n");
        },
        None => {},
    }
}

fn push_vrp_port(s: &mut String, c: &crate::topology::DeviceConfig, port: &String)
    ensures
        final(s)@ == old(s)@ + vrp_port_text(*c, port@),
{
    s.append("interface ");
    s.append(port.as_str());
    s.append("\n");
    if c.trunk_vlans.len() > 0 {
        s.append(" port link-type trunk\n");
        s.append(" port trunk allow-pass vlan ");
        push_joined_decimals(s, &c.trunk_vlans, " ");
        s.append("\n");
    } else {
        match c.access_vlan {
            Some(av) => {
                s.append(" port default vlan ");
                push_decimal(s, av as u64);
                s.append("\n");
            },
            None => {},
        }
    }
    s.append("#\n");
}

fn push_ios_port(s: &mut String, c: &crate::topology::DeviceConfig, port: &String)
    ensures
        final(s)@ == old(s)@ + ios_port_text(*c, port@),
{
    s.append("interface ");
    s.append(port.as_str());
    s.append("\n");
    if c.trunk_vlans.len() > 0 {
        s.append(" switchport mode trunk\n");
        s.append(" switchport trunk allowed vlan ");
        push_joined_decimals(s, &c.trunk_vlans, ",");
        s.append("\n");
    } else {
        match c.access_vlan {
            Some(av) => {
                s.append(" switchport mode access\n");
                s.append(" switchport access vlan ");
                push_decimal(s, av as u64);
                s.append("\n");
            },
            None => {},
        }
    }
    s.append("!\n");
}

/// Appends one block per port, in the given dialect.
fn push_ports(s: &mut String, c: &crate::topology::DeviceConfig, ports: &Vec<String>, vrp: bool)
    ensures
        final(s)@ == old(s)@ + port_blocks(*c, views(ports@), vrp),
{
    let ghost start = s@;
    let ghost pv = views(ports@);
    let mut i: usize = 0;
    assert(pv.take(0) =~= Seq::<Seq<char>>::empty());
    while i < ports.len()
        invariant
            i <= ports@.len(),
            pv == views(ports@),
            s@ == start + port_blocks(*c, pv.take(i as int), vrp),
        decreases ports@.len() - i,
    {
        assert(pv.take(i + 1).drop_last() =~= pv.take(i as int));
        assert(pv.take(i + 1).last() == ports@[i as int]@);
        if vrp {
            push_vrp_port(s, c, &ports[i]);
        } else {
            push_ios_port(s, c, &ports[i]);
        }
        assert(s@ =~= start + port_blocks(*c, pv.take(i + 1), vrp));
        i = i + 1;
    }
    proof {
        lemma_take_all(pv);
    }
}

/// Appends one block per layer-3 interface, in the given dialect.
#[verifier::spinoff_prover]
#[verifier::rlimit(40)]
fn push_l3s(s: &mut String, c: &crate::topology::DeviceConfig, vrp: bool)
    ensures
        final(s)@ == old(s)@ + l3_blocks(c.l3_intfs@, vrp),
{
    let ghost start = s@;
    let ghost ls = c.l3_intfs@;
    let mut i: usize = 0;
    assert(ls.take(0) =~= Seq::<L3Intf>::empty());
    while i < c.l3_intfs.len()
        invariant
            i <= ls.len(),
            ls == c.l3_intfs@,
            s@ == start + l3_blocks(ls.take(i as int), vrp),
        decreases ls.len() - i,
    {
        assert(ls.take(i + 1).drop_last() =~= ls.take(i as int));
        assert(ls.take(i + 1).last() == ls[i as int]);
        let l3 = &c.l3_intfs[i];
        s.append("interface ");
        s.append(l3.name.as_str());
        s.append("\n");
        push_ip_line(s, l3);
        if vrp {
            s.append("#\n");
        } else {
            s.append("!\n");
        }
        assert(s@ =~= start + l3_blocks(ls.take(i + 1), vrp));
        i = i + 1;
    }
    proof {
        lemma_take_all(ls);
    }
}

/// Huawei / H3C VRP configuration.
fn gen_vrp(device: &Device, topo: &Topology) -> (r: String)
    ensures
        r@ == vrp_text(*device, *topo),
{
    let c = &device.config;
    let mut s = String::new();
    s.append("#\n");
    s.append("sysname ");
    s.append(c.hostname.as_str());
    s.append("\n");
    s.append("#\n");
    if c.vlans.len() > 0 {
        let mut ids: Vec<u16> = Vec::new();
        let mut k: usize = 0;
        while k < c.vlans.len()
            invariant
                k <= c.vlans@.len(),
                ids@ == c.vlans@.take(k as int).map_values(|v: Vlan| v.id),
            decreases c.vlans@.len() - k,
        {
            ids.push(c.vlans[k].id);
            assert(ids@ =~= c.vlans@.take(k + 1).map_values(|v: Vlan| v.id));
            k = k + 1;
        }
        assert(c.vlans@.take(c.vlans@.len() as int) =~= c.vlans@);
        assert(decimals(ids@) =~= c.vlans@.map_values(|v: Vlan| decimal(v.id as nat)));
        s.append("vlan batch ");
        push_joined_decimals(&mut s, &ids, " ");
        s.append("\n");
    } else {
        match c.access_vlan {
            Some(av) => {
                s.append("vlan batch ");
                push_decimal(&mut s, av as u64);
                s.append("\n");
            },
            None => {},
        }
    }
    let ports = device_ports(device, topo);
    push_ports(&mut s, c, &ports, true);
    push_l3s(&mut s, c, true);
    if c.routing == RoutingProtocol::Static && c.l3_intfs.len() > 0 {
        s.append("ip route-static 0.0.0.0 0.0.0.0 <下一跳>\n");
    }
    s.append("return\n");
    assert(s@ =~= vrp_text(*device, *topo));
    s
}

/// Cisco IOS configuration.
fn gen_ios(device: &Device, topo: &Topology) -> (r: String)
    ensures
        r@ == ios_text(*device, *topo),
{
    let c = &device.config;
    let mut s = String::new();
    s.append("!\n");
    s.append("hostname ");
    s.append(c.hostname.as_str());
    s.append("\n");
    s.append("!\n");
    let ghost start = s@;
    let ghost vs = c.vlans@;
    let mut k: usize = 0;
    assert(vs.take(0) =~= Seq::<Vlan>::empty());
    while k < c.vlans.len()
        invariant
            k <= vs.len(),
            vs == c.vlans@,
            s@ == start + ios_vlan_decls(vs.take(k as int)),
        decreases vs.len() - k,
    {
        assert(vs.take(k + 1).drop_last() =~= vs.take(k as int));
        assert(vs.take(k + 1).last() == vs[k as int]);
        let v = &c.vlans[k];
        s.append("vlan ");
        push_decimal(&mut s, v.id as u64);
        s.append("\n name ");
        s.append(v.name.as_str());
        s.append("\n");
        assert(s@ =~= start + ios_vlan_decls(vs.take(k + 1)));
        k = k + 1;
    }
    proof {
        lemma_take_all(vs);
    }
    if c.vlans.len() == 0 {
        match c.access_vlan {
            Some(av) => {
                s.append("vlan ");
                push_decimal(&mut s, av as u64);
                s.append("\n");
            },
            None => {},
        }
    }
    let ports = device_ports(device, topo);
    push_ports(&mut s, c, &ports, false);
    push_l3s(&mut s, c, false);
    if c.routing == RoutingProtocol::Static {
        s.append("ip route 0.0.0.0 0.0.0.0 <下一跳>\n");
    }
    s.append("end\n");
    assert(s@ =~= ios_text(*device, *topo));
    s
}

/// The CLI configuration of one device, in its vendor's dialect.
pub fn generate_device_cli(device: &Device, topo: &Topology) -> (r: String)
    ensures
        r@ == device_cli_text(*device, *topo),
{
    match device.vendor {
        Vendor::HuaweiVrp | Vendor::H3cVrp => gen_vrp(device, topo),
        Vendor::CiscoIos => gen_ios(device, topo),
    }
}

proof fn lemma_occurs_left(a: Seq<char>, b: Seq<char>, x: Seq<char>, k: int)
    requires
        crate::text::occurs_at(a, x, k),
    ensures
        crate::text::occurs_at(a + b, x, k),
{
    assert((a + b).subrange(k, k + x.len()) =~= a.subrange(k, k + x.len()));
}

proof fn lemma_occurs_right(a: Seq<char>, b: Seq<char>, x: Seq<char>, k: int)
    requires
        crate::text::occurs_at(b, x, k),
    ensures
        crate::text::occurs_at(a + b, x, a.len() + k),
{
    assert((a + b).subrange(a.len() + k, a.len() + k + x.len()) =~= b.subrange(k, k + x.len()));
}

proof fn lemma_occurs_within(hay: Seq<char>, mid: Seq<char>, x: Seq<char>, k: int, j: int)
    requires
        crate::text::occurs_at(hay, mid, k),
        crate::text::occurs_at(mid, x, j),
    ensures
        crate::text::occurs_at(hay, x, k + j),
{
    assert(hay.subrange(k + j, k + j + x.len()) =~= mid.subrange(j, j + x.len()));
}

/// The heading of a port's block.
pub open spec fn interface_line(port: Seq<char>) -> Seq<char> {
    "interface "@ + port + "\n"@
}

proof fn lemma_port_blocks_have(c: crate::topology::DeviceConfig, ports: Seq<Seq<char>>, vrp: bool, i: int)
    requires
        0 <= i < ports.len(),
    ensures
        crate::text::contains(port_blocks(c, ports, vrp), interface_line(ports[i])),
    decreases ports.len(),
{
    let x = interface_line(ports[i]);
    let rest = ports.drop_last();
    if i == ports.len() - 1 {
        let b = port_block(c, ports[i], vrp);
        let tail = if vrp {
            (if c.trunk_vlans@.len() > 0 {
                " port link-type trunk\n"@ + " port trunk allow-pass vlan "@ + join(
                    decimals(c.trunk_vlans@),
                    " "@,
                ) + "\n"@
            } else {
                match c.access_vlan {
                    Some(av) => " port default vlan "@ + decimal(av as nat) + "\n"@,
                    None => Seq::empty(),
                }
            }) + "#\n"@
        } else {
            (if c.trunk_vlans@.len() > 0 {
                " switchport mode trunk\n"@ + " switchport trunk allowed vlan "@ + join(
                    decimals(c.trunk_vlans@),
                    ","@,
                ) + "\n"@
            } else {
                match c.access_vlan {
                    Some(av) => " switchport mode access\n"@ + " switchport access vlan "@
                        + decimal(av as nat) + "\n"@,
                    None => Seq::empty(),
                }
            }) + "!\n"@
        };
        assert(b =~= x + tail);
        assert(crate::text::occurs_at(x + tail, x, 0)) by {
            assert((x + tail).subrange(0, x.len() as int) =~= x);
        }
        lemma_occurs_right(port_blocks(c, rest, vrp), b, x, 0);
    } else {
        lemma_port_blocks_have(c, rest, vrp, i);
        let k = choose|k: int| crate::text::occurs_at(port_blocks(c, rest, vrp), x, k);
        lemma_occurs_left(port_blocks(c, rest, vrp), port_block(c, ports.last(), vrp), x, k);
    }
}

/// The part of a device's configuration before its port blocks.
pub open spec fn cli_head(c: crate::topology::DeviceConfig, vrp: bool) -> Seq<char> {
    if vrp {
        "#\n"@ + "sysname "@ + c.hostname@ + "\n"@ + "#\n"@ + vrp_vlan_text(c)
    } else {
        "!\n"@ + "hostname "@ + c.hostname@ + "\n"@ + "!\n"@ + ios_vlan_text(c)
    }
}

/// The part of a device's configuration after its port blocks.
pub open spec fn cli_tail(c: crate::topology::DeviceConfig, vrp: bool) -> Seq<char> {
    if vrp {
        l3_blocks(c.l3_intfs@, true) + (if c.routing == RoutingProtocol::Static && c.l3_intfs@.len()
            > 0 {
            "ip route-static 0.0.0.0 0.0.0.0 <下一跳>\n"@
        } else {
            Seq::empty()
        }) + "return\n"@
    } else {
        l3_blocks(c.l3_intfs@, false) + (if c.routing == RoutingProtocol::Static {
            "ip route 0.0.0.0 0.0.0.0 <下一跳>\n"@
        } else {
            Seq::empty()
        }) + "end\n"@
    }
}

/// The line that names a device.
pub open spec fn name_line(c: crate::topology::DeviceConfig, vrp: bool) -> Seq<char> {
    (if vrp {
        "sysname "@
    } else {
        "hostname "@
    }) + c.hostname@ + "\n"@
}

proof fn lemma_cli_parts(d: Device, t: Topology)
    ensures
        device_cli_text(d, t) == cli_head(d.config, d.vendor != Vendor::CiscoIos) + port_blocks(
            d.config,
            ports_of(d, t),
            d.vendor != Vendor::CiscoIos,
        ) + cli_tail(d.config, d.vendor != Vendor::CiscoIos),
{
    let vrp = d.vendor != Vendor::CiscoIos;
    assert(device_cli_text(d, t) =~= cli_head(d.config, vrp) + port_blocks(
        d.config,
        ports_of(d, t),
        vrp,
    ) + cli_tail(d.config, vrp));
}

proof fn lemma_head_names(c: crate::topology::DeviceConfig, vrp: bool)
    ensures
        crate::text::occurs_at(cli_head(c, vrp), name_line(c, vrp), 2),
{
    let lead: Seq<char> = if vrp {
        "#\n"@
    } else {
        "!\n"@
    };
    reveal_strlit("#\n");
    reveal_strlit("!\n");
    let name = name_line(c, vrp);
    let after = if vrp {
        "#\n"@ + vrp_vlan_text(c)
    } else {
        "!\n"@ + ios_vlan_text(c)
    };
    assert(cli_head(c, vrp) =~= lead + name + after);
    assert((lead + name + after).subrange(2, (2 + name.len()) as int) =~= name);
}

/// The configuration generated for a device names it, and opens an
/// interface block for every port by which it is linked in the topology.
pub proof fn lemma_cli_covers_ports(d: Device, t: Topology)
    ensures
        forall|i: int|
            0 <= i < ports_of(d, t).len() ==> crate::text::contains(
                device_cli_text(d, t),
                #[trigger] interface_line(ports_of(d, t)[i]),
            ),
        crate::text::contains(device_cli_text(d, t), name_line(d.config, d.vendor != Vendor::CiscoIos)),
{
    let c = d.config;
    let vrp = d.vendor != Vendor::CiscoIos;
    let ports = ports_of(d, t);
    let head = cli_head(c, vrp);
    let blocks = port_blocks(c, ports, vrp);
    let tail = cli_tail(c, vrp);
    lemma_cli_parts(d, t);
    assert forall|i: int| 0 <= i < ports.len() implies crate::text::contains(
        head + blocks + tail,
        #[trigger] interface_line(ports[i]),
    ) by {
        let x = interface_line(ports[i]);
        lemma_port_blocks_have(c, ports, vrp, i);
        let k = choose|k: int| crate::text::occurs_at(blocks, x, k);
        lemma_occurs_right(head, blocks, x, k);
        lemma_occurs_left(head + blocks, tail, x, head.len() + k);
    }
    lemma_head_names(c, vrp);
    lemma_occurs_left(head, blocks, name_line(c, vrp), 2);
    lemma_occurs_left(head + blocks, tail, name_line(c, vrp), 2);
}

} // verus!
