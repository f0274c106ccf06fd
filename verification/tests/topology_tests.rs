use nmts::topo_cli::{device_ports, generate_device_cli, split_cidr};
use nmts::topology::{
    demo_topology, Device, DeviceConfig, DeviceRole, Link, Topology, Vendor, Vlan,
};

fn link(from: &str, to: &str, fp: &str, tp: &str) -> Link {
    Link {
        from: from.into(),
        to: to.into(),
        from_port: fp.into(),
        to_port: tp.into(),
        from_ip: String::new(),
        to_ip: String::new(),
    }
}

fn sample() -> Topology {
    Topology {
        devices: vec![
            Device {
                id: "core".into(),
                name: "核心交换机".into(),
                vendor: Vendor::HuaweiVrp,
                role: DeviceRole::Core,
                mgmt_ip: "10.0.0.1".into(),
                creds: None,
                config: DeviceConfig {
                    hostname: "CORE".into(),
                    vlans: vec![Vlan { id: 10, name: "业务".into(), purpose: String::new() }],
                    trunk_vlans: vec![10],
                    ..Default::default()
                },
            },
            Device {
                id: "acc1".into(),
                name: "接入交换机".into(),
                vendor: Vendor::HuaweiVrp,
                role: DeviceRole::Access,
                mgmt_ip: "10.0.0.2".into(),
                creds: None,
                config: DeviceConfig {
                    hostname: "ACC1".into(),
                    access_vlan: Some(10),
                    ..Default::default()
                },
            },
        ],
        links: vec![link("core", "acc1", "GE0/0/1", "GE0/0/1")],
    }
}

#[test]
fn graph_and_neighbors() {
    let t = sample();
    let g = t.build_graph();
    assert_eq!(g.node_count(), 2);
    assert_eq!(g.edge_count(), 1);
    assert_eq!(t.neighbors("core"), vec!["acc1"]);
}

#[test]
fn d2_export() {
    let t = sample();
    let d2 = t.export_d2();
    assert!(d2.contains("core: 核心交换机"));
    assert!(d2.contains("core -> acc1"));
}

#[test]
fn neighbors_are_mutual() {
    let t = sample();
    assert_eq!(t.neighbors("acc1"), vec!["core"]);
    assert!(t.neighbors("nobody").is_empty());
}

#[test]
fn device_lookup_by_id() {
    let t = demo_topology();
    assert_eq!(t.devices.len(), 5);
    assert_eq!(t.links.len(), 4);
    assert_eq!(t.device("core").unwrap().config.hostname, "CORE");
    assert_eq!(t.device("r1").unwrap().vendor, Vendor::CiscoIos);
    assert!(t.device("missing").is_none());
}

#[test]
fn vendor_and_role_labels() {
    assert_eq!(Vendor::HuaweiVrp.id(), "huawei_vrp");
    assert_eq!(Vendor::CiscoIos.label(), "Cisco");
    assert_eq!(DeviceRole::Access.label(), "接入");
}

fn huawei_core() -> Topology {
    let mut t = Topology::default();
    t.devices.push(Device {
        id: "core".into(),
        name: "核心".into(),
        vendor: Vendor::HuaweiVrp,
        role: DeviceRole::Core,
        mgmt_ip: String::new(),
        creds: None,
        config: DeviceConfig {
            hostname: "CORE".into(),
            vlans: vec![Vlan { id: 10, name: "业务".into(), purpose: String::new() }],
            trunk_vlans: vec![10],
            ..Default::default()
        },
    });
    t.devices.push(Device {
        id: "acc1".into(),
        name: "接入1".into(),
        vendor: Vendor::HuaweiVrp,
        role: DeviceRole::Access,
        mgmt_ip: String::new(),
        creds: None,
        config: DeviceConfig {
            hostname: "ACC1".into(),
            access_vlan: Some(10),
            ..Default::default()
        },
    });
    t.links.push(link("core", "acc1", "GE0/0/1", "GE0/0/1"));
    t
}

#[test]
fn vrp_generates_sysname_vlan_trunk() {
    let t = huawei_core();
    let cli = generate_device_cli(t.device("core").unwrap(), &t);
    assert!(cli.contains("sysname CORE"));
    assert!(cli.contains("vlan batch 10"));
    assert!(cli.contains("interface GE0/0/1"));
    assert!(cli.contains("port trunk allow-pass vlan 10"));
}

#[test]
fn cidr_to_mask() {
    assert_eq!(split_cidr("192.168.1.0/24").unwrap().1, "255.255.255.0");
    assert_eq!(split_cidr("10.0.0.0/8").unwrap().1, "255.0.0.0");
}

#[test]
fn split_cidr_edges() {
    assert_eq!(
        split_cidr(" 10.1.2.3 / 0"),
        Some(("10.1.2.3".to_string(), "0.0.0.0".to_string()))
    );
    assert_eq!(split_cidr("10.0.0.0/32").unwrap().1, "255.255.255.255");
    assert_eq!(split_cidr("10.0.0.0/33"), None);
    assert_eq!(split_cidr("10.0.0.0"), None);
    assert_eq!(split_cidr("10.0.0.0/x"), None);
}

#[test]
fn ios_access_port_config() {
    let t = demo_topology();
    let cli = generate_device_cli(t.device("acc2").unwrap(), &t);
    assert!(cli.starts_with("!\nhostname ACC2\n!\n"));
    assert!(cli.contains("vlan 20\n"));
    assert!(cli.contains("interface Gi0/1\n switchport mode access\n switchport access vlan 20\n!\n"));
    assert!(cli.ends_with("end\n"));
}

#[test]
fn ports_of_a_device() {
    let t = demo_topology();
    assert_eq!(device_ports(t.device("dist").unwrap(), &t), vec!["GE0/0/1", "GE0/0/2", "GE0/0/3"]);
}

#[test]
fn d2_declares_every_device_and_link() {
    let t = demo_topology();
    let d2 = t.export_d2();
    for d in &t.devices {
        assert!(d2.contains(&format!("{}: {} {{\n  shape: ", d.id, d.name)));
    }
    for l in &t.links {
        assert!(d2.contains(&format!("{} -> {}\n", l.from, l.to)));
    }
}

#[test]
fn generated_cli_names_device_and_every_port() {
    let t = demo_topology();
    for d in &t.devices {
        let cli = generate_device_cli(d, &t);
        let head = if d.vendor == Vendor::CiscoIos { "hostname " } else { "sysname " };
        assert!(cli.contains(&format!("{head}{}\n", d.config.hostname)));
        let ports = device_ports(d, &t);
        assert!(!ports.is_empty());
        for p in ports {
            assert!(cli.contains(&format!("interface {p}\n")));
        }
    }
}
