use nmts::addr::cidr_overlap;
use nmts::design_check::{check, check_vlan_propagated, Intent, Severity};
use nmts::topology::{Device, DeviceConfig, DeviceRole, L3Intf, Link, Topology, Vendor};

fn topo() -> Topology {
    let mut t = Topology::default();
    t.devices.push(Device {
        id: "core".into(),
        name: "核心".into(),
        vendor: Vendor::HuaweiVrp,
        role: DeviceRole::Core,
        mgmt_ip: String::new(),
        creds: None,
        config: DeviceConfig {
            hostname: "CORE".into(),
            trunk_vlans: vec![10],
            stp_enabled: true,
            l3_intfs: vec![L3Intf {
                name: "Vlanif10".into(),
                subnet: "192.168.10.0/24".into(),
                vrrp: false,
            }],
            ..Default::default()
        },
    });
    t.devices.push(Device {
        id: "acc1".into(),
        name: "接入1".into(),
        vendor: Vendor::HuaweiVrp,
        role: DeviceRole::Access,
        mgmt_ip: String::new(),
        creds: None,
        config: DeviceConfig {
            hostname: "ACC1".into(),
            access_vlan: Some(10),
            stp_enabled: true,
            l3_intfs: vec![L3Intf {
                name: "Vlanif10".into(),
                subnet: "192.168.10.0/24".into(),
                vrrp: false,
            }],
            ..Default::default()
        },
    });
    t.links.push(Link {
        from: "core".into(),
        to: "acc1".into(),
        from_port: String::new(),
        to_port: String::new(),
        from_ip: String::new(),
        to_ip: String::new(),
    });
    t
}

#[test]
fn subnet_overlap_detected() {
    let t = topo();
    let f = check(&t, &[Intent::UniqueSubnet]);
    assert!(f
        .iter()
        .any(|x| x.severity == Severity::Error && x.message.contains("重叠")));
}

#[test]
fn vlan_propagated_ok_when_trunk_allows() {
    let t = topo();
    let f = check(
        &t,
        &[Intent::VlanPropagated {
            vlan: 10,
            to: DeviceRole::Access,
        }],
    );
    assert!(!f.iter().any(|x| x.severity == Severity::Error));
}

#[test]
fn redundant_uplink_warns_single() {
    let t = topo();
    let f = check(
        &t,
        &[Intent::RedundantUplink {
            role: DeviceRole::Access,
        }],
    );
    assert!(f
        .iter()
        .any(|x| x.severity == Severity::Warn && x.message.contains("1 条上联")));
}

#[test]
fn cidr_overlap_cases() {
    assert!(cidr_overlap(0xC0A80A00, 24, 0xC0A80A01, 24));
    assert!(!cidr_overlap(0xC0A80A00, 24, 0xC0A80B00, 24));
}

#[test]
fn cidr_overlap_is_symmetric_on_samples() {
    assert_eq!(
        cidr_overlap(0x0A000000, 8, 0x0A010000, 16),
        cidr_overlap(0x0A010000, 16, 0x0A000000, 8)
    );
    assert!(cidr_overlap(0x0A000000, 8, 0x0A010000, 16));
    assert!(cidr_overlap(0, 0, 0xC0A80101, 32));
}

#[test]
fn check_concatenates_intents_in_order() {
    let t = topo();
    let a = check(&t, &[Intent::UniqueSubnet]);
    let b = check(&t, &[Intent::RedundantUplink { role: DeviceRole::Access }]);
    let ab = check(
        &t,
        &[Intent::UniqueSubnet, Intent::RedundantUplink { role: DeviceRole::Access }],
    );
    assert_eq!(ab.len(), a.len() + b.len());
    for (x, y) in ab.iter().zip(a.iter().chain(b.iter())) {
        assert_eq!(x.message, y.message);
        assert_eq!(x.intent, y.intent);
    }
}

#[test]
fn no_loop_on_tree_topology() {
    let t = topo();
    let f = check(&t, &[Intent::NoLoop]);
    assert!(f.is_empty());
}

#[test]
fn mgmt_vlan_intent_label() {
    assert_eq!(Intent::UniqueSubnet.label(), "子网不重叠");
    assert_eq!(Severity::Error.label(), "错误");
}

#[test]
fn vlan_needing_devices_without_trunk_neighbour_are_errors() {
    let mut t = topo();
    // the access device needs VLAN 20 and the core trunk allows only 10
    t.devices[1].config.access_vlan = Some(20);
    let mut out = Vec::new();
    check_vlan_propagated(&t, 20, DeviceRole::Access, &mut out);
    assert_eq!(out.len(), 1);
    assert_eq!(out[0].severity, Severity::Error);
    assert_eq!(out[0].devices, vec!["acc1".to_string()]);
    // the core allows 20 on its trunk: nothing is appended to what was there
    t.devices[0].config.trunk_vlans = vec![10, 20];
    check_vlan_propagated(&t, 20, DeviceRole::Access, &mut out);
    assert_eq!(out.len(), 1);
    // no device of the role uses the VLAN
    check_vlan_propagated(&t, 30, DeviceRole::Access, &mut out);
    assert_eq!(out.len(), 1);
}

#[test]
fn overlap_with_one_oversized_prefix() {
    // only the shorter prefix is used
    assert!(cidr_overlap(0xC0A8_0A00, 24, 0xC0A8_0A05, 33));
    assert!(!cidr_overlap(0xC0A8_0B00, 40, 0xC0A8_0A05, 24));
}
