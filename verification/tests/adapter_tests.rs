use nmts::adapter::{get_active_adapter, Adapter};
use nmts::probe::build_script;

#[test]
fn virtual_keyword_detection() {
    let a = Adapter {
        name: "vEthernet (WSL)".into(),
        description: "Hyper-V Virtual Ethernet Adapter".into(),
        hardware_interface: false,
        ..Default::default()
    };
    assert!(a.is_virtual());

    let b = Adapter {
        name: "以太网".into(),
        description: "Realtek PCIe GbE".into(),
        hardware_interface: true,
        status: "Up".into(),
        ..Default::default()
    };
    assert!(!b.is_virtual());
    assert!(b.is_up());
    assert_eq!(b.kind_label(), "物理");
}

#[test]
fn keyword_match_ignores_case() {
    let a = Adapter {
        name: "VMware Network Adapter VMnet8".into(),
        description: "VMware Virtual Ethernet Adapter".into(),
        hardware_interface: true,
        ..Default::default()
    };
    assert!(a.is_virtual());
    assert_eq!(a.kind_label(), "虚拟");
    let v = Adapter {
        name: "Corp VPN".into(),
        hardware_interface: true,
        ..Default::default()
    };
    assert_eq!(v.kind_label(), "VPN");
    assert!(!Adapter { status: "Disconnected".into(), ..Default::default() }.is_up());
}

#[test]
fn active_adapter_by_route_index() {
    let mk = |i: u32, n: &str| Adapter { interface_index: i, name: n.into(), ..Default::default() };
    let list = vec![mk(3, "a"), mk(7, "b"), mk(7, "c")];
    assert_eq!(get_active_adapter(Some(7), &list).unwrap().name, "b");
    assert!(get_active_adapter(Some(9), &list).is_none());
    assert!(get_active_adapter(None, &list).is_none());
}

#[test]
fn probe_script_setup() {
    let forced = build_script(Some(12));
    assert!(forced.contains("$idx=12;$route_count=0;"));
    assert!(!forced.contains("__IDX_SETUP__"));
    let auto = build_script(None);
    assert!(auto.contains("$idx=$route.InterfaceIndex;"));
    assert!(auto.contains("ConvertTo-Json -Compress -Depth 4"));
}
