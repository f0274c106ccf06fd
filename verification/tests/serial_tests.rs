use nmts::serial::{looks_like_prompt, port_desc, BaudProbe, BaudStep, SerialPortKind};

#[test]
fn prompt_detection() {
    assert!(looks_like_prompt(b"<Huawei>"));
    assert!(looks_like_prompt(b"\r\nUsername:"));
    assert!(looks_like_prompt(b"Router#"));
    assert!(!looks_like_prompt(b""));
    assert!(!looks_like_prompt(b"garbage without prompt"));
}

#[test]
fn prompt_detection_ignores_case() {
    assert!(looks_like_prompt(b"LOGIN: "));
    assert!(looks_like_prompt(b"PassWord:"));
}

#[test]
fn port_desc_usb() {
    let t = SerialPortKind::Usb {
        manufacturer: Some("FTDI".into()),
        product: Some("USB Serial".into()),
    };
    assert_eq!(port_desc(&t), "FTDI USB Serial");
}

#[test]
fn port_desc_kinds() {
    assert_eq!(port_desc(&SerialPortKind::Usb { manufacturer: None, product: None }), "USB 串口");
    assert_eq!(port_desc(&SerialPortKind::Usb { manufacturer: None, product: Some("CH340".into()) }), "CH340");
    assert_eq!(port_desc(&SerialPortKind::Bluetooth), "蓝牙串口");
    assert_eq!(port_desc(&SerialPortKind::Pci), "PCI 串口");
    assert_eq!(port_desc(&SerialPortKind::Unknown), "未知串口");
}

#[test]
fn baud_search_in_order() {
    let (mut p, step) = BaudProbe::start(vec![9600, 115200, 19200]);
    assert_eq!(step, BaudStep::Try(9600));
    assert_eq!(p.on_reply(None), BaudStep::Try(115200));
    assert_eq!(p.on_reply(Some(b"\x00\xff")), BaudStep::Try(19200));
    assert_eq!(p.on_reply(Some(b"<Switch>")), BaudStep::Found(19200));
    let (mut q, _) = BaudProbe::start(vec![9600]);
    assert_eq!(q.on_reply(Some(b"noise")), BaudStep::Exhausted);
    assert_eq!(BaudProbe::start(vec![]).1, BaudStep::Exhausted);
}
