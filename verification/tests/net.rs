use dg_sysfs::classes::net::{NetDevice, NetDeviceError, NetDeviceValues, NetEnumerator, NetType};

fn values(net_type: &str, duplex: Option<&str>) -> NetDeviceValues {
    NetDeviceValues {
        name: "eth0".to_string(),
        wireless: false,
        mac_address: "aa:bb:cc:dd:ee:ff".to_string(),
        interface_index: "2".to_string(),
        mtu: "1500".to_string(),
        state: "up".to_string(),
        net_type: net_type.to_string(),
        duplex: duplex.map(|s| s.to_string()),
        speed: None,
        carrier: "1".to_string(),
        carrier_changes: "3".to_string(),
        flags: "0x1003".to_string(),
    }
}

#[test]
fn net_type_from_code_text() {
    let all = [
        ("1", NetType::Ethernet),
        ("2", NetType::ExEthernet),
        ("3", NetType::AmateurRadio),
        ("4", NetType::ProNet),
        ("5", NetType::Chaos),
        ("6", NetType::IEEE802),
        ("7", NetType::ARCnet),
        ("8", NetType::AppleTalk),
        ("15", NetType::DataLinkConnectionIdentifier),
        ("19", NetType::AsyncTransferMode),
        ("23", NetType::MetricomStrip),
        ("24", NetType::IEEE1394),
        ("27", NetType::EUI64),
        ("32", NetType::InfiniBand),
        ("772", NetType::Loopback),
    ];
    for (text, t) in all {
        assert_eq!(NetType::from(text), t);
        assert_eq!(t.code().to_string(), text);
    }
    for text in ["0", "01", "9", " 1", "", "776"] {
        assert_eq!(NetType::from(text), NetType::Unknown);
    }
    assert_eq!(NetType::Unknown.code(), 0);
}

#[test]
fn net_type_names() {
    assert_eq!(NetType::Ethernet.name(), "Ethernet");
    assert_eq!(NetType::IEEE1394.name(), "IEEE1394");
    assert_eq!(NetType::DataLinkConnectionIdentifier.name(), "DataLinkConnectionIdentifier");
    assert_eq!(NetType::Loopback.name(), "Loopback");
    assert_eq!(NetType::Unknown.name(), "Unknown");
}

#[test]
fn ethernet_device_settings() {
    match NetDevice::from_values(values("1", Some("full"))) {
        Ok(NetDevice::Physical(d)) => {
            assert_eq!(d.name, "eth0");
            assert_eq!(d.duplex, "full");
            assert_eq!(d.speed, "unknown");
            assert_eq!(d.mtu, "1500");
            assert_eq!(d.flags, "0x1003");
            assert!(!d.wireless);
        }
        other => panic!("unexpected {other:?}"),
    }
}

#[test]
fn loopback_and_refused_types() {
    assert!(matches!(NetDevice::from_values(values("772", None)), Ok(NetDevice::Loopback)));
    match NetDevice::from_values(values("32", None)) {
        Err(NetDeviceError::InvalidType(t)) => assert_eq!(t, "32"),
        other => panic!("unexpected {other:?}"),
    }
}

#[test]
fn enumerator_builds() {
    let _ = NetEnumerator::new();
}

#[test]
fn code_text_names_each_type() {
    let all = [
        NetType::Unknown,
        NetType::Ethernet,
        NetType::ExEthernet,
        NetType::AmateurRadio,
        NetType::ProNet,
        NetType::Chaos,
        NetType::IEEE802,
        NetType::ARCnet,
        NetType::AppleTalk,
        NetType::DataLinkConnectionIdentifier,
        NetType::AsyncTransferMode,
        NetType::MetricomStrip,
        NetType::IEEE1394,
        NetType::EUI64,
        NetType::InfiniBand,
        NetType::Loopback,
    ];
    for t in all {
        let text = t.code().to_string();
        assert_eq!(NetType::from(text.as_str()), t);
    }
}
