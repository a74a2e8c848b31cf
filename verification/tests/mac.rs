use tosca_controller::mac::{
    extract_mac_from_row, get_mac_addresses, is_locally_administered_mac, is_virtual_interface,
    is_virtual_mac_vendor, process_adapter, vm_mac_prefixes, AdapterRow, Interface, Role,
    ADAPTER_TYPE_ETHERNET, ADAPTER_TYPE_WIFI, IFACE_TYPE_ETHERNET, IFACE_TYPE_WIFI,
    OPER_STATUS_UP, PHYSICAL_MEDIUM_ETHERNET, PHYSICAL_MEDIUM_WIFI,
};

#[test]
fn test_is_locally_administered_mac() {
    assert!(is_locally_administered_mac([0x02, 0, 0, 0, 0, 0]));
    assert!(is_locally_administered_mac([0xFE, 0, 0, 0, 0, 0]));
}

#[test]
fn test_is_not_locally_administered_mac() {
    assert!(!is_locally_administered_mac([0x00, 0, 0, 0, 0, 0]));
    assert!(!is_locally_administered_mac([0xFC, 0, 0, 0, 0, 0]));
}

#[test]
fn test_is_virtual_mac_vendor() {
    for prefix in vm_mac_prefixes() {
        let mac = [prefix[0], prefix[1], prefix[2], 0, 0, 0];

        // Ensures all known VM prefixes are detected.
        //
        // Failure means a known prefix was not matched
        assert!(
            is_virtual_mac_vendor(mac),
            "Failed for prefix {prefix:02X?}"
        );
    }
}

#[test]
fn test_is_not_virtual_mac_vendor() {
    assert!(!is_virtual_mac_vendor([0x00, 0x1A, 0x2B, 0, 0, 0]));
    assert!(!is_virtual_mac_vendor([0xFF, 0xFF, 0xFF, 0, 0, 0]));
}

#[test]
fn vm_prefixes_are_the_nine_known_ones() {
    let prefixes = vm_mac_prefixes();
    assert_eq!(prefixes.len(), 9);
    assert_eq!(prefixes[0], [0x00, 0x05, 0x69]);
    assert_eq!(prefixes[8], [0x00, 0x1C, 0x42]);
}

#[test]
fn virtual_interfaces_are_recognised() {
    let physical = [0x3C, 0x52, 0x82, 0x01, 0x02, 0x03];
    let path = Some("/sys/devices/pci0000:00/0000:00:1f.6/net/eth0");

    assert!(!is_virtual_interface(true, path, Some("eth0"), physical));
    assert!(!is_virtual_interface(true, None, None, physical));

    // No "device" entry.
    assert!(is_virtual_interface(false, path, Some("eth0"), physical));
    // Locally administered address.
    assert!(is_virtual_interface(true, path, Some("eth0"), [0x02, 0, 0, 0, 0, 1]));
    // Address of a vendor of virtual machines.
    assert!(is_virtual_interface(true, path, Some("eth0"), [0x08, 0x00, 0x27, 1, 2, 3]));
    // Canonical paths of virtual devices and of Hyper-V.
    assert!(is_virtual_interface(
        true,
        Some("/sys/devices/virtual/net/dummy0"),
        Some("dummy0"),
        physical
    ));
    assert!(is_virtual_interface(
        true,
        Some("/sys/devices/LNXSYSTM:00/VMBUS:00/net/eth0"),
        Some("eth0"),
        physical
    ));
    // Names of the loopback interface and of container interfaces.
    for name in ["lo", "docker0", "br-1a2b", "veth12", "tun0", "tap0", "vmnet8"] {
        assert!(is_virtual_interface(true, path, Some(name), physical), "{name}");
    }
    for name in ["lo0", "eth0", "wlan0", "br", "dock", "enp3s0"] {
        assert!(!is_virtual_interface(true, path, Some(name), physical), "{name}");
    }
}

#[test]
fn addresses_come_from_the_last_physical_interfaces() {
    let interface = |mac: [u8; 6], name: &str, kind: u16, wireless: bool| Interface {
        mac: Some(mac),
        has_device: true,
        canonical_path: Some(format!("/sys/devices/pci0000:00/net/{name}")),
        name: Some(name.to_string()),
        kind: Some(kind),
        wireless,
    };
    let ethernet = interface([0x3C, 0, 0, 0, 0, 1], "eth0", IFACE_TYPE_ETHERNET, false);
    let second_ethernet = interface([0x3C, 0, 0, 0, 0, 2], "eth1", IFACE_TYPE_ETHERNET, false);
    let wifi = interface([0x3C, 0, 0, 0, 0, 3], "wlan0", IFACE_TYPE_WIFI, true);
    let docker = interface([0x3C, 0, 0, 0, 0, 4], "docker0", IFACE_TYPE_ETHERNET, false);
    let wired_wifi_type = interface([0x3C, 0, 0, 0, 0, 5], "odd0", IFACE_TYPE_WIFI, false);
    let wireless_ethernet_type = interface([0x3C, 0, 0, 0, 0, 6], "odd1", IFACE_TYPE_ETHERNET, true);
    let unreadable = Interface { mac: None, ..ethernet.clone() };
    let untyped = Interface { kind: None, ..ethernet.clone() };

    assert_eq!(ethernet.role(), Role::Ethernet);
    assert_eq!(wifi.role(), Role::Wifi);
    for unused in [&docker, &wired_wifi_type, &wireless_ethernet_type, &unreadable, &untyped] {
        assert_eq!(unused.role(), Role::Unused);
    }

    assert_eq!(get_mac_addresses(&vec![]), (None, None));
    assert_eq!(
        get_mac_addresses(&vec![docker.clone(), unreadable, untyped, wired_wifi_type]),
        (None, None)
    );
    assert_eq!(
        get_mac_addresses(&vec![
            ethernet,
            wifi,
            docker,
            second_ethernet,
            wireless_ethernet_type
        ]),
        (Some([0x3C, 0, 0, 0, 0, 3]), Some([0x3C, 0, 0, 0, 0, 2]))
    );
}

fn adapter(last: u8, kind: u32, physical_medium: i32) -> AdapterRow {
    let mut physical_address = [0xEE; 32];
    physical_address[..6].copy_from_slice(&[0x3C, 1, 2, 3, 4, last]);
    AdapterRow {
        oper_status: OPER_STATUS_UP,
        physical_address_length: 6,
        physical_address,
        kind,
        physical_medium,
    }
}

#[test]
fn adapter_address_needs_an_interface_that_is_up() {
    let row = adapter(9, ADAPTER_TYPE_ETHERNET, PHYSICAL_MEDIUM_ETHERNET);
    assert_eq!(extract_mac_from_row(&row), Some([0x3C, 1, 2, 3, 4, 9]));
    assert_eq!(row.role(), Role::Ethernet);

    let down = AdapterRow { oper_status: 2, ..row };
    assert_eq!(extract_mac_from_row(&down), None);
    assert_eq!(down.role(), Role::Unused);

    for length in [0, 5, 7, 8, 32] {
        let odd = AdapterRow { physical_address_length: length, ..row };
        assert_eq!(extract_mac_from_row(&odd), None);
    }
}

#[test]
fn adapters_give_the_last_wireless_and_ethernet_address() {
    let ethernet = adapter(1, ADAPTER_TYPE_ETHERNET, PHYSICAL_MEDIUM_ETHERNET);
    let second_ethernet = adapter(2, ADAPTER_TYPE_ETHERNET, PHYSICAL_MEDIUM_ETHERNET);
    let wifi = adapter(3, ADAPTER_TYPE_WIFI, PHYSICAL_MEDIUM_WIFI);
    let mixed = adapter(4, ADAPTER_TYPE_WIFI, PHYSICAL_MEDIUM_ETHERNET);
    let other = adapter(5, ADAPTER_TYPE_ETHERNET, PHYSICAL_MEDIUM_WIFI);
    let down = AdapterRow { oper_status: 2, ..adapter(6, ADAPTER_TYPE_WIFI, PHYSICAL_MEDIUM_WIFI) };

    assert_eq!(wifi.role(), Role::Wifi);
    assert_eq!(mixed.role(), Role::Unused);
    assert_eq!(other.role(), Role::Unused);
    assert_eq!(process_adapter(&vec![]), (None, None));
    assert_eq!(process_adapter(&vec![mixed, other, down]), (None, None));
    assert_eq!(
        process_adapter(&vec![ethernet, wifi, mixed, second_ethernet, down]),
        (Some([0x3C, 1, 2, 3, 4, 3]), Some([0x3C, 1, 2, 3, 4, 2]))
    );
}
