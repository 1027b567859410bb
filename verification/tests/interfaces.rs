use libarp::error::ArpError;
use libarp::interfaces::{Interface, Ipv4Addr, MacAddr};

fn interface(name: &str, up: bool, loopback: bool, addresses: &[Ipv4Addr]) -> Interface {
    Interface {
        name: name.to_string(),
        mac: Some(MacAddr::new(2, 0, 0, 0, 0, name.len() as u8)),
        ipv4_addresses: addresses.to_vec(),
        is_up: up,
        is_loopback: loopback,
    }
}

fn typical_host() -> Vec<Interface> {
    vec![
        interface("lo", true, true, &[Ipv4Addr::new(127, 0, 0, 1)]),
        interface("eth0", false, false, &[Ipv4Addr::new(10, 0, 0, 7)]),
        interface("wlan0", true, false, &[]),
        interface("eth1", true, false, &[Ipv4Addr::new(10, 0, 0, 1)]),
        interface("eth2", true, false, &[Ipv4Addr::new(10, 0, 0, 9)]),
    ]
}

#[test]
fn mac_addr_new_keeps_the_octets() {
    let mac = MacAddr::new(0xdc, 0xa6, 0x32, 0x27, 0x5b, 0xd8);
    assert_eq!(mac, MacAddr(0xdc, 0xa6, 0x32, 0x27, 0x5b, 0xd8));
    assert_eq!((mac.0, mac.1, mac.2, mac.3, mac.4, mac.5), (0xdc, 0xa6, 0x32, 0x27, 0x5b, 0xd8));
}

#[test]
fn mac_addr_text_is_lowercase_colon_hex() {
    assert_eq!(
        MacAddr::new(0xdc, 0xa6, 0x32, 0x27, 0x5b, 0xd8).to_string(),
        "dc:a6:32:27:5b:d8"
    );
    assert_eq!(
        MacAddr::new(0xAA, 0xBB, 0xCC, 0xDD, 0xEE, 0xFF).to_string(),
        "aa:bb:cc:dd:ee:ff"
    );
}

#[test]
fn mac_addr_text_pads_small_octets() {
    assert_eq!(MacAddr::new(0, 1, 9, 10, 15, 16).to_string(), "00:01:09:0a:0f:10");
}

#[test]
fn mac_addr_placeholders() {
    assert_eq!(MacAddr::zero(), MacAddr::new(0, 0, 0, 0, 0, 0));
    assert_eq!(MacAddr::broadcast(), MacAddr::new(255, 255, 255, 255, 255, 255));
    assert_eq!(MacAddr::zero().to_string(), "00:00:00:00:00:00");
    assert_eq!(MacAddr::broadcast().to_string(), "ff:ff:ff:ff:ff:ff");
    assert!(MacAddr::zero().is_zero());
    assert!(!MacAddr::broadcast().is_zero());
    assert!(!MacAddr::new(0, 0, 0, 0, 0, 1).is_zero());
    assert!(!MacAddr::new(1, 0, 0, 0, 0, 0).is_zero());
}

#[test]
fn ipv4_addr_new_keeps_the_octets() {
    assert_eq!(Ipv4Addr::new(10, 0, 0, 2), Ipv4Addr(10, 0, 0, 2));
    assert_eq!(Ipv4Addr::unspecified(), Ipv4Addr(0, 0, 0, 0));
}

#[test]
fn guess_takes_the_first_usable_interface() {
    let selected = Interface::new(typical_host()).unwrap();
    assert_eq!(selected.name, "eth1");
    assert_eq!(selected, typical_host()[3]);
    assert_eq!(Interface::get_interface_by_guess(&typical_host()), Some(3));
}

#[test]
fn guess_is_the_same_every_time() {
    let first = Interface::new(typical_host());
    for _ in 0..5 {
        assert_eq!(Interface::new(typical_host()), first);
    }
}

#[test]
fn guess_follows_the_order_of_the_list() {
    let mut interfaces = typical_host();
    interfaces.reverse();
    assert_eq!(Interface::new(interfaces).unwrap().name, "eth2");
}

#[test]
fn guess_skips_loopback_down_and_unaddressed() {
    let interfaces = vec![
        interface("lo", true, true, &[Ipv4Addr::new(127, 0, 0, 1)]),
        interface("down", false, false, &[Ipv4Addr::new(10, 0, 0, 7)]),
        interface("bare", true, false, &[]),
    ];
    assert_eq!(Interface::get_interface_by_guess(&interfaces), None);
    assert_eq!(Interface::new(interfaces), Err(ArpError::NotConnected));
}

#[test]
fn guess_on_no_interfaces_is_not_connected() {
    assert_eq!(Interface::new(Vec::new()), Err(ArpError::NotConnected));
    assert_eq!(Interface::get_interface_by_guess(&Vec::new()), None);
}

#[test]
fn guess_does_not_need_a_link_address() {
    let mut candidate = interface("tun0", true, false, &[Ipv4Addr::new(10, 8, 0, 1)]);
    candidate.mac = None;
    let selected = Interface::new(vec![candidate.clone()]).unwrap();
    assert_eq!(selected, candidate);
}

#[test]
fn by_name_takes_the_exact_name() {
    let selected = Interface::new_by_name(typical_host(), "eth0").unwrap();
    assert_eq!(selected, typical_host()[1]);
    assert_eq!(Interface::get_interface_by_name(&typical_host(), "eth0"), Some(1));
    assert_eq!(Interface::get_interface_by_name(&typical_host(), "lo"), Some(0));
}

#[test]
fn by_name_does_not_look_at_the_flags() {
    let selected = Interface::new_by_name(typical_host(), "lo").unwrap();
    assert!(selected.is_loopback);
    let selected = Interface::new_by_name(typical_host(), "wlan0").unwrap();
    assert!(selected.ipv4_addresses.is_empty());
}

#[test]
fn by_name_first_match_wins() {
    let interfaces = vec![
        interface("eth0", true, false, &[Ipv4Addr::new(10, 0, 0, 1)]),
        interface("eth0", true, false, &[Ipv4Addr::new(10, 0, 0, 2)]),
    ];
    let selected = Interface::new_by_name(interfaces, "eth0").unwrap();
    assert_eq!(selected.ipv4_addresses, vec![Ipv4Addr::new(10, 0, 0, 1)]);
}

#[test]
fn by_name_fails_when_absent() {
    assert_eq!(Interface::new_by_name(typical_host(), "eth"), None);
    assert_eq!(Interface::new_by_name(typical_host(), "eth00"), None);
    assert_eq!(Interface::new_by_name(typical_host(), "ETH0"), None);
    assert_eq!(Interface::new_by_name(typical_host(), ""), None);
    assert_eq!(Interface::new_by_name(Vec::new(), "eth0"), None);
    assert_eq!(Interface::get_interface_by_name(&typical_host(), "enx00e04ca9cd19"), None);
}

#[test]
fn get_ip_is_the_first_address() {
    let iface = interface(
        "eth0",
        true,
        false,
        &[Ipv4Addr::new(10, 0, 0, 1), Ipv4Addr::new(192, 168, 0, 1)],
    );
    assert_eq!(iface.get_ip(), Ok(Ipv4Addr::new(10, 0, 0, 1)));
}

#[test]
fn get_ip_without_address_is_not_available() {
    let iface = interface("eth0", true, false, &[]);
    assert_eq!(iface.get_ip(), Err(ArpError::AddrNotAvailable));
}

#[test]
fn get_ip_can_return_the_zero_address() {
    let iface = interface("eth0", true, false, &[Ipv4Addr::new(0, 0, 0, 0)]);
    assert_eq!(iface.get_ip(), Ok(Ipv4Addr::new(0, 0, 0, 0)));
}

#[test]
fn get_mac_returns_the_link_address() {
    let mut iface = interface("eth0", true, false, &[]);
    iface.mac = Some(MacAddr::new(0xdc, 0xa6, 0x32, 0x27, 0x5b, 0xd8));
    assert_eq!(iface.get_mac(), Ok(MacAddr::new(0xdc, 0xa6, 0x32, 0x27, 0x5b, 0xd8)));
}

#[test]
fn get_mac_without_address_is_not_available() {
    let mut iface = interface("eth0", true, false, &[]);
    iface.mac = None;
    assert_eq!(iface.get_mac(), Err(ArpError::AddrNotAvailable));
}

#[test]
fn clone_keeps_every_field() {
    let iface = interface(
        "eth0",
        true,
        false,
        &[Ipv4Addr::new(10, 0, 0, 1), Ipv4Addr::new(192, 168, 0, 1)],
    );
    assert_eq!(iface.clone(), iface);
    let lo = interface("lo", false, true, &[]);
    assert_eq!(lo.clone(), lo);
}
