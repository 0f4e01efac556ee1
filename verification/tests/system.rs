use reprise_p2p::clock::{parse_answer, system_time_error};
use reprise_p2p::config::ServerConfig;
use reprise_p2p::interfaces::{
    best_interface, first_interface, Interface, InterfaceAddr, InterfaceChange, P2pInterfaceTracker,
};
use reprise_p2p::keys::{key_order, KeyMap, KeyOrder};
use reprise_p2p::net::Ipv4Addr;

#[test]
fn default_ports() {
    let udp = ServerConfig::udp_only();
    assert_eq!((udp.udp_handler_port, udp.tcp_handler_port), (Some(47002), None));
    let tcp = ServerConfig::tcp_only();
    assert_eq!((tcp.udp_handler_port, tcp.tcp_handler_port), (None, Some(47002)));
    let both = ServerConfig::default();
    assert_eq!((both.udp_handler_port, both.tcp_handler_port), (Some(47002), Some(47002)));
}

fn interface(name: &str, last: u8) -> Interface {
    Interface {
        name: name.to_string(),
        is_p2p: false,
        addr: InterfaceAddr::V4 { ip: Ipv4Addr::new(10, 0, 0, last), prefixlen: 24 },
    }
}

#[test]
fn virtual_interfaces_are_skipped() {
    for name in [
        "lo", "docker0", "br-1", "veth2", "tun0", "tap0", "wg0", "tailscale0", "amn0",
        "AmneziaVPN", "Tailscale", "ZeroTier One", "outline-tap0",
    ] {
        assert!(!interface(name, 1).eligible(), "{}", name);
    }
    assert!(interface("eth0", 1).eligible());
    assert!(interface("", 1).eligible());
    assert!(!Interface { is_p2p: true, ..interface("eth0", 1) }.eligible());
    assert!(!Interface { addr: InterfaceAddr::V6, ..interface("eth0", 1) }.eligible());
    let single = InterfaceAddr::V4 { ip: Ipv4Addr::new(10, 0, 0, 1), prefixlen: 32 };
    assert!(!Interface { addr: single, ..interface("eth0", 1) }.eligible());
}

#[test]
fn wired_before_wireless_before_unknown() {
    for (name, expected) in [
        ("enp3s0", 3), ("eth0", 3), ("Ethernet 2", 3), ("wlp4s0", 2), ("Wireless", 2), ("usb0", 1), ("e", 1),
    ] {
        assert_eq!(interface(name, 1).priority(), expected);
    }
}

#[test]
fn best_interface_is_chosen_by_name_and_address() {
    let list = vec![
        interface("usb0", 9),
        interface("wlan0", 7),
        interface("eth0", 3),
        interface("docker0", 99),
        interface("eth1", 5),
        interface("eth2", 5),
        interface("eth3", 4),
    ];
    assert_eq!(best_interface(&list), Some(4));
    assert_eq!(first_interface(&list), Some(2));
    assert_eq!(best_interface(&vec![interface("lo", 1)]), None);
    assert_eq!(first_interface(&vec![]), None);
    let reversed = vec![interface("eth1", 5), interface("eth0", 3), interface("wlan0", 7)];
    assert_eq!(best_interface(&reversed), Some(0));
}

#[test]
fn addresses_are_compared_from_the_left() {
    let at = |a, b, c, d| Interface {
        addr: InterfaceAddr::V4 { ip: Ipv4Addr::new(a, b, c, d), prefixlen: 24 },
        ..interface("eth0", 0)
    };
    let list = vec![at(10, 0, 0, 255), at(10, 0, 1, 0), at(9, 255, 255, 255)];
    assert_eq!(best_interface(&list), Some(1));
}

#[test]
fn tracker_reports_changes() {
    let mut t = P2pInterfaceTracker::new();
    let wired = vec![interface("eth0", 1)];
    let wireless = vec![interface("wlan0", 1)];
    assert_eq!(t.current_interface(&vec![]), (None, InterfaceChange::Same));
    assert_eq!(t.current_interface(&wired), (Some(0), InterfaceChange::Selected));
    assert_eq!(t.current_interface(&wired), (Some(0), InterfaceChange::Same));
    assert_eq!(t.current_interface(&vec![]), (None, InterfaceChange::Same));
    assert_eq!(t.current_tcp_interface(&wireless), (Some(0), InterfaceChange::Changed));
}

#[test]
fn time_service_answers() {
    assert_eq!(parse_answer("{\"unix_timestamp\":1700000000}"), Some(1_700_000_000));
    assert_eq!(parse_answer("{\"unix_timestamp\":-5}"), Some(-5));
    assert_eq!(parse_answer("{\"unix_timestamp\":+5}"), Some(5));
    assert_eq!(parse_answer("{\"unix_timestamp\":9223372036854775807}"), Some(i64::MAX));
    assert_eq!(parse_answer("{\"unix_timestamp\":-9223372036854775808}"), Some(i64::MIN));
    for text in [
        "",
        "}",
        "{\"unix_timestamp\":",
        "{\"unix_timestamp\":}",
        "{\"unix_timestamp\":-}",
        "{\"unix_timestamp\":1 }",
        "{\"unix_timestamp\": 1}",
        "{\"unix_timestamp\":1",
        "{\"unix_timestamp\":--1}",
        "{\"unix_timestamp\":1.5}",
        "{\"unix_timestamp\":9223372036854775808}",
        "{\"unix_timestamp\":-9223372036854775809}",
        "{\"unix_timestamp\":99999999999999999999999999}",
        "{\"unix_timestamps\":1}",
    ] {
        assert_eq!(parse_answer(text), None, "{}", text);
    }
}

#[test]
fn clock_may_be_off_by_five_seconds() {
    let answer = "{\"unix_timestamp\":1000}";
    assert_eq!(system_time_error(answer, 1005), None);
    assert_eq!(system_time_error(answer, 995), None);
    assert_eq!(system_time_error(answer, 1006), Some(6));
    assert_eq!(system_time_error(answer, 994), Some(-6));
    assert_eq!(system_time_error("nonsense", 0), None);
    let far = "{\"unix_timestamp\":-9223372036854775808}";
    assert_eq!(system_time_error(far, i64::MAX), Some(u64::MAX as i128));
}

#[test]
fn keys_are_ordered_by_their_bytes() {
    let mut low = [5; 32];
    low[31] = 4;
    assert_eq!(key_order(&low, &[5; 32]), KeyOrder::Below);
    assert_eq!(key_order(&[6; 32], &low), KeyOrder::Above);
    assert_eq!(key_order(&low, &low), KeyOrder::Same);
    let mut m = KeyMap::new();
    for k in [3u8, 1, 2, 1] {
        m.insert([k; 32], k as u32 * 10);
    }
    assert_eq!(m.len(), 3);
    for i in 0..3 {
        assert_eq!(m.key_at(i), [i as u8 + 1; 32]);
    }
    assert_eq!(m.get(&[2; 32]), Some(&20));
    assert_eq!(m.remove(&[2; 32]), Some(20));
    assert_eq!(m.remove(&[2; 32]), None);
    assert!(!m.contains(&[2; 32]));
    assert_eq!(m.remove_at(1), 30);
    assert_eq!(*m.value_at(0), 10);
}
