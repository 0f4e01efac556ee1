use reprise_p2p::net::{Ipv4Addr, SocketAddr, SocketAddrV4};
use reprise_p2p::udp::hole_punch::{HolePunch, HolePunchError, PunchAction};

const MS: u64 = 1_000_000;

fn addr(port: u16) -> SocketAddrV4 {
    SocketAddrV4 { ip: Ipv4Addr::new(1, 2, 3, 4), port }
}

#[test]
fn packets() {
    let h = HolePunch::new(SocketAddr::V4(addr(5)), 0);
    let (to, bytes) = h.on_tick();
    assert_eq!(to, SocketAddr::V4(addr(5)));
    assert_eq!(bytes, b"punch".to_vec());
    let mut h = h;
    let (to, bytes) = h.on_packet(SocketAddr::V4(addr(6)), b"punch").unwrap();
    assert_eq!(to, SocketAddr::V4(addr(6)));
    assert_eq!(bytes, b"punch ack".to_vec());
    assert_eq!(h.on_tick().0, SocketAddr::V4(addr(6)));
    assert!(h.on_packet(SocketAddr::V4(addr(6)), b"punch ack").is_none());
    assert!(h.on_packet(SocketAddr::V4(addr(6)), b"other").is_none());
}

#[test]
fn punched_hole_ends_at_the_actual_address() {
    let mut h = HolePunch::new(SocketAddr::V4(addr(5)), 0);
    assert_eq!(h.poll(MS), PunchAction::Exchange { until: 500 * MS });
    h.on_packet(SocketAddr::V4(addr(5)), b"punch ack");
    assert_eq!(h.poll(2 * MS), PunchAction::Exchange { until: 500 * MS });
    let mut g = h;
    g.on_packet(SocketAddr::V4(addr(66)), b"punch");
    assert_eq!(g.on_tick().0, SocketAddr::V4(addr(66)));
    g.on_packet(SocketAddr::V4(addr(77)), b"punch");
    assert_eq!(g.on_tick().0, SocketAddr::V4(addr(77)));
    h.on_packet(SocketAddr::V4(addr(77)), b"punch");
    assert_eq!(h.poll(10 * MS), PunchAction::Drain { until: 210 * MS });
    h.on_packet(SocketAddr::V4(addr(99)), b"punch");
    assert_eq!(h.poll(209 * MS), PunchAction::Drain { until: 210 * MS });
    assert_eq!(h.poll(210 * MS), PunchAction::Settle { millis: 200 });
    assert_eq!(h.poll(410 * MS), PunchAction::Done(SocketAddr::V4(addr(77))));
}

#[test]
fn success_is_not_undone_by_the_deadline() {
    let mut h = HolePunch::new(SocketAddr::V4(addr(5)), 0);
    h.on_packet(SocketAddr::V4(addr(5)), b"punch");
    h.on_packet(SocketAddr::V4(addr(5)), b"punch ack");
    assert_eq!(h.poll(600 * MS), PunchAction::Drain { until: 800 * MS });
}

#[test]
fn missing_packets_fail_at_the_deadline() {
    for (punch, ack, text) in [
        (false, false, "Did not receive packets from client at all!"),
        (false, true, "We got ack from client, but missed punch packet (strange)"),
        (true, false, "We got punch but did not receive ack"),
    ] {
        let mut h = HolePunch::new(SocketAddr::V4(addr(5)), 0);
        if punch {
            h.on_packet(SocketAddr::V4(addr(5)), b"punch");
        }
        if ack {
            h.on_packet(SocketAddr::V4(addr(5)), b"punch ack");
        }
        assert_eq!(h.poll(500 * MS - 1), PunchAction::Exchange { until: 500 * MS });
        let error = HolePunchError { got_punch: punch, got_ack: ack };
        assert_eq!(h.poll(500 * MS), PunchAction::Failed(error));
        assert_eq!(error.message(), text);
    }
}
