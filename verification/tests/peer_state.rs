use reprise_p2p::udp::peer_state::{PeerState, PeerStateKind};

const MS: u64 = 1_000_000;
const SEC: u64 = 1_000_000_000;

#[test]
fn new_peer_is_asked_for() {
    let s = PeerState::default();
    assert!(s.is_server_discovery_enabled(0));
    assert!(!s.is_local_discovery_enabled(0));
    assert_eq!(s.failure_retry_timeout, 100 * MS);
}

#[test]
fn retry_timeouts_grow_to_five_seconds() {
    let mut s = PeerState::default();
    let mut now = 10 * SEC;
    for expected in [100, 200, 400, 800, 1600, 2600, 3600, 4600, 5000, 5000] {
        assert_eq!(s.failure_retry_timeout, expected * MS);
        s.on_hole_punch_err(now);
        assert_eq!(s.state_kind, PeerStateKind::DisabledUntil(now + expected * MS));
        assert!(!s.is_server_discovery_enabled(now + expected * MS));
        assert!(s.is_server_discovery_enabled(now + expected * MS + 1));
        now += 10 * SEC;
    }
    s.on_connection_established();
    assert_eq!(s.failure_retry_timeout, 100 * MS);
}

#[test]
fn session_is_accepted_once() {
    let mut s = PeerState::default();
    assert!(s.on_new_connection_request(5));
    let before = s;
    assert!(!s.on_new_connection_request(5));
    assert_eq!(s, before);
    assert!(s.on_new_connection_request(6));
    assert!(s.on_new_connection_request(5));
}

#[test]
fn connection_stops_discovery_until_it_is_resumed() {
    let mut s = PeerState::default();
    assert!(s.on_new_connection_request(5));
    s.on_connection_established();
    assert!(!s.is_server_discovery_enabled(100 * SEC));
    s.on_error_same_ip(100 * SEC);
    assert!(!s.is_local_discovery_enabled(100 * SEC));
    s.resume_discovery();
    assert!(s.is_server_discovery_enabled(100 * SEC));
}

#[test]
fn equal_address_starts_local_discovery_for_six_seconds() {
    let mut s = PeerState::default();
    s.on_error_same_ip(SEC);
    assert!(s.is_local_discovery_enabled(SEC));
    assert!(s.is_local_discovery_enabled(7 * SEC - 1));
    assert!(!s.is_local_discovery_enabled(7 * SEC));
    assert!(!s.is_server_discovery_enabled(7 * SEC - 1));
    assert!(s.is_server_discovery_enabled(7 * SEC));
    s.on_error_same_ip(SEC);
    assert!(s.on_new_connection_request(1));
    assert!(!s.is_local_discovery_enabled(SEC));
}
