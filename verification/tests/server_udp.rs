use ed25519_dalek::{Signer, SigningKey};
use reprise_p2p::net::{Ipv4Addr, SocketAddr, SocketAddrV4, SocketAddrV6};
use reprise_p2p::server::udp::{message_is_fresh, Reaction, UdpEvent, UdpState};
use reprise_p2p::time::UtcTime;
use reprise_p2p::udp::messages::ToServerSignedMessage;
use reprise_p2p::udp::notices::ServerNotice;

const SEC: u64 = 1_000_000_000;
const A: [u8; 32] = [1; 32];
const B: [u8; 32] = [2; 32];
const C: [u8; 32] = [3; 32];

fn addr(last: u8) -> SocketAddrV4 {
    SocketAddrV4 { ip: Ipv4Addr::new(5, 6, 7, last), port: 1000 }
}

fn introductions(mail: &[(SocketAddrV4, ServerNotice)]) -> Vec<(SocketAddrV4, [u8; 32], SocketAddrV4, u32, bool)> {
    let mut r = Vec::new();
    for (to, notice) in mail {
        match notice {
            ServerNotice::InitiateConnectionRequest {
                peer_pubkey,
                peer_address,
                remote_session_id,
                is_listener,
            } => r.push((*to, *peer_pubkey, *peer_address, *remote_session_id, *is_listener)),
            _ => panic!("no introduction"),
        }
    }
    r
}

#[test]
fn mutual_requests_are_introduced() {
    let mut s = UdpState::new();
    assert!(s.on_connection_request(A, addr(1), vec![C, B], 11, 0).is_empty());
    let mail = s.on_connection_request(B, addr(2), vec![A], 22, SEC);
    assert_eq!(
        introductions(&mail),
        vec![(addr(1), B, addr(2), 22, false), (addr(2), A, addr(1), 11, true)]
    );
    // both requests are gone
    assert!(s.on_connection_request(C, addr(3), vec![A, B], 33, SEC).is_empty());
}

#[test]
fn one_sided_requests_wait() {
    let mut s = UdpState::new();
    assert!(s.on_connection_request(A, addr(1), vec![C], 11, 0).is_empty());
    assert!(s.on_connection_request(B, addr(2), vec![A], 22, 0).is_empty());
}

#[test]
fn later_request_replaces_earlier_one() {
    let mut s = UdpState::new();
    assert!(s.on_connection_request(A, addr(1), vec![B], 11, 0).is_empty());
    assert!(s.on_connection_request(A, addr(1), vec![C], 12, 0).is_empty());
    assert!(s.on_connection_request(B, addr(2), vec![A], 22, 0).is_empty());
    let mail = s.on_connection_request(C, addr(3), vec![A], 33, 0);
    assert_eq!(
        introductions(&mail),
        vec![(addr(1), C, addr(3), 33, false), (addr(3), A, addr(1), 12, true)]
    );
}

#[test]
fn first_partner_of_the_list_is_chosen() {
    let mut s = UdpState::new();
    assert!(s.on_connection_request(A, addr(1), vec![C], 11, 0).is_empty());
    assert!(s.on_connection_request(B, addr(2), vec![C], 22, 0).is_empty());
    let mail = s.on_connection_request(C, addr(3), vec![B, A], 33, 0);
    assert_eq!(introductions(&mail)[0], (addr(2), C, addr(3), 33, false));
    // the request of the other one still waits
    let mail = s.on_connection_request(C, addr(3), vec![A], 34, 0);
    assert_eq!(introductions(&mail)[0], (addr(1), C, addr(3), 34, false));
}

#[test]
fn equal_addresses_are_reported_to_both() {
    let mut s = UdpState::new();
    assert!(s.on_connection_request(A, addr(1), vec![B], 11, 0).is_empty());
    let mail = s.on_connection_request(B, addr(1), vec![A], 22, 0);
    assert_eq!(mail.len(), 2);
    match (&mail[0], &mail[1]) {
        (
            (to_a, ServerNotice::ErrorSameIp { peer_pubkey: first }),
            (to_b, ServerNotice::ErrorSameIp { peer_pubkey: second }),
        ) => {
            assert_eq!((*to_a, *first), (addr(1), B));
            assert_eq!((*to_b, *second), (addr(1), A));
        }
        _ => panic!("no report"),
    }
    // the request of the sender waits, that of the peer is gone
    let mail = s.on_connection_request(A, addr(9), vec![B], 12, 0);
    assert_eq!(introductions(&mail)[0], (addr(1), A, addr(9), 12, false));
}

#[test]
fn equal_ip_addresses_with_other_ports_are_reported_to_both() {
    let mut s = UdpState::new();
    let (first, second) = (addr(1), SocketAddrV4 { port: 2000, ..addr(1) });
    assert!(s.on_connection_request(B, first, vec![A], 22, 0).is_empty());
    let mail = s.on_connection_request(A, second, vec![B], 11, 0);
    assert_eq!(mail.len(), 2);
    assert_eq!((mail[0].0, mail[1].0), (first, second));
    assert!(matches!(mail[0].1, ServerNotice::ErrorSameIp { peer_pubkey: A }));
    assert!(matches!(mail[1].1, ServerNotice::ErrorSameIp { peer_pubkey: B }));
}

#[test]
fn other_partner_is_found_after_an_equal_ip_address() {
    let mut s = UdpState::new();
    assert!(s.on_connection_request(A, addr(1), vec![C], 11, 0).is_empty());
    assert!(s.on_connection_request(B, addr(2), vec![C], 22, 0).is_empty());
    let mail = s.on_connection_request(C, addr(1), vec![A, B], 33, 0);
    assert_eq!(mail.len(), 4);
    assert!(matches!(mail[0].1, ServerNotice::ErrorSameIp { peer_pubkey: C }));
    assert!(matches!(mail[1].1, ServerNotice::ErrorSameIp { peer_pubkey: A }));
    assert_eq!(
        introductions(&mail[2..]),
        vec![(addr(2), C, addr(1), 33, false), (addr(1), B, addr(2), 22, true)]
    );
}

#[test]
fn sessions_are_used_up_by_an_introduction() {
    let mut s = UdpState::new();
    assert!(s.on_connection_request(A, addr(1), vec![B], 11, 0).is_empty());
    assert_eq!(s.on_connection_request(B, addr(2), vec![A], 22, 0).len(), 2);
    for (k, from, peer, session) in [(A, addr(1), B, 11), (B, addr(2), A, 22), (A, addr(7), B, 11)] {
        let mail = s.on_connection_request(k, from, vec![peer], session, 0);
        assert_eq!(mail.len(), 1);
        assert_eq!(mail[0].0, from);
        assert!(matches!(mail[0].1, ServerNotice::NeedNewSession { old_session_id } if old_session_id == session));
    }
    // none of these was stored, and other sessions are accepted, those of the partner among them
    assert!(s.on_connection_request(A, addr(1), vec![B], 22, 0).is_empty());
    assert_eq!(introductions(&s.on_connection_request(B, addr(2), vec![A], 23, 0)).len(), 2);
}

#[test]
fn cleanup_keeps_live_requests() {
    // a request of ten seconds ago still counts, one of eleven seconds does not
    let mut s = UdpState::new();
    assert!(s.on_connection_request(A, addr(1), vec![B], 11, 0).is_empty());
    assert!(s.on_connection_request(C, addr(3), vec![[9; 32]], 33, 5 * SEC).is_empty());
    s.cleanup(11 * SEC - 1);
    assert_eq!(s.on_connection_request(B, addr(2), vec![A], 22, 11 * SEC - 1).len(), 2);

    let mut s = UdpState::new();
    assert!(s.on_connection_request(A, addr(1), vec![B], 11, 0).is_empty());
    assert!(s.on_connection_request(C, addr(3), vec![[9; 32]], 33, 5 * SEC).is_empty());
    assert!(s.on_connection_request(B, addr(2), vec![A], 22, 11 * SEC).is_empty());
}

#[test]
fn cleanup_without_live_requests_keeps_all() {
    let mut s = UdpState::new();
    assert!(s.on_connection_request(A, addr(1), vec![B], 11, 0).is_empty());
    s.cleanup(100 * SEC);
    assert_eq!(s.on_connection_request(B, addr(2), vec![A], 22, 100 * SEC).len(), 2);
}

#[test]
fn messages_are_valid_for_ten_seconds() {
    let at = |millis: i64, nanos: u32| UtcTime { secs: millis / 1000, nanos: (millis % 1000) as u32 * 1_000_000 + nanos };
    let t = 1_000_000;
    assert!(message_is_fresh(t, at(t, 0)));
    assert!(message_is_fresh(t, at(t + 10_000, 0)));
    assert!(!message_is_fresh(t, at(t + 10_000, 1)));
    assert!(message_is_fresh(t, at(t - 10_000, 0)));
    assert!(!message_is_fresh(t, at(t - 10_001, 999_999)));
}

fn datagram(secret: &[u8; 32], peers: Vec<[u8; 32]>, session_id: u32) -> Vec<u8> {
    ToServerSignedMessage::ConnectionRequest { peer_pubkeys: peers, session_id }.to_bytes(secret)
}

#[test]
fn datagrams_lead_to_an_introduction() {
    let (x, y) = ([21; 32], [22; 32]);
    let key = |s: &[u8; 32]| SigningKey::from_bytes(s).verifying_key().to_bytes();
    let mut s = UdpState::new();
    let first = UdpEvent::Datagram { from: SocketAddr::V4(addr(1)), bytes: datagram(&x, vec![key(&y)], 1) };
    assert!(matches!(s.step(first, 0), Reaction::Send(mail) if mail.is_empty()));
    let second = UdpEvent::Datagram { from: SocketAddr::V4(addr(2)), bytes: datagram(&y, vec![key(&x)], 2) };
    match s.step(second, 0) {
        Reaction::Send(mail) => assert_eq!(
            introductions(&mail),
            vec![(addr(1), key(&y), addr(2), 2, false), (addr(2), key(&x), addr(1), 1, true)]
        ),
        _ => panic!("no introduction"),
    }
}

#[test]
fn old_messages_are_ignored() {
    let bytes = ToServerSignedMessage::ConnectionRequest { peer_pubkeys: vec![A], session_id: 1 }
        .to_bytes_at(&[21; 32], 1_000_000);
    let mut s = UdpState::new();
    let event = || UdpEvent::Datagram { from: SocketAddr::V4(addr(1)), bytes: bytes.clone() };
    assert!(matches!(s.step(event(), 0), Reaction::Ignore));
    let utc = UtcTime { secs: 1005, nanos: 0 };
    assert!(matches!(s.step_at(event(), 0, utc), Reaction::Send(_)));
}

#[test]
fn other_events() {
    let mut s = UdpState::new();
    assert!(matches!(s.step(UdpEvent::ReceiveFailed, 0), Reaction::Pause(20)));
    assert!(matches!(s.step(UdpEvent::Shutdown, 0), Reaction::Stop));
    let v6 = SocketAddr::V6(SocketAddrV6 { ip: 1, port: 2, flowinfo: 0, scope_id: 0 });
    assert!(matches!(s.step(UdpEvent::Datagram { from: v6, bytes: vec![] }, 0), Reaction::Ignore));
    assert!(matches!(s.step(UdpEvent::Ping { from: v6, payload: 3 }, 0), Reaction::Ignore));
    let from = SocketAddr::V4(addr(1));
    assert!(matches!(s.step(UdpEvent::Datagram { from, bytes: vec![] }, 0), Reaction::Pause(20)));
    match s.step(UdpEvent::Ping { from, payload: 3 }, 0) {
        Reaction::Send(mail) => {
            assert_eq!(mail.len(), 1);
            assert_eq!(mail[0].0, addr(1));
            assert!(matches!(mail[0].1, ServerNotice::Pong { payload: 3 }));
        }
        _ => panic!("no pong"),
    }
}

#[test]
fn bad_datagrams_make_the_server_pause() {
    let secret = [21; 32];
    let mut unsigned = datagram(&secret, vec![A], 1);
    unsigned[20] ^= 1;
    let not_understood = datagram(&secret, vec![], 1);
    // two keys are announced, and one is there
    let payload = [&[1, 0, 0, 0, 0, 2][..], &[0; 32][..]].concat();
    let timestamp = 1_000_000i64.to_le_bytes();
    let key = SigningKey::from_bytes(&secret);
    let content = [&timestamp[..], &payload[..]].concat();
    let cut_short = [
        &[1, 2][..],
        &timestamp[..],
        &key.sign(&content).to_bytes()[..],
        &key.verifying_key().to_bytes()[..],
        &payload[..],
    ]
    .concat();
    let from = SocketAddr::V4(addr(1));
    let utc = UtcTime { secs: 1000, nanos: 0 };
    let mut s = UdpState::new();
    for bytes in [unsigned, not_understood, cut_short] {
        assert!(matches!(s.step_at(UdpEvent::Datagram { from, bytes }, 0, utc), Reaction::Pause(20)));
    }
    // the server goes on
    let bytes = datagram(&secret, vec![A], 1);
    assert!(matches!(s.step(UdpEvent::Datagram { from, bytes }, 0), Reaction::Send(_)));
}
