use ed25519_dalek::SigningKey;
use reprise_p2p::keys::KeyMap;
use reprise_p2p::net::{Ipv4Addr, SocketAddr, SocketAddrV4};
use reprise_p2p::udp::client::local_discovery::{is_local_discovery_enabled_for, read_hello, write_hello};
use reprise_p2p::udp::client::poll::{
    NewP2pConnection, Outcome, PollAction, PollError, PunchOrigin, PunchTarget, Received,
};
use reprise_p2p::udp::client::{limit_remotes, UdpConnectionEstablisher};
use reprise_p2p::udp::hole_punch::HolePunchError;
use reprise_p2p::udp::messages::{FromServerMessage, ParseError, ToServerSignedMessage};
use reprise_p2p::udp::notices::ServerNotice;
use reprise_p2p::udp::peer_state::PeerState;

const SEC: u64 = 1_000_000_000;
const SECRET: [u8; 32] = [42; 32];
const A: [u8; 32] = [1; 32];
const B: [u8; 32] = [2; 32];
const C: [u8; 32] = [3; 32];

fn addr(last: u8) -> SocketAddrV4 {
    SocketAddrV4 { ip: Ipv4Addr::new(9, 9, 9, last), port: 4000 }
}

fn server() -> SocketAddrV4 {
    addr(200)
}

fn client() -> UdpConnectionEstablisher {
    UdpConnectionEstablisher::with_session(SECRET, server(), false, None, 1000)
}

fn own_key() -> [u8; 32] {
    SigningKey::from_bytes(&SECRET).verifying_key().to_bytes()
}

fn initiate(peer: [u8; 32], session: u32) -> ServerNotice {
    ServerNotice::InitiateConnectionRequest {
        peer_pubkey: peer,
        peer_address: addr(7),
        remote_session_id: session,
        is_listener: true,
    }
}

fn target(peer: [u8; 32], session: u32) -> PunchTarget {
    let origin = PunchOrigin::Introduced { peer_address: addr(7), remote_session_id: session };
    PunchTarget { peer_pubkey: peer, origin, is_listener: true }
}

/// The peers and the session of the request that the client sends next.
fn next_request(c: &UdpConnectionEstablisher, now: u64) -> Option<(Vec<[u8; 32]>, u32)> {
    match c.request_turn(now) {
        PollAction::SendRequest { to, bytes } => {
            assert_eq!(to, server());
            match ToServerSignedMessage::try_parse(&bytes) {
                Ok((ToServerSignedMessage::ConnectionRequest { peer_pubkeys, session_id }, from, _)) => {
                    assert_eq!(from, own_key());
                    Some((peer_pubkeys, session_id))
                }
                Err(e) => panic!("{:?}", e),
            }
        }
        PollAction::Finish(Outcome::Nothing { pause_ms: 100 }) => None,
        _ => panic!("no request"),
    }
}

fn is_nothing(a: PollAction) -> bool {
    matches!(a, PollAction::Finish(Outcome::Nothing { pause_ms: 0 }))
}

#[test]
fn trusted_peers_are_asked_for_in_order() {
    let mut c = client();
    assert_eq!(next_request(&c, 0), None);
    c.add_trusted_remote(C);
    c.add_trusted_remote(A);
    c.add_trusted_remote(C);
    assert_eq!(c.trusted_keys(), vec![A, C]);
    assert_eq!(next_request(&c, 0), Some((vec![A, C], 1000)));
    c.remove_trusted_remote(A);
    assert_eq!(next_request(&c, 0), Some((vec![C], 1000)));
}

#[test]
fn trusted_list_is_set_exactly() {
    let mut c = client();
    c.set_trusted_remote_list(vec![B, A, B]);
    assert_eq!(c.trusted_keys(), vec![A, B]);
    // peers that stay keep their states
    assert!(matches!(c.on_notice_with(initiate(A, 5), 2000, 0), PollAction::Punch(_)));
    c.on_punched(target(A, 5), Ok(SocketAddr::V4(addr(7))), 0);
    c.set_trusted_remote_list(vec![A, C]);
    assert_eq!(c.trusted_keys(), vec![A, C]);
    assert_eq!(next_request(&c, 0), Some((vec![C], 2000)));
    c.remove_trusted_remote(A);
    c.add_trusted_remote(A);
    assert_eq!(next_request(&c, 0), Some((vec![A, C], 2000)));
}

#[test]
fn requests_are_due_after_changes() {
    let mut c = client();
    c.add_trusted_remote(A);
    let due = |c: &mut UdpConnectionEstablisher, now| {
        matches!(c.on_ping_sent(1, false, now), PollAction::PlaceRequest)
    };
    assert!(due(&mut c, 0));
    assert!(matches!(c.on_request_sent(0), PollAction::Receive));
    assert!(!due(&mut c, 2 * SEC - 1));
    assert!(due(&mut c, 2 * SEC));
    c.add_trusted_remote(A);
    c.remove_trusted_remote(B);
    c.set_trusted_remote_list(vec![A]);
    assert!(!due(&mut c, 0));
    c.add_trusted_remote(B);
    assert!(due(&mut c, 0));
    c.on_request_sent(0);
    c.set_trusted_remote_list(vec![A]);
    assert!(due(&mut c, 0));
    c.on_request_sent(0);
    c.on_connection_closed(A);
    assert!(due(&mut c, 0));
}

#[test]
fn ten_peers_are_picked_for_one_request() {
    let mut c = client();
    for i in 0..10u8 {
        c.add_trusted_remote([i; 32]);
    }
    let ten: Vec<[u8; 32]> = (0..10u8).map(|i| [i; 32]).collect();
    assert_eq!(next_request(&c, 0), Some((ten.clone(), 1000)));
    assert_eq!(c.request_peers(0), ten);
    for n in [11u8, 60] {
        for i in 0..n {
            c.add_trusted_remote([i; 32]);
        }
        let (mut peers, session) = next_request(&c, 0).unwrap();
        assert_eq!(session, 1000);
        peers.sort();
        peers.dedup();
        assert_eq!(peers.len(), 10);
        assert!(peers.iter().all(|k| k[0] < n && *k == [k[0]; 32]));
    }
    // the odds that the same ten come in the same order each time are nil
    let first = c.request_peers(0);
    assert!((0..8).any(|_| c.request_peers(0) != first));
}

#[test]
fn request_without_peers_is_sent_but_not_understood() {
    match client().place_connection_requests(vec![]) {
        PollAction::SendRequest { to, bytes } => {
            assert_eq!(to, server());
            assert_eq!(bytes.len(), 112);
            assert_eq!(
                ToServerSignedMessage::try_parse(&bytes).err(),
                Some(ParseError::InvalidContentFormat)
            );
        }
        _ => panic!("no request"),
    }
    assert!(matches!(
        client().request_turn(0),
        PollAction::Finish(Outcome::Nothing { pause_ms: 100 })
    ));
}

#[test]
fn fifty_peers_are_picked_at_random() {
    let mut c = client();
    for i in 0..50u8 {
        c.add_trusted_remote([i; 32]);
    }
    let all: Vec<[u8; 32]> = (0..50u8).map(|i| [i; 32]).collect();
    assert_eq!(c.new_available_remotes_list(0), all);
    for i in 50..120u8 {
        c.add_trusted_remote([i; 32]);
    }
    let first = c.new_available_remotes_list(0);
    let mut sorted = first.clone();
    sorted.sort();
    sorted.dedup();
    assert_eq!(sorted.len(), 50);
    assert!(sorted.iter().all(|k| k[0] < 120 && *k == [k[0]; 32]));
    // the odds that the same fifty come in the same order again are nil
    assert_ne!(first, c.new_available_remotes_list(0));
    assert_eq!(limit_remotes(vec![A; 60], 50).len(), 50);
    assert_eq!(limit_remotes(vec![A, B, C], 2), vec![A, B]);
    assert_eq!(limit_remotes(vec![A, B], 50), vec![A, B]);
}

#[test]
fn poll_goes_through_its_steps() {
    let mut c = client();
    c.add_trusted_remote(A);
    assert!(matches!(c.begin_poll(None, 0), PollAction::AskServer));
    let payload = match c.server_turn(0) {
        PollAction::SendPing { payload } => payload,
        _ => panic!("no ping"),
    };
    assert!(matches!(c.on_ping_sent(payload, true, 0), PollAction::PlaceRequest));
    assert!(next_request(&c, 0).is_some());
    assert!(matches!(c.on_request_sent(0), PollAction::Receive));
    assert!(is_nothing(c.on_received(Received::TimedOut, 0)));
    // nothing is due a second later
    assert!(matches!(c.begin_poll(None, SEC), PollAction::AskServer));
    assert!(matches!(c.server_turn(SEC), PollAction::Receive));
    assert!(matches!(c.server_turn(4 * SEC - 1), PollAction::PlaceRequest));
    assert!(matches!(c.server_turn_with(9, 4 * SEC), PollAction::SendPing { payload: 9 }));
}

#[test]
fn other_interface_opens_new_sockets() {
    let mut c = client();
    assert!(matches!(c.begin_poll(Some("eth0".to_string()), 0), PollAction::Rebind));
    assert!(matches!(c.after_rebind(0), PollAction::AskServer));
    assert!(matches!(c.begin_poll(Some("eth0".to_string()), 0), PollAction::AskServer));
    assert!(matches!(c.begin_poll(None, 0), PollAction::Rebind));
}

#[test]
fn introduction_leads_to_a_connection() {
    let mut c = client();
    c.add_trusted_remote(A);
    let bytes = FromServerMessage::InitiateConnectionRequest {
        peer_pubkey: A,
        peer_address: addr(7),
        remote_session_id: 5,
        is_listener: true,
    }
    .to_bytes();
    let from = SocketAddr::V4(server());
    let found = match c.on_received_with(Received::Datagram { from, bytes }, 2000, 0) {
        PollAction::Punch(t) => t,
        _ => panic!("no hole punch"),
    };
    assert_eq!(found.peer_pubkey, A);
    assert_eq!(found.origin, PunchOrigin::Introduced { peer_address: addr(7), remote_session_id: 5 });
    assert_eq!(found.origin.peer_address(), SocketAddr::V4(addr(7)));
    match c.on_punched(found, Ok(SocketAddr::V4(addr(8))), 0) {
        PollAction::Finish(Outcome::Connected {
            connection: NewP2pConnection { pubkey, remote_addr, is_listener },
        }) => {
            assert_eq!(pubkey, A);
            assert_eq!(remote_addr, SocketAddr::V4(addr(8)));
            assert!(is_listener);
        }
        _ => panic!("not connected"),
    }
    assert_eq!(next_request(&c, 100 * SEC), None);
    assert!(is_nothing(c.on_notice(initiate(A, 6), 0)));
    c.on_connection_closed(A);
    assert_eq!(next_request(&c, 0), Some((vec![A], 2000)));
}

#[test]
fn failed_hole_punch_pauses_the_peer() {
    let mut c = client();
    c.add_trusted_remote(A);
    assert!(matches!(c.on_notice_with(initiate(A, 5), 2000, 0), PollAction::Punch(_)));
    let error = HolePunchError { got_punch: true, got_ack: false };
    match c.on_punched(target(A, 5), Err(error), SEC) {
        PollAction::Finish(Outcome::Failed { error: e, pause_ms }) => {
            assert_eq!(e, PollError::HolePunch { origin: target(A, 5).origin, error });
            assert_eq!(
                e.message(),
                "Handling InitiateConnectionRequest from p2p server for peer 9.9.9.7:4000, session_id=5"
            );
            assert_eq!(pause_ms, 100);
        }
        _ => panic!("no failure"),
    }
    assert_eq!(next_request(&c, SEC + SEC / 10), None);
    assert!(next_request(&c, SEC + SEC / 10 + 1).is_some());
    // the same session is not tried again
    assert!(is_nothing(c.on_notice(initiate(A, 5), 10 * SEC)));
    assert!(matches!(c.on_notice(initiate(A, 6), 10 * SEC), PollAction::Punch(_)));
}

#[test]
fn received_errors() {
    let mut c = client();
    let failed = |a: PollAction| match a {
        PollAction::Finish(Outcome::Failed { error, pause_ms: 100 }) => error,
        _ => panic!("no failure"),
    };
    assert_eq!(failed(c.on_received(Received::Failed, 0)), PollError::Receive);
    assert_eq!(failed(c.on_notice(initiate(A, 5), 0)), PollError::NotTrusted);
    let from = SocketAddr::V4(server());
    let garbage = Received::Datagram { from, bytes: vec![99] };
    assert_eq!(
        failed(c.on_received(garbage, 0)),
        PollError::Parse(ParseError::InvalidMessageId(99))
    );
    let stranger = Received::Datagram { from: SocketAddr::V4(addr(1)), bytes: vec![99] };
    assert!(is_nothing(c.on_received(stranger, 0)));
}

#[test]
fn session_is_renewed_on_demand() {
    let mut c = client();
    c.add_trusted_remote(A);
    let session = |c: &UdpConnectionEstablisher| next_request(c, 0).unwrap().1;
    assert!(is_nothing(c.on_notice_with(ServerNotice::NeedNewSession { old_session_id: 1 }, 5, 0)));
    assert_eq!(session(&c), 1000);
    assert!(is_nothing(c.on_notice_with(ServerNotice::NeedNewSession { old_session_id: 1000 }, 5, 0)));
    assert_eq!(session(&c), 5);
    let lost = ServerNotice::LostConnectionRequest { peer_pubkey: B, peer_address: addr(1) };
    assert!(is_nothing(c.on_notice_with(lost, 6, 0)));
    assert_eq!(session(&c), 6);
}

#[test]
fn random_sessions_differ() {
    let mut seen = Vec::new();
    for _ in 0..4 {
        let mut c = UdpConnectionEstablisher::new(SECRET, server(), false, None);
        c.add_trusted_remote(A);
        seen.push(next_request(&c, 0).unwrap().1);
        let old = seen[seen.len() - 1];
        c.on_notice(ServerNotice::NeedNewSession { old_session_id: old }, 0);
        seen.push(next_request(&c, 0).unwrap().1);
    }
    seen.sort();
    seen.dedup();
    assert!(seen.len() > 1);
    let mut pings = Vec::new();
    for _ in 0..4 {
        match client().server_turn(0) {
            PollAction::SendPing { payload } => pings.push(payload),
            _ => panic!("no ping"),
        }
    }
    pings.dedup();
    assert!(pings.len() > 1);
}

fn local_client() -> UdpConnectionEstablisher {
    let mut c = UdpConnectionEstablisher::with_session(SECRET, server(), true, None, 1000);
    c.add_trusted_remote(A);
    c.add_trusted_remote(B);
    c
}

fn announces(c: &UdpConnectionEstablisher, now: u64) -> bool {
    match c.after_rebind(now) {
        PollAction::PollMulticast { announce } => announce,
        _ => panic!("no multicast"),
    }
}

#[test]
fn announcements_start_after_five_seconds() {
    let mut c = local_client();
    assert!(matches!(c.begin_poll(None, SEC), PollAction::PollMulticast { announce: false }));
    assert!(!announces(&c, 10 * SEC));
    // any pong counts before the first ping
    assert!(is_nothing(c.on_notice(ServerNotice::Pong { payload: 3 }, 2 * SEC)));
    assert!(!announces(&c, 6 * SEC - 1));
    assert!(announces(&c, 6 * SEC));
    assert!(announces(&c, 12 * SEC - 1));
    assert!(!announces(&c, 12 * SEC));
    c.on_notice(ServerNotice::ErrorSameIp { peer_pubkey: B }, 12 * SEC);
    assert!(announces(&c, 12 * SEC));
    assert!(!announces(&c, 18 * SEC));
}

#[test]
fn pong_must_answer_the_last_ping() {
    let mut c = local_client();
    c.begin_poll(None, 0);
    c.on_ping_sent(77, true, 20 * SEC);
    c.on_notice(ServerNotice::Pong { payload: 76 }, 20 * SEC);
    assert!(!announces(&c, 20 * SEC));
    c.on_notice(ServerNotice::Pong { payload: 77 }, 30 * SEC);
    assert!(!announces(&c, 30 * SEC));
    c.on_notice(ServerNotice::Pong { payload: 77 }, 30 * SEC - 1);
    assert!(announces(&c, 30 * SEC));
}

/// A client for which local discovery starts at 5 seconds, while the server is reachable.
fn polling_local_client() -> UdpConnectionEstablisher {
    let mut c = local_client();
    c.begin_poll(None, 0);
    c.on_notice(ServerNotice::Pong { payload: 0 }, 0);
    c
}

fn connection(action: PollAction) -> NewP2pConnection {
    match action {
        PollAction::Finish(Outcome::Connected { connection }) => connection,
        _ => panic!("not connected"),
    }
}

#[test]
fn local_peers_are_greeted() {
    let now = 5 * SEC;
    let disguises = vec![(A, [0xa; 32]), (B, [0xb; 32])];
    let found = vec![(addr(1), [0xa; 32]), (addr(2), [0xb; 32]), (addr(3), [0xc; 32])];
    let mut unreachable = local_client();
    unreachable.begin_poll(None, 0);
    assert!(matches!(unreachable.on_discovered(&found, &disguises, now), PollAction::ReceiveLocal));
    let mut c = polling_local_client();
    assert!(matches!(c.on_discovered(&found, &disguises, now - 1), PollAction::ReceiveLocal));
    match c.on_discovered(&found, &disguises, now) {
        PollAction::SendHello { to, peer, bytes } => {
            assert_eq!(to, addr(2));
            assert_eq!(peer, B);
            let mut expected = b"multicast-discovery-p2p".to_vec();
            expected.extend_from_slice(&own_key());
            assert_eq!(bytes, expected);
        }
        _ => panic!("no greeting"),
    }
    // a peer behind our own address is not asked for, and not greeted either
    c.on_notice(ServerNotice::ErrorSameIp { peer_pubkey: B }, now);
    assert!(matches!(
        c.on_discovered(&found, &disguises, now),
        PollAction::SendHello { peer: A, .. }
    ));
    assert!(matches!(c.on_hello_sent(addr(1), A, 55, Some(54)), PollAction::AskServer));
    assert!(matches!(c.on_hello_sent(addr(1), A, 55, None), PollAction::AskServer));
}

#[test]
fn greeted_peer_is_connected_after_a_hole_punch() {
    let now = 5 * SEC;
    let mut c = polling_local_client();
    let t = match c.on_hello_sent(addr(1), A, 55, Some(55)) {
        PollAction::Punch(t) => t,
        _ => panic!("no hole punch"),
    };
    assert_eq!(t.peer_pubkey, A);
    assert_eq!(t.origin, PunchOrigin::Greeted { to: addr(1) });
    assert_eq!(t.origin.peer_address(), SocketAddr::V4(addr(1)));
    let conn = connection(c.on_punched(t, Ok(SocketAddr::V4(addr(8))), now));
    assert_eq!(conn.pubkey, A);
    assert_eq!(conn.remote_addr, SocketAddr::V4(addr(8)));
    assert!(!conn.is_listener);
    // it is left alone until the connection is closed
    let found = vec![(addr(1), [0xa; 32])];
    let disguises = vec![(A, [0xa; 32])];
    assert!(matches!(c.on_discovered(&found, &disguises, now), PollAction::ReceiveLocal));
    assert_eq!(next_request(&c, now), Some((vec![B], 1000)));
    c.on_connection_closed(A);
    assert!(matches!(c.on_discovered(&found, &disguises, now), PollAction::SendHello { .. }));
    assert_eq!(next_request(&c, now), Some((vec![A, B], 1000)));
}

#[test]
fn greetings_are_accepted() {
    let now = 5 * SEC;
    let from = SocketAddr::V4(addr(4));
    let hello = write_hello(&A);
    assert_eq!(read_hello(&hello), Some(A));
    assert_eq!(read_hello(&hello[..54]), None);
    assert_eq!(read_hello(&[0; 55]), None);
    let mut unreachable = local_client();
    unreachable.begin_poll(None, 0);
    assert!(matches!(
        unreachable.on_local_received(Some((from, hello.clone())), now),
        PollAction::AskServer
    ));
    let mut c = polling_local_client();
    assert!(matches!(
        c.on_local_received(Some((from, hello.clone())), now - 1),
        PollAction::AskServer
    ));
    let t = match c.on_local_received(Some((from, hello.clone())), now) {
        PollAction::Punch(t) => t,
        _ => panic!("no hole punch"),
    };
    assert_eq!(t.peer_pubkey, A);
    assert_eq!(t.origin, PunchOrigin::GreetedBy { from });
    assert_eq!(t.origin.peer_address(), from);
    assert!(matches!(c.on_local_received(Some((from, write_hello(&C))), now), PollAction::AskServer));
    assert!(matches!(c.on_local_received(None, now), PollAction::AskServer));
    let conn = connection(c.on_punched(t, Ok(SocketAddr::V4(addr(5))), now));
    assert_eq!(conn.pubkey, A);
    assert_eq!(conn.remote_addr, SocketAddr::V4(addr(5)));
    assert!(conn.is_listener);
    assert!(matches!(c.on_local_received(Some((from, hello)), now), PollAction::AskServer));
}

#[test]
fn failed_local_hole_punch_pauses_the_peer() {
    let now = 5 * SEC;
    let mut c = polling_local_client();
    let from = SocketAddr::V4(addr(4));
    let t = match c.on_local_received(Some((from, write_hello(&A))), now) {
        PollAction::Punch(t) => t,
        _ => panic!("no hole punch"),
    };
    let error = HolePunchError { got_punch: false, got_ack: false };
    match c.on_punched(t, Err(error), now) {
        PollAction::Finish(Outcome::Failed { error: e, pause_ms: 100 }) => {
            assert_eq!(e, PollError::HolePunch { origin: PunchOrigin::GreetedBy { from }, error });
            assert_eq!(e.message(), "Connecting to peer in the local network");
        }
        _ => panic!("no failure"),
    }
    assert!(matches!(c.on_local_received(Some((from, write_hello(&A))), now), PollAction::AskServer));
    assert!(matches!(
        c.on_local_received(Some((from, write_hello(&A))), now + SEC),
        PollAction::Punch(_)
    ));
}

#[test]
fn poll_errors_in_words() {
    assert_eq!(PollError::Receive.message(), "Receiving message from P2P server");
    assert_eq!(PollError::Parse(ParseError::TooShort).message(), "Parsing message from P2P server");
    assert_eq!(PollError::NotTrusted.message(), "Peer pubkey not in trusted list");
    let peer = SocketAddrV4 { ip: Ipv4Addr::new(192, 168, 0, 10), port: 65535 };
    let origin = PunchOrigin::Introduced { peer_address: peer, remote_session_id: u32::MAX };
    let error = HolePunchError { got_punch: true, got_ack: false };
    assert_eq!(
        PollError::HolePunch { origin, error }.message(),
        format!(
            "Handling InitiateConnectionRequest from p2p server for peer {}, session_id={}",
            "192.168.0.10:65535", 4294967295u32
        )
    );
}

#[test]
fn local_discovery_for_one_peer() {
    let mut remotes = KeyMap::new();
    let mut state = PeerState::default();
    state.on_error_same_ip(0);
    remotes.insert(A, state);
    assert!(is_local_discovery_enabled_for(&None, &remotes, &A, SEC));
    assert!(!is_local_discovery_enabled_for(&None, &remotes, &A, 6 * SEC));
    assert!(!is_local_discovery_enabled_for(&None, &remotes, &B, SEC));
    assert!(is_local_discovery_enabled_for(&Some(0), &remotes, &B, 10 * SEC - 1));
    assert!(!is_local_discovery_enabled_for(&Some(0), &remotes, &B, 10 * SEC));
}
