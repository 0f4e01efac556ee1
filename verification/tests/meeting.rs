use ed25519_dalek::SigningKey;
use reprise_p2p::net::{Ipv4Addr, SocketAddr, SocketAddrV4};
use reprise_p2p::server::udp::{Reaction, UdpEvent, UdpState};
use reprise_p2p::udp::notices::ServerNotice;
use reprise_p2p::udp::client::poll::{Outcome, PollAction, PunchOrigin, PunchTarget, Received};
use reprise_p2p::udp::client::UdpConnectionEstablisher;
use reprise_p2p::udp::hole_punch::{HolePunch, PunchAction};

const MS: u64 = 1_000_000;

fn addr(last: u8) -> SocketAddrV4 {
    SocketAddrV4 { ip: Ipv4Addr::new(80, 0, 0, last), port: 5000 + last as u16 }
}

fn key(secret: &[u8; 32]) -> [u8; 32] {
    SigningKey::from_bytes(secret).verifying_key().to_bytes()
}

/// Sends the client's request to the server, and returns what the server sends out.
fn ask(c: &mut UdpConnectionEstablisher, s: &mut UdpState, from: SocketAddrV4) -> Vec<(SocketAddrV4, Vec<u8>)> {
    let bytes = match c.request_turn(0) {
        PollAction::SendRequest { bytes, .. } => bytes,
        _ => panic!("no request"),
    };
    c.on_request_sent(0);
    match s.step(UdpEvent::Datagram { from: SocketAddr::V4(from), bytes }, 0) {
        Reaction::Send(mail) => mail.iter().map(|(to, n)| (*to, n.datagram().unwrap())).collect(),
        _ => panic!("no reaction"),
    }
}

fn told(c: &mut UdpConnectionEstablisher, bytes: &[u8]) -> PunchTarget {
    let from = SocketAddr::V4(addr(250));
    match c.on_received(Received::Datagram { from, bytes: bytes.to_vec() }, 0) {
        PollAction::Punch(target) => target,
        _ => panic!("no hole punch"),
    }
}

#[test]
fn two_clients_meet() {
    let (sa, sb) = ([31; 32], [32; 32]);
    let mut server = UdpState::new();
    let mut a = UdpConnectionEstablisher::with_session(sa, addr(250), false, None, 1);
    let mut b = UdpConnectionEstablisher::with_session(sb, addr(250), false, None, 2);
    a.add_trusted_remote(key(&sb));
    b.add_trusted_remote(key(&sa));
    assert!(ask(&mut a, &mut server, addr(1)).is_empty());
    let mail = ask(&mut b, &mut server, addr(2));
    assert_eq!(mail.len(), 2);
    assert_eq!((mail[0].0, mail[1].0), (addr(1), addr(2)));

    let ta = told(&mut a, &mail[0].1);
    assert_eq!((ta.peer_pubkey, ta.is_listener), (key(&sb), false));
    assert_eq!(ta.origin, PunchOrigin::Introduced { peer_address: addr(2), remote_session_id: 2 });
    let tb = told(&mut b, &mail[1].1);
    assert_eq!((tb.peer_pubkey, tb.is_listener), (key(&sa), true));
    assert_eq!(tb.origin, PunchOrigin::Introduced { peer_address: addr(1), remote_session_id: 1 });

    // A is behind a NAT that shows another port to B
    let seen = SocketAddr::V4(SocketAddrV4 { port: 9999, ..addr(1) });
    let mut pa = HolePunch::new(ta.origin.peer_address(), 0);
    let mut pb = HolePunch::new(tb.origin.peer_address(), 0);
    let (_, punch) = pa.on_tick();
    let (to, ack) = pb.on_packet(seen, &punch).unwrap();
    assert_eq!(to, seen);
    assert!(pa.on_packet(SocketAddr::V4(addr(2)), &ack).is_none());
    let (to, punch) = pb.on_tick();
    assert_eq!(to, seen);
    let (_, ack) = pa.on_packet(SocketAddr::V4(addr(2)), &punch).unwrap();
    assert!(pb.on_packet(seen, &ack).is_none());
    for (p, expected) in [(&mut pa, SocketAddr::V4(addr(2))), (&mut pb, seen)] {
        assert_eq!(p.poll(10 * MS), PunchAction::Drain { until: 210 * MS });
        assert_eq!(p.poll(210 * MS), PunchAction::Settle { millis: 200 });
        assert_eq!(p.poll(410 * MS), PunchAction::Done(expected));
    }
    assert!(matches!(
        b.on_punched(tb, Ok(seen), 0),
        PollAction::Finish(Outcome::Connected { connection, .. }) if connection.remote_addr == seen
    ));
}

#[test]
fn greeting_leads_to_a_hole_punch_on_both_sides() {
    let (sa, sb) = ([51; 32], [52; 32]);
    let mut a = UdpConnectionEstablisher::with_session(sa, addr(200), true, None, 1);
    let mut b = UdpConnectionEstablisher::with_session(sb, addr(200), true, None, 2);
    let now = 5000 * MS;
    for (c, peer) in [(&mut a, key(&sb)), (&mut b, key(&sa))] {
        c.add_trusted_remote(peer);
        c.begin_poll(None, 0);
        c.on_notice(ServerNotice::Pong { payload: 0 }, now);
    }
    // A finds B at its socket for the local network and greets it from its own
    let (local_a, local_b, fresh_a) = (addr(1), addr(2), SocketAddr::V4(addr(3)));
    let found = vec![(local_b, [7; 32])];
    let (to, bytes) = match a.on_discovered(&found, &vec![(key(&sb), [7; 32])], now) {
        PollAction::SendHello { to, bytes, .. } => (to, bytes),
        _ => panic!("no greeting"),
    };
    assert_eq!(to, local_b);
    let punch_of = |action| match action {
        PollAction::Punch(t) => t,
        _ => panic!("no hole punch"),
    };
    let ta: PunchTarget = punch_of(a.on_hello_sent(to, key(&sb), bytes.len(), Some(bytes.len())));
    let tb = punch_of(b.on_local_received(Some((SocketAddr::V4(local_a), bytes)), now));
    assert_eq!(tb.peer_pubkey, key(&sa));
    assert_ne!(ta.is_listener, tb.is_listener);

    // A punches on a fresh socket, so B learns its address from the first packet
    let mut pa = HolePunch::new(ta.origin.peer_address(), 0);
    let mut pb = HolePunch::new(tb.origin.peer_address(), 0);
    let (to, punch) = pa.on_tick();
    assert_eq!(to, SocketAddr::V4(local_b));
    let (to, ack) = pb.on_packet(fresh_a, &punch).unwrap();
    assert_eq!(to, fresh_a);
    assert!(pa.on_packet(SocketAddr::V4(local_b), &ack).is_none());
    let (to, punch) = pb.on_tick();
    assert_eq!(to, fresh_a);
    let (_, ack) = pa.on_packet(SocketAddr::V4(local_b), &punch).unwrap();
    assert!(pb.on_packet(fresh_a, &ack).is_none());
    for (p, expected) in [(&mut pa, SocketAddr::V4(local_b)), (&mut pb, fresh_a)] {
        p.poll(10 * MS);
        p.poll(210 * MS);
        assert_eq!(p.poll(410 * MS), PunchAction::Done(expected));
    }
    assert!(matches!(
        b.on_punched(tb, Ok(fresh_a), now),
        PollAction::Finish(Outcome::Connected { connection }) if connection.remote_addr == fresh_a
    ));
}
