use reprise_p2p::net::{Ipv4Addr, SocketAddr, SocketAddrV4};
use reprise_p2p::server::state::State;
use reprise_p2p::server::tcp::{confirmation, goes_on_after, ChannelFailure, TcpAction};
use reprise_p2p::tcp::flow::{
    begin, dial_turn, on_clients, on_connected, on_counted_down, on_countdown, on_dialled,
    on_remote_addr, on_sent, rotates_port, Connect, FlowAction, Intent, Reply, RequestError,
};
use reprise_p2p::tcp::messages::{
    ClientAnnouncement, ClientAnnouncementData, ConnectionRequest, GetClients, ToNatClientMsg,
    ToNatServerMsg,
};

const MS: u64 = 1_000_000;

fn addr(port: u16) -> SocketAddr {
    SocketAddr::V4(SocketAddrV4 { ip: Ipv4Addr::new(1, 1, 1, 1), port })
}

fn service(session: u64, name: &str) -> ClientAnnouncementData {
    ClientAnnouncementData { session, app: "app".to_string(), username: name.to_string() }
}

fn request(session: u64) -> ConnectionRequest {
    ConnectionRequest { session }
}

#[test]
fn labels() {
    assert_eq!(service(1, "ann").label(), "[app] ann");
    assert!(service(1, "ann").same(&service(1, "ann")));
    assert!(!service(1, "ann").same(&service(2, "ann")));
    assert!(!service(1, "ann").same(&service(1, "bob")));
}

#[test]
fn services_are_listed_whatever_the_application() {
    let mut s: State<u8> = State::new();
    assert!(s.announce_check(service(1, "ann"), addr(1), 0).is_none());
    assert!(s.announce_check(service(2, "bob"), addr(2), 5).is_none());
    assert!(s.announce_check(service(1, "ann2"), addr(3), 7).is_none());
    let mut list = s.get_clients("another app", 10);
    list.sort_by_key(|c| c.data.session);
    assert_eq!(list.len(), 2);
    assert_eq!(list[0].data.username, "ann2");
    assert_eq!(list[0].addr, addr(3));
    assert_eq!(list[0].tm_ago, 3);
    assert_eq!(list[1].data.username, "bob");
    assert_eq!(list[1].tm_ago, 5);
}

#[test]
fn announcements_expire() {
    let mut s: State<u8> = State::new();
    s.announce_check(service(1, "ann"), addr(1), 0);
    s.announce_check(service(2, "bob"), addr(2), MS);
    s.poll_update(3000 * MS);
    assert_eq!(s.get_clients("", 0).len(), 2);
    s.poll_update(3000 * MS + 1);
    let left = s.get_clients("", 0);
    assert_eq!(left.len(), 1);
    assert_eq!(left[0].data.session, 2);
}

#[test]
fn waiting_connection_is_picked_up_once() {
    let mut s: State<u8> = State::new();
    assert_eq!(s.insert_connection_request(request(1), addr(9), 5, 0), None);
    s.announce_check(service(1, "ann"), addr(1), 0);
    assert_eq!(s.insert_connection_request(request(1), addr(9), 5, 0), Some(addr(1)));
    let found = s.announce_check(service(1, "ann"), addr(1), 4500 * MS - 1).unwrap();
    assert_eq!((found.addr, found.tx, found.tm), (addr(9), 5, 4500 * MS));
    assert!(s.announce_check(service(1, "ann"), addr(1), 4500 * MS - 1).is_none());
}

#[test]
fn waiting_connection_expires_or_is_withdrawn() {
    let mut s: State<u8> = State::new();
    s.announce_check(service(1, "ann"), addr(1), 0);
    s.insert_connection_request(request(1), addr(9), 5, 0);
    assert!(s.announce_check(service(1, "ann"), addr(1), 4500 * MS).is_none());
    s.insert_connection_request(request(1), addr(9), 6, 0);
    s.remove_connection_request(1);
    s.remove_connection_request(2);
    assert!(s.announce_check(service(1, "ann"), addr(1), 0).is_none());
    s.insert_connection_request(request(1), addr(9), 7, 0);
    s.insert_connection_request(request(1), addr(8), 8, 0);
    assert_eq!(s.announce_check(service(1, "ann"), addr(1), 0).unwrap().tx, 8);
}

#[test]
fn server_answers_messages() {
    let mut s: State<u8> = State::new();
    let announce = || ToNatServerMsg::AnnounceAndCheck(service(1, "ann"));
    let connect = |session| ToNatServerMsg::ConnectionRequest(request(session));
    assert!(matches!(s.on_message(announce(), addr(1), 0, 0), TcpAction::Close));
    assert!(matches!(s.on_message(connect(2), addr(9), 0, 0), TcpAction::Close));
    match s.on_message(connect(1), addr(9), 5, 0) {
        TcpAction::Await { reply: ToNatClientMsg::RemoteAddr(a), session, timeout_ms } => {
            assert_eq!((a, session, timeout_ms), (addr(1), 1, 5000));
        }
        _ => panic!("no wait"),
    }
    match s.on_message(announce(), addr(1), 0, 0) {
        TcpAction::Confirm { tx, addr: a } => assert_eq!((tx, a), (5, addr(9))),
        _ => panic!("no confirmation"),
    }
    let query = ToNatServerMsg::GetClients(GetClients { app: "app".to_string() });
    match s.on_message(query, addr(9), 0, 0) {
        TcpAction::Reply(ToNatClientMsg::Clients(list)) => assert_eq!(list.len(), 1),
        _ => panic!("no list"),
    }
    let messages = confirmation(addr(9));
    assert_eq!(messages.len(), 2);
    assert_eq!(messages[0].remote_addr(), Some(addr(9)));
    assert_eq!(messages[1].countdown(), Some(500_000_000));
    assert!(!goes_on_after(ChannelFailure::ConnectionClosed));
    assert!(goes_on_after(ChannelFailure::Other));
}

#[test]
fn wait_for_the_other_side_ends() {
    let mut s: State<u8> = State::new();
    s.announce_check(service(1, "ann"), addr(1), 0);
    s.insert_connection_request(request(1), addr(9), 5, 0);
    assert!(s.on_awaited(1, false).is_none());
    assert!(s.announce_check(service(1, "ann"), addr(1), 0).is_none());
    assert_eq!(s.on_awaited(1, true).unwrap().countdown(), Some(500_000_000));
}

#[test]
fn parts_of_messages() {
    let clients = ToNatClientMsg::Clients(vec![]);
    assert_eq!(clients.remote_addr(), None);
    assert_eq!(clients.countdown(), None);
    assert_eq!(clients.clients().map(|c| c.len()), Some(0));
    assert!(ToNatClientMsg::RemoteAddr(addr(1)).clients().is_none());
    assert_eq!(ToNatClientMsg::RemoteAddr(addr(1)).countdown(), None);
}

fn error(a: FlowAction) -> RequestError {
    match a {
        FlowAction::Fail(e) => e,
        _ => panic!("no error"),
    }
}

#[test]
fn flow_tells_the_server_what_is_wanted() {
    assert!(matches!(begin(), FlowAction::Connect { timeout_ms: 10_000 }));
    assert!(matches!(
        on_connected(&Intent::Scan, Connect::Connected),
        FlowAction::Send(ToNatServerMsg::GetClients(q)) if q.app == "test_app"
    ));
    assert!(matches!(
        on_connected(&Intent::Connect { session: 4 }, Connect::Connected),
        FlowAction::Send(ToNatServerMsg::ConnectionRequest(ConnectionRequest { session: 4 }))
    ));
    assert!(matches!(
        on_connected(&Intent::Accept(service(6, "ann")), Connect::Connected),
        FlowAction::Send(ToNatServerMsg::AnnounceAndCheck(d)) if d.same(&service(6, "ann"))
    ));
    assert_eq!(
        error(on_connected(&Intent::Scan, Connect::TimedOut)),
        RequestError::ConnectionFailed { timed_out: true }
    );
    assert_eq!(
        error(on_connected(&Intent::Scan, Connect::Failed)),
        RequestError::ConnectionFailed { timed_out: false }
    );
    assert_eq!(error(on_sent(&Intent::Scan, false)), RequestError::WriteError);
    assert!(matches!(on_sent(&Intent::Scan, true), FlowAction::AwaitClients { timeout_ms: 3000 }));
    assert!(matches!(
        on_sent(&Intent::Connect { session: 4 }, true),
        FlowAction::AwaitAddr { timeout_ms: 3000 }
    ));
}

#[test]
fn scan_results() {
    let one = ClientAnnouncement { data: service(1, "ann"), addr: addr(1), tm_ago: 5 };
    assert_eq!(on_clients(Reply::Got(vec![one.clone()])).unwrap()[0].tm_ago, one.tm_ago);
    assert_eq!(on_clients(Reply::TimedOut).err(), Some(RequestError::NoResponse));
    assert_eq!(on_clients(Reply::Closed).err(), Some(RequestError::ChannelError));
    assert_eq!(on_clients(Reply::Failed).err(), Some(RequestError::ChannelError));
}

#[test]
fn missing_address_means_different_things() {
    let connect = Intent::Connect { session: 4 };
    let accept = Intent::Accept(service(6, "ann"));
    assert_eq!(error(on_remote_addr(&connect, Reply::TimedOut)), RequestError::NoSessionId);
    assert_eq!(error(on_remote_addr(&connect, Reply::Closed)), RequestError::NoSessionId);
    assert_eq!(error(on_remote_addr(&connect, Reply::Failed)), RequestError::ChannelError);
    assert_eq!(error(on_remote_addr(&accept, Reply::TimedOut)), RequestError::NoResponse);
    assert_eq!(error(on_remote_addr(&accept, Reply::Closed)), RequestError::NoPendingConnections);
    assert_eq!(error(on_remote_addr(&accept, Reply::Failed)), RequestError::ChannelError);
    assert!(matches!(
        on_remote_addr(&accept, Reply::Got(addr(3))),
        FlowAction::AwaitCountdown { timeout_ms: 3000, .. }
    ));
}

#[test]
fn countdown_is_cut_to_two_seconds() {
    for (given, expected) in [(500_000_000u128, 500_000_000u128), (2_000_000_001, 2_000_000_000), (u128::MAX, 2_000_000_000)] {
        match on_countdown(addr(3), Reply::Got(given)) {
            FlowAction::CountDown { remote, nanos } => assert_eq!((remote, nanos), (addr(3), expected)),
            _ => panic!("no countdown"),
        }
    }
    assert_eq!(error(on_countdown(addr(3), Reply::TimedOut)), RequestError::NoResponse);
    assert_eq!(error(on_countdown(addr(3), Reply::Closed)), RequestError::ChannelError);
    assert_eq!(error(on_countdown(addr(3), Reply::Failed)), RequestError::ChannelError);
}

#[test]
fn other_side_is_dialled_for_half_a_second() {
    let deadline = match on_counted_down(addr(3), 7 * MS) {
        FlowAction::Dial { deadline, timeout_ms: 1000, .. } => deadline,
        _ => panic!("no dial"),
    };
    assert_eq!(deadline, 507 * MS);
    assert!(matches!(on_dialled(addr(3), deadline, false), FlowAction::Rest { millis: 20, .. }));
    assert!(matches!(dial_turn(addr(3), deadline, deadline - 1), FlowAction::Dial { .. }));
    assert_eq!(error(dial_turn(addr(3), deadline, deadline)), RequestError::P2pConnectionFailed);
    assert!(matches!(on_dialled(addr(3), deadline, true), FlowAction::Finish(a) if a == addr(3)));
}

#[test]
fn port_is_rotated_after_dialling() {
    let connect = Intent::Connect { session: 4 };
    let failed = |e| FlowAction::Fail(e);
    assert!(rotates_port(&connect, &FlowAction::Finish(addr(3))));
    assert!(rotates_port(&connect, &failed(RequestError::P2pConnectionFailed)));
    assert!(!rotates_port(&connect, &failed(RequestError::NoSessionId)));
    assert!(!rotates_port(&connect, &begin()));
    assert!(!rotates_port(&Intent::Accept(service(6, "ann")), &FlowAction::Finish(addr(3))));
}

#[test]
fn request_errors_in_words() {
    let words = |e: RequestError| e.message("gone");
    assert_eq!(
        words(RequestError::P2pConnectionFailed),
        "Failed to establish direct TCP connection with client"
    );
    assert_eq!(words(RequestError::NoSessionId), "Did not find client with given session id");
    for timed_out in [false, true] {
        assert_eq!(
            words(RequestError::ConnectionFailed { timed_out }),
            "Connection to helper server failed"
        );
    }
    assert_eq!(words(RequestError::NoResponse), "No response from server");
    assert_eq!(words(RequestError::ChannelError), "Channel error: gone");
    assert_eq!(words(RequestError::WriteError), "Channel error during sending: gone");
    assert_eq!(
        words(RequestError::NoPendingConnections),
        "Did not find any new incoming connection requests on helper server"
    );
}
