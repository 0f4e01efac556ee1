//! What clients and the server achieve together.
use vstd::prelude::*;
use crate::net::{SocketAddr, SocketAddrV4};
use crate::server::udp::{cleaned, is_partner, mutual_requests_meet, placed, search};
use crate::server::udp::{session_is_used, Mail, UdpStateView, REQUEST_TIMEOUT_S};
use crate::time::{secs_since, Instant};
use crate::udp::client::poll::{introduction_leads_to_punch, ActionView, PunchOrigin, Received};
use crate::udp::client::poll::TargetView;
use crate::udp::client::ClientView;
use crate::udp::messages::{from_server_bytes, ConnectionRequestView};
use crate::udp::notices::message_of;

verus! {

/// Whether `bytes` is the datagram for a notice.
pub open spec fn is_datagram_for(bytes: Vec<u8>, mail: Mail) -> bool {
    message_of(mail.1) matches Some(m) && bytes@ == from_server_bytes(m)
}

/// Whether a client would start a connection to `peer` with the session `session_id`.
pub open spec fn wants(c: ClientView, peer: Seq<u8>, session_id: u32, now: Instant) -> bool {
    c.is_available(peer, now) && c.trusted_remotes[peer].last_accepted_session_id != Some(
        session_id,
    )
}

/// Two clients with the keys `a` and `b`, at different IP addresses, ask the server for each other
/// within 10 seconds, with sessions that were not used. The first is left waiting, and no other
/// peer of the second asks for the second. Then the server sends each of them a datagram that
/// makes it punch a hole towards the other's address, with the other's session, and exactly one of
/// them is to listen.
pub proof fn clients_punch_towards_each_other(
    s: UdpStateView,
    a: Seq<u8>,
    addr_a: SocketAddrV4,
    request_a: ConnectionRequestView,
    now_a: Instant,
    b: Seq<u8>,
    addr_b: SocketAddrV4,
    request_b: ConnectionRequestView,
    now_b: Instant,
    client_a: ClientView,
    client_b: ClientView,
    to_a: Vec<u8>,
    to_b: Vec<u8>,
    fresh: u32,
    now: Instant,
)
    requires
        a.len() == 32,
        b.len() == 32,
        a != b,
        addr_a.ip != addr_b.ip,
        request_a.peer_pubkeys.contains(b),
        request_b.peer_pubkeys.contains(a),
        secs_since(now_a, now_b) <= REQUEST_TIMEOUT_S,
        !session_is_used(s, a, request_a.session_id),
        ({
            let waiting = placed(s, a, addr_a, request_a, now_a).0;
            let mail = placed(waiting, b, addr_b, request_b, now_b).1;
            let n = mail.len();
            &&& waiting.requests.contains_key(a)
            &&& !session_is_used(waiting, b, request_b.session_id)
            &&& forall|q: Seq<u8>|
                request_b.peer_pubkeys.contains(q) && #[trigger] is_partner(
                    waiting.requests,
                    q,
                    b,
                    addr_b,
                ) ==> q == a
            &&& n >= 2 ==> is_datagram_for(to_a, mail[n - 2]) && is_datagram_for(to_b, mail[n - 1])
        }),
        wants(client_a, b, request_b.session_id, now),
        wants(client_b, a, request_a.session_id, now),
    ensures
        ({
            let waiting = placed(s, a, addr_a, request_a, now_a).0;
            let mail = placed(waiting, b, addr_b, request_b, now_b).1;
            let n = mail.len();
            &&& n >= 2
            &&& mail[n - 2].0 == addr_a
            &&& mail[n - 1].0 == addr_b
            &&& client_a.received(
                Received::Datagram { from: SocketAddr::V4(client_a.p2p_server_addr), bytes: to_a },
                fresh,
                now,
            ).1 == ActionView::Punch(
                TargetView {
                    peer_pubkey: b,
                    origin: PunchOrigin::Introduced {
                        peer_address: addr_b,
                        remote_session_id: request_b.session_id,
                    },
                    is_listener: false,
                },
            )
            &&& client_b.received(
                Received::Datagram { from: SocketAddr::V4(client_b.p2p_server_addr), bytes: to_b },
                fresh,
                now,
            ).1 == ActionView::Punch(
                TargetView {
                    peer_pubkey: a,
                    origin: PunchOrigin::Introduced {
                        peer_address: addr_a,
                        remote_session_id: request_a.session_id,
                    },
                    is_listener: true,
                },
            )
        }),
{
    let waiting = placed(s, a, addr_a, request_a, now_a).0;
    let mail = placed(waiting, b, addr_b, request_b, now_b).1;
    mutual_requests_meet(s, a, addr_a, request_a, now_a, b, addr_b, request_b, now_b);
    let result = search(
        cleaned(waiting.requests, now_b).remove(b),
        request_b.peer_pubkeys,
        b,
        addr_b,
    );
    let n = mail.len();
    assert(n == result.mail.len() + 2);
    introduction_leads_to_punch(
        client_a,
        b,
        addr_b,
        request_b.session_id,
        false,
        to_a,
        fresh,
        now,
    );
    introduction_leads_to_punch(
        client_b,
        a,
        addr_a,
        request_a.session_id,
        true,
        to_b,
        fresh,
        now,
    );
}

} // verus!
