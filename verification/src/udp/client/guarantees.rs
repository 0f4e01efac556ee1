//! What the steps of a poll come to, in terms of the times, the peers and the packets alone.
use vstd::prelude::*;
use crate::keys::{key_lt, key_lt_asymmetric, key_views, KeyMap, PublicKey};
use crate::net::{SocketAddr, SocketAddrV4};
use crate::outside::ed25519_public_key;
use crate::text::decimal;
use crate::time::Instant;
use crate::udp::client::local_discovery::{hello_bytes, hello_round_trip, hello_sender, read_hello};
use crate::udp::client::local_discovery::{is_local_discovery_enabled_for, write_hello};
use crate::udp::client::local_discovery::{Discovered, Disguise};
use crate::udp::client::poll::{ActionView, ConnectionView, NewP2pConnection, Outcome, OutcomeView};
use crate::udp::client::poll::{PollAction, PollError, PunchOrigin, PunchTarget, Received, TargetView};
use crate::udp::client::{available_list_is_unique, limit_remotes, lists_available, name_view, picks};
use crate::udp::client::{ClientView, UdpConnectionEstablisher};
use crate::udp::hole_punch::HolePunchError;
use crate::udp::messages::{overruns, signed_parse};
use crate::udp::notices::{parsed_notice, NoticeView, ServerNotice};
use crate::udp::peer_state::{PeerState, PeerStateKind};

verus! {

/// After a ping was due at `t`, the next one is due from 4 seconds later on and not before, whatever
/// happens in between. A ping carries the given payload, and only the time of the ping is noted.
pub proof fn pings_are_four_seconds_apart(
    c: &mut UdpConnectionEstablisher,
    p: u64,
    t: Instant,
    first: PollAction,
    d: &mut UdpConnectionEstablisher,
    q: u64,
    now: Instant,
    next: PollAction,
)
    requires
        call_ensures(UdpConnectionEstablisher::server_turn_with, (c, p, t), first),
        first is SendPing,
        old(d)@.last_p2p_server_ping_send_tm == final(c)@.last_p2p_server_ping_send_tm,
        call_ensures(UdpConnectionEstablisher::server_turn_with, (d, q, now), next),
        t <= now,
    ensures
        first == (PollAction::SendPing { payload: p }),
        final(c)@ == (ClientView { last_p2p_server_ping_send_tm: Some(t), ..old(c)@ }),
        next is SendPing <==> now - t >= 4_000_000_000,
        next is SendPing ==> next == (PollAction::SendPing { payload: q }),
        !(next is SendPing) ==> final(d)@ == old(d)@ && (next is PlaceRequest || next is Receive),
{
}

/// The first ping is due at once.
pub proof fn first_ping_is_due(
    c: &mut UdpConnectionEstablisher,
    p: u64,
    now: Instant,
    r: PollAction,
    d: &mut UdpConnectionEstablisher,
    s: PollAction,
)
    requires
        call_ensures(UdpConnectionEstablisher::server_turn_with, (c, p, now), r),
        old(c)@.last_p2p_server_ping_send_tm is None,
        call_ensures(UdpConnectionEstablisher::server_turn, (d, now), s),
        old(d)@ == old(c)@,
    ensures
        r == (PollAction::SendPing { payload: p }),
        s is SendPing,
        final(d)@ == final(c)@,
{
}

/// A turn with a payload of chance is like one with a given payload, but for the payload.
pub proof fn chance_decides_the_payload_alone(
    c: &mut UdpConnectionEstablisher,
    p: u64,
    now: Instant,
    r: PollAction,
    d: &mut UdpConnectionEstablisher,
    s: PollAction,
)
    requires
        call_ensures(UdpConnectionEstablisher::server_turn_with, (c, p, now), r),
        call_ensures(UdpConnectionEstablisher::server_turn, (d, now), s),
        old(d)@ == old(c)@,
    ensures
        final(d)@ == final(c)@,
        r is SendPing <==> s is SendPing,
        !(r is SendPing) ==> s@ == r@,
{
}

/// After a request was sent at `t`, the next one is due from 2 seconds later on and not before, as
/// long as nothing makes one due: both where a ping was sent before it, and where none was due.
/// Nothing but the time of the request is noted.
pub proof fn requests_are_two_seconds_apart(
    c: &mut UdpConnectionEstablisher,
    t: Instant,
    first: PollAction,
    d: &mut UdpConnectionEstablisher,
    p: u64,
    sent: bool,
    now: Instant,
    next: PollAction,
    e: &mut UdpConnectionEstablisher,
    turn: PollAction,
)
    requires
        call_ensures(UdpConnectionEstablisher::on_request_sent, (c, t), first),
        old(d)@.last_request_tm == final(c)@.last_request_tm,
        call_ensures(UdpConnectionEstablisher::on_ping_sent, (d, p, sent, now), next),
        old(e)@.last_request_tm == final(c)@.last_request_tm,
        call_ensures(UdpConnectionEstablisher::server_turn_with, (e, p, now), turn),
        t <= now,
    ensures
        first is Receive,
        final(c)@ == (ClientView { last_request_tm: Some(t), ..old(c)@ }),
        next is PlaceRequest <==> now - t >= 2_000_000_000,
        next is Receive <==> now - t < 2_000_000_000,
        !(turn is SendPing) ==> (turn is PlaceRequest <==> now - t >= 2_000_000_000) && (turn
            is Receive <==> now - t < 2_000_000_000),
{
}

/// Where no request was sent since something made one due, one is sent at once.
pub proof fn due_request_is_placed(
    c: &mut UdpConnectionEstablisher,
    p: u64,
    sent: bool,
    now: Instant,
    r: PollAction,
    d: &mut UdpConnectionEstablisher,
    turn: PollAction,
)
    requires
        call_ensures(UdpConnectionEstablisher::on_ping_sent, (c, p, sent, now), r),
        call_ensures(UdpConnectionEstablisher::server_turn_with, (d, p, now), turn),
        old(c)@.last_request_tm is None,
        old(d)@.last_request_tm is None,
    ensures
        r is PlaceRequest,
        turn is PlaceRequest || turn is SendPing,
{
}

/// A ping that went out is remembered with its payload and its time, and one that did not is not.
/// A pong counts exactly if it carries the payload of the last ping that went out, less than 10
/// seconds ago, or if none ever did, and then the server counts as reachable from now on. It
/// changes nothing else and ends the poll without a pause.
pub proof fn pong_answers_the_last_ping(
    c: &mut UdpConnectionEstablisher,
    p: u64,
    sent: bool,
    t: Instant,
    r: PollAction,
    before: ClientView,
    payload: u64,
    fresh: u32,
    now: Instant,
)
    requires
        call_ensures(UdpConnectionEstablisher::on_ping_sent, (c, p, sent, t), r),
    ensures
        sent ==> final(c)@ == (ClientView { last_p2p_server_ping: Some((t, p)), ..old(c)@ }),
        !sent ==> final(c)@ == old(c)@,
        ({
            let (after, action) = before.notified(NoticeView::Pong { payload }, fresh, now);
            let counts = match before.last_p2p_server_ping {
                Some((tm, last)) => last == payload && now - tm < 10_000_000_000,
                None => true,
            };
            &&& action == ActionView::Finish(OutcomeView::Nothing { pause_ms: 0 })
            &&& counts ==> after == (ClientView { last_p2p_server_pong: Some(now), ..before })
            &&& !counts ==> after == before
        }),
{
}

/// The first poll starts the client's clock, and later ones leave it alone. The interface in use is
/// noted, and new sockets are opened exactly if it differs from the one before. Otherwise, and once
/// they are opened, a client with local discovery polls the multicast socket, and one without turns
/// to the server.
pub proof fn poll_starts_with_the_interface(
    c: &mut UdpConnectionEstablisher,
    interface: Option<String>,
    now: Instant,
    r: PollAction,
    d: UdpConnectionEstablisher,
    after: PollAction,
)
    requires
        call_ensures(UdpConnectionEstablisher::begin_poll, (c, interface, now), r),
        call_ensures(UdpConnectionEstablisher::after_rebind, (&d, now), after),
    ensures
        old(c)@.poll_start_tm is None ==> final(c)@.poll_start_tm == Some(now),
        old(c)@.poll_start_tm is Some ==> final(c)@.poll_start_tm == old(c)@.poll_start_tm,
        final(c)@.cur_interface == match interface {
            Some(name) => Some(name@),
            None => None,
        },
        final(c)@ == (ClientView {
            poll_start_tm: final(c)@.poll_start_tm,
            cur_interface: final(c)@.cur_interface,
            ..old(c)@
        }),
        r is Rebind <==> final(c)@.cur_interface != old(c)@.cur_interface,
        !(r is Rebind) ==> if old(c)@.local_discovery {
            r is PollMulticast
        } else {
            r is AskServer
        },
        if d@.local_discovery {
            after is PollMulticast
        } else {
            after is AskServer
        },
{
}

/// Local discovery starts 5 seconds after the first poll, and does not stop. From then on the client
/// announces itself exactly while the server answered a ping less than 10 seconds ago, or some
/// trusted peer is looked for in the local network, that is, was reported to be behind our own IP
/// address less than 6 seconds ago. Before, it does not.
pub proof fn announcements_go_by_pongs_and_reports(
    c: ClientView,
    start: Instant,
    now: Instant,
)
    requires
        c.poll_start_tm == Some(start),
    ensures
        now - start < 5_000_000_000 ==> !c.announces(now),
        now - start >= 5_000_000_000 ==> (c.announces(now) <==> {
            ||| c.last_p2p_server_pong matches Some(tm) && now - tm < 10_000_000_000
            ||| exists|k: Seq<u8>|
                #![trigger c.trusted_remotes.contains_key(k)]
                c.trusted_remotes.contains_key(k) && (
                c.trusted_remotes[k].last_error_same_ip matches Some(t) && now - t < 6_000_000_000)
        }),
{
    if exists|k: Seq<u8>|
        #![trigger c.trusted_remotes.contains_key(k)]
        c.trusted_remotes.contains_key(k) && (
        c.trusted_remotes[k].last_error_same_ip matches Some(t) && now - t < 6_000_000_000) {
        let k = choose|k: Seq<u8>|
            #![trigger c.trusted_remotes.contains_key(k)]
            c.trusted_remotes.contains_key(k) && (
            c.trusted_remotes[k].last_error_same_ip matches Some(t) && now - t < 6_000_000_000);
        assert(c.trusted_remotes[k].local_discovery(now));
    }
}

/// A client that was never polled neither announces itself nor connects in the local network.
pub proof fn local_discovery_needs_a_poll(c: ClientView, k: Seq<u8>, now: Instant)
    requires
        c.poll_start_tm is None,
    ensures
        !c.announces(now),
        !c.accepts_local(k, now),
{
}

/// From 5 seconds after the first poll on, without end, a peer in the local network is accepted
/// exactly if it is trusted, neither connected nor disabled nor looked for in the local network
/// alone, and the server answered a ping less than 10 seconds ago. Before, none is.
pub proof fn local_peers_are_accepted_by_pongs(
    c: ClientView,
    start: Instant,
    k: Seq<u8>,
    now: Instant,
)
    requires
        c.poll_start_tm == Some(start),
    ensures
        now - start < 5_000_000_000 ==> !c.accepts_local(k, now),
        now - start >= 5_000_000_000 ==> (c.accepts_local(k, now) <==> {
            &&& c.trusted_remotes.contains_key(k)
            &&& !(c.trusted_remotes[k].last_error_same_ip matches Some(t) && now - t
                < 6_000_000_000)
            &&& c.trusted_remotes[k].state_kind is Enabled || (
            c.trusted_remotes[k].state_kind matches PeerStateKind::DisabledUntil(end) && end < now)
            &&& c.last_p2p_server_pong matches Some(tm) && now - tm < 10_000_000_000
        }),
{
}

/// The client's own questions about the local network are answered as for its state, and the
/// multicast socket is polled with announcements as the client is to announce itself.
pub proof fn client_answers_for_its_state(
    c: &mut UdpConnectionEstablisher,
    interface: Option<String>,
    now: Instant,
    r: PollAction,
    d: UdpConnectionEstablisher,
    after: PollAction,
    announces: bool,
    k: PublicKey,
    accepts: bool,
)
    requires
        call_ensures(UdpConnectionEstablisher::begin_poll, (c, interface, now), r),
        call_ensures(UdpConnectionEstablisher::after_rebind, (&d, now), after),
        call_ensures(UdpConnectionEstablisher::announcement_enabled, (&d, now), announces),
        call_ensures(UdpConnectionEstablisher::accepts_local_connection, (&d, &k, now), accepts),
    ensures
        r matches PollAction::PollMulticast { announce } ==> announce == final(c)@.announces(now),
        after matches PollAction::PollMulticast { announce } ==> announce == d@.announces(now),
        announces == d@.announces(now),
        accepts == d@.accepts_local(k@, now),
{
}

/// A peer may be found in the local network if the server answered a ping less than 10 seconds ago,
/// or said less than 6 seconds ago that the peer is behind our own IP address.
pub proof fn pongs_and_reports_enable_local_discovery(
    pong: Option<Instant>,
    remotes: KeyMap<PeerState>,
    k: PublicKey,
    now: Instant,
    r: bool,
)
    requires
        call_ensures(is_local_discovery_enabled_for, (&pong, &remotes, &k, now), r),
    ensures
        r <==> {
            ||| pong matches Some(tm) && now - tm < 10_000_000_000
            ||| remotes@.contains_key(k@) && (remotes@[k@].last_error_same_ip matches Some(t) && now
                - t < 6_000_000_000)
        },
{
}

/// A greeting that went out whole leads to a hole punch towards the peer it was sent to, who is to
/// listen. One that did not leads on to the server.
pub proof fn greeting_leads_to_punch(
    c: UdpConnectionEstablisher,
    to: SocketAddrV4,
    peer: PublicKey,
    len: usize,
    sent: Option<usize>,
    r: PollAction,
)
    requires
        call_ensures(UdpConnectionEstablisher::on_hello_sent, (&c, to, peer, len, sent), r),
    ensures
        sent == Some(len) ==> (r matches PollAction::Punch(t) && t.peer_pubkey@ == peer@ && t.origin
            == (PunchOrigin::Greeted { to }) && !t.is_listener),
        sent != Some(len) ==> r is AskServer,
{
}

/// A packet of 55 bytes that ends with the key of an accepted peer, and is that peer's greeting,
/// leads to a hole punch towards where it came from, with this side listening. Any other packet,
/// and none, leads on to the server.
pub proof fn greeting_is_accepted(
    c: UdpConnectionEstablisher,
    from: SocketAddr,
    msg: Vec<u8>,
    now: Instant,
    r: PollAction,
    none: PollAction,
    k: Seq<u8>,
)
    requires
        call_ensures(
            UdpConnectionEstablisher::on_local_received,
            (&c, Some((from, msg)), now),
            r,
        ),
        call_ensures(UdpConnectionEstablisher::on_local_received, (&c, None, now), none),
        k.len() == 32,
    ensures
        none is AskServer,
        msg@ == hello_bytes(k) && c@.accepts_local(k, now) ==> (r matches PollAction::Punch(t)
            && t.peer_pubkey@ == k && t.origin == (PunchOrigin::GreetedBy { from })
            && t.is_listener),
        msg@ == hello_bytes(k) && !c@.accepts_local(k, now) ==> r is AskServer,
        r is AskServer || r is Punch,
        r matches PollAction::Punch(t) ==> msg@ == hello_bytes(t.peer_pubkey@) && c@.accepts_local(
            t.peer_pubkey@,
            now,
        ),
{
    hello_round_trip(k);
    if let Some(sender) = hello_sender(msg@) {
        greeting_names_its_sender(msg@, sender);
    }
}

/// A packet is the greeting of the peer that is read from it, and starts with the 23 letters of
/// `multicast-discovery-p2p`.
pub proof fn greeting_names_its_sender(msg: Seq<u8>, k: Seq<u8>)
    ensures
        hello_sender(msg) == Some(k) <==> k.len() == 32 && msg == hello_bytes(k),
        hello_bytes(k) == seq![
            109u8, 117, 108, 116, 105, 99, 97, 115, 116, 45, 100, 105, 115, 99, 111, 118, 101, 114,
            121, 45, 112, 50, 112,
        ] + k,
{
    if k.len() == 32 {
        hello_round_trip(k);
    }
    if hello_sender(msg) == Some(k) {
        assert(msg =~= hello_bytes(k));
    }
}

/// Of the clients that were found in the local network, the last that has the disguise of an
/// accepted peer is greeted with the client's own key. Where there is none, the client looks for
/// greetings of others.
pub proof fn last_accepted_client_is_greeted(
    c: UdpConnectionEstablisher,
    found: Vec<Discovered>,
    disguises: Vec<Disguise>,
    now: Instant,
    r: PollAction,
    i: int,
    n: int,
)
    requires
        call_ensures(
            UdpConnectionEstablisher::on_discovered,
            (&c, &found, &disguises, now),
            r,
        ),
    ensures
        r is SendHello || r is ReceiveLocal,
        0 <= i < found@.len() && 0 <= n < disguises@.len() && found@[i].1@ == disguises@[n].1@
            && c@.accepts_local(disguises@[n].0@, now) ==> r is SendHello,
        r matches PollAction::SendHello { to, peer, bytes } ==> {
            &&& bytes@ == hello_bytes(ed25519_public_key(c@.key))
            &&& exists|x: int, y: int|
                #![trigger found@[x], disguises@[y]]
                {
                    &&& 0 <= x < found@.len()
                    &&& 0 <= y < disguises@.len()
                    &&& found@[x].1@ == disguises@[y].1@
                    &&& c@.accepts_local(disguises@[y].0@, now)
                    &&& to == found@[x].0
                    &&& peer@ == disguises@[y].0@
                    &&& 0 <= i < found@.len() && 0 <= n < disguises@.len() && found@[i].1@
                        == disguises@[n].1@ && c@.accepts_local(disguises@[n].0@, now) ==> i < x || (
                    i == x && n <= y)
                }
        },
{
    let recognised = c@.recognises(found@, disguises@, i, n, now);
    assert(recognised <==> 0 <= i < found@.len() && 0 <= n < disguises@.len() && found@[i].1@
        == disguises@[n].1@ && c@.accepts_local(disguises@[n].0@, now));
    if r@ is ReceiveLocal {
        assert(!recognised);
    }
    if let PollAction::SendHello { to, peer, bytes } = r {
        let (x, y) = choose|x: int, y: int|
            #![trigger c@.recognises(found@, disguises@, x, y, now)]
            c@.recognises(found@, disguises@, x, y, now) && to == found@[x].0 && peer@
                == disguises@[y].0@ && forall|i2: int, n2: int|
                c@.recognises(found@, disguises@, i2, n2, now) ==> i2 < x || (i2 == x && n2 <= y);
        assert(found@[x].1@ == disguises@[y].1@);
    }
}

/// The server's introduction to a peer. One that is not trusted makes the poll fail after 100 ms. A
/// trusted one that is connected, disabled or looked for in the local network, and a session that
/// was accepted before, is ignored. In all other cases a hole is punched towards the peer, the
/// client takes the new session, and notes the peer's, which ends the search for it in the local
/// network. No other peer changes.
pub proof fn introductions_are_followed(
    c: ClientView,
    peer: Seq<u8>,
    peer_address: SocketAddrV4,
    remote_session_id: u32,
    is_listener: bool,
    fresh: u32,
    now: Instant,
    k: Seq<u8>,
)
    ensures
        ({
            let (after, action) = c.notified(
                NoticeView::InitiateConnectionRequest {
                    peer_pubkey: peer,
                    peer_address,
                    remote_session_id,
                    is_listener,
                },
                fresh,
                now,
            );
            let state = c.trusted_remotes[peer];
            let wanted = {
                &&& !(state.last_error_same_ip matches Some(t) && now - t < 6_000_000_000)
                &&& state.state_kind is Enabled || (
                state.state_kind matches PeerStateKind::DisabledUntil(end) && end < now)
                &&& state.last_accepted_session_id != Some(remote_session_id)
            };
            &&& !c.trusted_remotes.contains_key(peer) ==> after == c && action
                == ActionView::Finish(
                OutcomeView::Failed { error: PollError::NotTrusted, pause_ms: 100 },
            )
            &&& c.trusted_remotes.contains_key(peer) && !wanted ==> after == c && action
                == ActionView::Finish(OutcomeView::Nothing { pause_ms: 0 })
            &&& c.trusted_remotes.contains_key(peer) && wanted ==> {
                &&& action == ActionView::Punch(
                    TargetView {
                        peer_pubkey: peer,
                        origin: PunchOrigin::Introduced { peer_address, remote_session_id },
                        is_listener,
                    },
                )
                &&& after.trusted_remotes.contains_key(k) <==> c.trusted_remotes.contains_key(k)
                &&& k != peer ==> after.trusted_remotes[k] == c.trusted_remotes[k]
                &&& after.trusted_remotes[peer].last_accepted_session_id == Some(remote_session_id)
                &&& after.trusted_remotes[peer].last_error_same_ip is None
                &&& after.trusted_remotes[peer].state_kind == state.state_kind
                &&& after.trusted_remotes[peer].failure_retry_timeout
                    == state.failure_retry_timeout
                &&& after == (ClientView {
                    trusted_remotes: after.trusted_remotes,
                    session_id: fresh,
                    ..c
                })
            }
        }),
{
}

/// A lost request makes the client take a new session, and so does the demand for one, if it is for
/// the current session. Nothing else changes, and the poll ends without a pause.
pub proof fn sessions_are_renewed(
    c: ClientView,
    peer_pubkey: Seq<u8>,
    peer_address: SocketAddrV4,
    old_session_id: u32,
    fresh: u32,
    now: Instant,
)
    ensures
        c.notified(
            NoticeView::LostConnectionRequest { peer_pubkey, peer_address },
            fresh,
            now,
        ) == (
            ClientView { session_id: fresh, ..c },
            ActionView::Finish(OutcomeView::Nothing { pause_ms: 0 }),
        ),
        c.session_id == old_session_id ==> c.notified(
            NoticeView::NeedNewSession { old_session_id },
            fresh,
            now,
        ) == (
            ClientView { session_id: fresh, ..c },
            ActionView::Finish(OutcomeView::Nothing { pause_ms: 0 }),
        ),
        c.session_id != old_session_id ==> c.notified(
            NoticeView::NeedNewSession { old_session_id },
            fresh,
            now,
        ) == (c, ActionView::Finish(OutcomeView::Nothing { pause_ms: 0 })),
{
}

/// The report that a peer is behind our own IP address is noted for that peer, if it is trusted and
/// not connected, and changes nothing else.
pub proof fn same_ip_reports_are_noted(
    c: ClientView,
    peer_pubkey: Seq<u8>,
    fresh: u32,
    now: Instant,
    k: Seq<u8>,
)
    ensures
        ({
            let (after, action) = c.notified(NoticeView::ErrorSameIp { peer_pubkey }, fresh, now);
            let state = c.trusted_remotes[peer_pubkey];
            let noted = c.trusted_remotes.contains_key(peer_pubkey) && !(state.state_kind
                is ConnectionActive);
            &&& action == ActionView::Finish(OutcomeView::Nothing { pause_ms: 0 })
            &&& after == (ClientView { trusted_remotes: after.trusted_remotes, ..c })
            &&& after.trusted_remotes.contains_key(k) <==> c.trusted_remotes.contains_key(k)
            &&& c.trusted_remotes.contains_key(k) && !(noted && k == peer_pubkey)
                ==> after.trusted_remotes[k] == c.trusted_remotes[k]
            &&& noted ==> after.trusted_remotes[peer_pubkey] == (PeerState {
                last_error_same_ip: Some(now),
                ..state
            })
        }),
{
}

/// Silence ends a poll without a pause, and so does a packet from anyone but the server. A socket
/// that fails, and a packet from the server that is not understood, make it fail after 100 ms. Any
/// other packet from the server does what the notice in it does.
pub proof fn only_the_server_is_heard(
    c: ClientView,
    from: SocketAddr,
    bytes: Vec<u8>,
    fresh: u32,
    now: Instant,
)
    ensures
        c.received(Received::TimedOut, fresh, now) == (
            c,
            ActionView::Finish(OutcomeView::Nothing { pause_ms: 0 }),
        ),
        c.received(Received::Failed, fresh, now) == (
            c,
            ActionView::Finish(
                OutcomeView::Failed { error: PollError::Receive, pause_ms: 100 },
            ),
        ),
        from != SocketAddr::V4(c.p2p_server_addr) ==> c.received(
            Received::Datagram { from, bytes },
            fresh,
            now,
        ) == (c, ActionView::Finish(OutcomeView::Nothing { pause_ms: 0 })),
        from == SocketAddr::V4(c.p2p_server_addr) ==> match parsed_notice(bytes@) {
            Ok(notice) => c.received(Received::Datagram { from, bytes }, fresh, now) == c.notified(
                notice,
                fresh,
                now,
            ),
            Err(e) => c.received(Received::Datagram { from, bytes }, fresh, now) == (
                c,
                ActionView::Finish(
                    OutcomeView::Failed { error: PollError::Parse(e), pause_ms: 100 },
                ),
            ),
        },
{
}

/// Notices and packets are handled as for the state of the client, where a new session is the given
/// one or one of chance.
pub proof fn client_hears_for_its_state(
    c: &mut UdpConnectionEstablisher,
    notice: ServerNotice,
    fresh: u32,
    now: Instant,
    r: PollAction,
    d: &mut UdpConnectionEstablisher,
    s: PollAction,
    e: &mut UdpConnectionEstablisher,
    received: Received,
    t: PollAction,
    f: &mut UdpConnectionEstablisher,
    u: PollAction,
)
    requires
        call_ensures(UdpConnectionEstablisher::on_notice_with, (c, notice, fresh, now), r),
        call_ensures(UdpConnectionEstablisher::on_notice, (d, notice, now), s),
        call_ensures(UdpConnectionEstablisher::on_received_with, (e, received, fresh, now), t),
        call_ensures(UdpConnectionEstablisher::on_received, (f, received, now), u),
        old(d)@ == old(c)@,
        old(f)@ == old(e)@,
    ensures
        (final(c)@, r@) == old(c)@.notified(notice@, fresh, now),
        s@ == r@,
        final(d)@ == (ClientView { session_id: final(d)@.session_id, ..final(c)@ }),
        final(c)@.session_id != fresh ==> final(d)@ == final(c)@,
        (final(e)@, t@) == old(e)@.received(received, fresh, now),
        u@ == t@,
        final(f)@ == (ClientView { session_id: final(f)@.session_id, ..final(e)@ }),
        final(e)@.session_id != fresh ==> final(f)@ == final(e)@,
{
}

/// A punched hole ends the poll with a connection to the peer, at the address that was found. The
/// peer is connected from then on, its failures are forgotten, and the next request is due at once.
/// No other peer changes.
pub proof fn punched_hole_connects(
    c: &mut UdpConnectionEstablisher,
    target: PunchTarget,
    addr: SocketAddr,
    now: Instant,
    r: PollAction,
    k: Seq<u8>,
)
    requires
        call_ensures(UdpConnectionEstablisher::on_punched, (c, target, Ok(addr), now), r),
    ensures
        r@ matches ActionView::Finish(OutcomeView::Connected { connection }) && {
            &&& connection.pubkey == target.peer_pubkey@
            &&& connection.remote_addr == addr
            &&& connection.is_listener == target.is_listener
        },
        final(c)@.trusted_remotes.contains_key(k) <==> old(c)@.trusted_remotes.contains_key(k),
        old(c)@.trusted_remotes.contains_key(k) && k != target.peer_pubkey@
            ==> final(c)@.trusted_remotes[k] == old(c)@.trusted_remotes[k],
        old(c)@.trusted_remotes.contains_key(target.peer_pubkey@)
            ==> final(c)@.trusted_remotes[target.peer_pubkey@] == (PeerState {
            state_kind: PeerStateKind::ConnectionActive,
            failure_retry_timeout: 100_000_000,
            ..old(c)@.trusted_remotes[target.peer_pubkey@]
        }),
        final(c)@ == (ClientView {
            trusted_remotes: final(c)@.trusted_remotes,
            last_request_tm: None,
            ..old(c)@
        }),
{
}

/// A failed hole punch makes the poll fail after 100 ms, and tells how it came about and what was
/// missing. The peer is disabled for its retry timeout. No other peer changes, and the next request
/// is due as before.
pub proof fn failed_punch_disables_the_peer(
    c: &mut UdpConnectionEstablisher,
    target: PunchTarget,
    error: HolePunchError,
    now: Instant,
    r: PollAction,
    k: Seq<u8>,
)
    requires
        call_ensures(UdpConnectionEstablisher::on_punched, (c, target, Err(error), now), r),
        now + 5_000_000_000 <= u64::MAX,
        old(c)@.trusted_remotes.contains_key(target.peer_pubkey@)
            ==> old(c)@.trusted_remotes[target.peer_pubkey@].failure_retry_timeout <= 5_000_000_000,
    ensures
        r@ == ActionView::Finish(
            OutcomeView::Failed {
                error: PollError::HolePunch { origin: target.origin, error },
                pause_ms: 100,
            },
        ),
        final(c)@.trusted_remotes.contains_key(k) <==> old(c)@.trusted_remotes.contains_key(k),
        old(c)@.trusted_remotes.contains_key(k) && k != target.peer_pubkey@
            ==> final(c)@.trusted_remotes[k] == old(c)@.trusted_remotes[k],
        old(c)@.trusted_remotes.contains_key(target.peer_pubkey@) ==> {
            let before = old(c)@.trusted_remotes[target.peer_pubkey@];
            let after = final(c)@.trusted_remotes[target.peer_pubkey@];
            &&& after.state_kind matches PeerStateKind::DisabledUntil(end) && end - now
                == before.failure_retry_timeout
            &&& after.failure_retry_timeout >= before.failure_retry_timeout
            &&& after.last_accepted_session_id == before.last_accepted_session_id
            &&& after.last_error_same_ip == before.last_error_same_ip
        },
        final(c)@ == (ClientView { trusted_remotes: final(c)@.trusted_remotes, ..old(c)@ }),
{
}

/// Where nobody is to be asked for, the turn for a request ends the poll after 100 ms. Otherwise a
/// datagram goes to the server from which it reads who asks, in which session, and for whom: for all
/// that are to be asked for if there are at most 10, and for 10 of them if there are more.
pub proof fn request_names_the_available_peers(
    c: UdpConnectionEstablisher,
    now: Instant,
    all: Vec<PublicKey>,
    r: PollAction,
    i: int,
)
    requires
        call_ensures(UdpConnectionEstablisher::available_remotes, (&c, now), all),
        call_ensures(UdpConnectionEstablisher::request_turn, (&c, now), r),
    ensures
        all@.len() == 0 ==> r@ == ActionView::Finish(OutcomeView::Nothing { pause_ms: 100 }),
        all@.len() > 0 ==> (r matches PollAction::SendRequest { to, bytes } && {
            &&& to == c@.p2p_server_addr
            &&& !overruns(bytes@)
            &&& signed_parse(bytes@) matches Ok(m) && {
                &&& m.1 == ed25519_public_key(c@.key)
                &&& m.0.session_id == c@.session_id
                &&& all@.len() <= 10 ==> m.0.peer_pubkeys.len() == all@.len() && (0 <= i
                    < all@.len() ==> m.0.peer_pubkeys[i] == all@[i]@)
                &&& all@.len() > 10 ==> m.0.peer_pubkeys.len() == 10
                    && m.0.peer_pubkeys.no_duplicates()
                &&& 0 <= i < m.0.peer_pubkeys.len() ==> exists|x: int|
                    0 <= x < all@.len() && (#[trigger] all@[x])@ == m.0.peer_pubkeys[i]
            }
        }),
{
    let views = key_views(all@);
    let (list, peers, timestamp) = choose|list: Seq<Seq<u8>>, peers: Seq<Seq<u8>>, timestamp: int|
        #![trigger lists_available(c@, list, now), c@.request_turn_action(peers, timestamp)]
        lists_available(c@, list, now) && picks(list, peers, 10) && r@ == c@.request_turn_action(
            peers,
            timestamp,
        ) && (peers.len() > 0 ==> c@.asks_for(r@, peers));
    available_list_is_unique(c@, list, views, now);
    if all@.len() > 0 {
        if let PollAction::SendRequest { to, bytes } = r {
            let m = signed_parse(bytes@)->Ok_0;
            assert(m.0.peer_pubkeys == peers);
            if 0 <= i < peers.len() {
                assert(peers.contains(peers[i]));
                assert(views.contains(peers[i]));
                let x = choose|x: int| 0 <= x < views.len() && views[x] == peers[i];
                assert(all@[x]@ == peers[i]);
            }
        }
    }
}

/// The names of interfaces are compared by their characters.
pub proof fn interface_names_are_texts(name: Option<String>)
    ensures
        name is None <==> name_view(name) is None,
        name matches Some(n) ==> name_view(name) == Some(n@),
{
}

/// The trusted peers are listed once each, and nobody else is.
pub proof fn trusted_peers_are_listed(
    c: UdpConnectionEstablisher,
    keys: Vec<PublicKey>,
    k: Seq<u8>,
    i: int,
    j: int,
)
    requires
        call_ensures(UdpConnectionEstablisher::trusted_keys, (&c,), keys),
    ensures
        c@.trusted_remotes.contains_key(k) <==> exists|x: int|
            0 <= x < keys@.len() && (#[trigger] keys@[x])@ == k,
        0 <= i < j < keys@.len() ==> keys@[i]@ != keys@[j]@,
{
    let views = key_views(keys@);
    assert(c@.trusted_remotes.contains_key(k) <==> views.contains(k));
    if views.contains(k) {
        let x = choose|x: int| 0 <= x < views.len() && views[x] == k;
        assert(keys@[x]@ == k);
    }
    assert forall|x: int| 0 <= x < keys@.len() && (#[trigger] keys@[x])@ == k implies views.contains(
        k,
    ) by {
        assert(views[x] == k);
    }
    if 0 <= i < j < keys@.len() {
        assert(key_lt(keys@[i]@, keys@[j]@));
        key_lt_asymmetric(keys@[i]@, keys@[j]@);
    }
}

/// A request for given peers goes to the server, which reads from it who asks, in which session, and
/// for which peers.
pub proof fn request_says_who_asks_for_whom(
    c: UdpConnectionEstablisher,
    keys: Vec<PublicKey>,
    r: PollAction,
    i: int,
)
    requires
        0 < keys@.len() <= 10,
        call_ensures(UdpConnectionEstablisher::place_connection_requests, (&c, keys), r),
    ensures
        r matches PollAction::SendRequest { to, bytes } && {
            &&& to == c@.p2p_server_addr
            &&& !overruns(bytes@)
            &&& signed_parse(bytes@) matches Ok(m) && {
                &&& m.1 == ed25519_public_key(c@.key)
                &&& m.0.session_id == c@.session_id
                &&& m.0.peer_pubkeys.len() == keys@.len()
                &&& 0 <= i < keys@.len() ==> m.0.peer_pubkeys[i] == keys@[i]@
            }
        },
{
}

/// Greetings are written and read: whoever reads one learns its sender, and from nothing else is a
/// sender learned.
pub proof fn greetings_are_written_and_read(
    k: PublicKey,
    bytes: Vec<u8>,
    msg: &[u8],
    sender: Option<PublicKey>,
    c: UdpConnectionEstablisher,
    own: Vec<u8>,
    now: Instant,
    accepted: Option<PublicKey>,
)
    requires
        call_ensures(write_hello, (&k,), bytes),
        call_ensures(read_hello, (msg,), sender),
        call_ensures(UdpConnectionEstablisher::discovery_hello, (&c,), own),
        call_ensures(UdpConnectionEstablisher::on_local_datagram, (&c, msg, now), accepted),
    ensures
        bytes@.len() == 55,
        bytes@.skip(23) == k@,
        msg@ == bytes@ ==> sender is Some && sender->0@ == k@,
        sender matches Some(s) ==> msg@ == hello_bytes(s@),
        own@ == hello_bytes(ed25519_public_key(c@.key)),
        accepted matches Some(s) ==> msg@ == hello_bytes(s@) && c@.accepts_local(s@, now),
        accepted is None ==> (sender matches Some(s) ==> !c@.accepts_local(s@, now)),
{
    greeting_names_its_sender(bytes@, k@);
    assert(bytes@.skip(23) =~= k@);
    if let Some(s) = sender {
        greeting_names_its_sender(msg@, s@);
    }
    if let Some(s) = accepted {
        greeting_names_its_sender(msg@, s@);
    }
}

/// The first packets of a hole punch go to the address in the introduction, to where the greeting
/// went, or to where it came from.
pub proof fn punches_go_to_the_peer(
    peer_address: SocketAddrV4,
    remote_session_id: u32,
    from: SocketAddr,
    introduced: SocketAddr,
    greeted: SocketAddr,
    greeted_by: SocketAddr,
)
    requires
        call_ensures(
            PunchOrigin::peer_address,
            (&PunchOrigin::Introduced { peer_address, remote_session_id },),
            introduced,
        ),
        call_ensures(
            PunchOrigin::peer_address,
            (&PunchOrigin::Greeted { to: peer_address },),
            greeted,
        ),
        call_ensures(PunchOrigin::peer_address, (&PunchOrigin::GreetedBy { from },), greeted_by),
    ensures
        introduced == SocketAddr::V4(peer_address),
        greeted == SocketAddr::V4(peer_address),
        greeted_by == from,
{
}

/// Each error of a poll is put into words, that of an introduction with the address and the session
/// in it.
pub proof fn poll_errors_are_named(e: PollError, r: String)
    requires
        call_ensures(PollError::message, (&e,), r),
    ensures
        e is Receive ==> r@ == "Receiving message from P2P server"@,
        e is Parse ==> r@ == "Parsing message from P2P server"@,
        e is NotTrusted ==> r@ == "Peer pubkey not in trusted list"@,
        e matches PollError::HolePunch { origin, .. } ==> match origin {
            PunchOrigin::Introduced { peer_address: a, remote_session_id } => r@
                == "Handling InitiateConnectionRequest from p2p server for peer "@ + (decimal(
                a.ip.a as nat,
            ) + "."@ + decimal(a.ip.b as nat) + "."@ + decimal(a.ip.c as nat) + "."@ + decimal(
                a.ip.d as nat,
            ) + ":"@ + decimal(a.port as nat)) + ", session_id="@ + decimal(
                remote_session_id as nat,
            ),
            _ => r@ == "Connecting to peer in the local network"@,
        },
{
}

/// The first keys of a list are kept, as many as asked for.
pub proof fn lists_are_limited(keys: Vec<PublicKey>, max: usize, r: Vec<PublicKey>, i: int)
    requires
        call_ensures(limit_remotes, (keys, max), r),
    ensures
        r@.len() <= max,
        r@.len() <= keys@.len(),
        r@.len() == max || r@.len() == keys@.len(),
        0 <= i < r@.len() ==> r@[i] == keys@[i],
{
}

/// What the application is told to do is seen in full.
pub proof fn actions_are_seen_in_full(
    announce: bool,
    to: SocketAddrV4,
    peer: PublicKey,
    bytes: Vec<u8>,
    payload: u64,
    target: PunchTarget,
    pause_ms: u64,
    error: PollError,
    connection: NewP2pConnection,
)
    ensures
        PollAction::Rebind@ is Rebind,
        PollAction::ReceiveLocal@ is ReceiveLocal,
        PollAction::AskServer@ is AskServer,
        PollAction::PlaceRequest@ is PlaceRequest,
        PollAction::Receive@ is Receive,
        (PollAction::PollMulticast { announce })@ == (ActionView::PollMulticast { announce }),
        (PollAction::SendHello { to, peer, bytes })@ == (ActionView::SendHello {
            to,
            peer: peer@,
            bytes: bytes@,
        }),
        (PollAction::SendPing { payload })@ == (ActionView::SendPing { payload }),
        (PollAction::SendRequest { to, bytes })@ == (ActionView::SendRequest { to, bytes: bytes@ }),
        PollAction::Punch(target)@ == ActionView::Punch(
            TargetView {
                peer_pubkey: target.peer_pubkey@,
                origin: target.origin,
                is_listener: target.is_listener,
            },
        ),
        PollAction::Finish(Outcome::Nothing { pause_ms })@ == ActionView::Finish(
            OutcomeView::Nothing { pause_ms },
        ),
        PollAction::Finish(Outcome::Failed { error, pause_ms })@ == ActionView::Finish(
            OutcomeView::Failed { error, pause_ms },
        ),
        PollAction::Finish(Outcome::Connected { connection })@ == ActionView::Finish(
            OutcomeView::Connected {
                connection: ConnectionView {
                    pubkey: connection.pubkey@,
                    remote_addr: connection.remote_addr,
                    is_listener: connection.is_listener,
                },
            },
        ),
{
}

} // verus!
