//! The UDP side of the server: it matches the connection requests of peers that trust each other.
pub mod matching;

use vstd::prelude::*;
use crate::keys::{contains_key, key_views, KeyMap, PublicKey};
use crate::net::{SocketAddr, SocketAddrV4};
use crate::time::{elapsed_secs, secs_since, Instant, UtcTime, NANOS_PER_MILLI, NANOS_PER_SEC};
use crate::outside::{timestamp_valid, utc_now};
use crate::udp::messages::{overruns, signed_parse, ConnectionRequestView, ParseError};
use crate::udp::messages::{ToServerSignedMessage, Verified};
use crate::udp::notices::{NoticeView, ServerNotice};

verus! {

/// A request is live while it is no more than so many whole seconds old. A clean-up drops older ones
/// if some request is live, and keeps them if none is.
pub const REQUEST_TIMEOUT_S: u64 = 10;

/// For how many seconds a signed message is valid.
pub const SIGNED_MSG_VALID_S: i64 = 10;

/// What a waiting request holds.
pub struct RequestView {
    pub pubkey: Seq<u8>,
    pub addr: SocketAddrV4,
    pub session_id: u32,
    pub trusted_remotes: Seq<Seq<u8>>,
    pub tm: Instant,
}

/// The session with which a client was last introduced, and the peer that it was introduced to.
pub struct SessionView {
    pub session_id: u32,
    pub remote_addr: SocketAddrV4,
    pub remote_peer: Seq<u8>,
}

/// The waiting requests and the last introductions, by public key.
pub struct UdpStateView {
    pub requests: Map<Seq<u8>, RequestView>,
    pub sessions: Map<Seq<u8>, SessionView>,
}

/// A request that waits for the request of a peer.
pub struct RequestInfo {
    pub requester_pubkey: PublicKey,
    pub requester_addr: SocketAddrV4,
    pub requester_session_id: u32,
    pub trusted_remotes: Vec<PublicKey>,
    pub tm: Instant,
}

impl View for RequestInfo {
    type V = RequestView;

    open spec fn view(&self) -> RequestView {
        RequestView {
            pubkey: self.requester_pubkey@,
            addr: self.requester_addr,
            session_id: self.requester_session_id,
            trusted_remotes: key_views(self.trusted_remotes@),
            tm: self.tm,
        }
    }
}

/// The session with which a client was last introduced, and the peer that it was introduced to.
pub struct ActiveSession {
    /// The client's own session.
    pub session_id: u32,
    pub remote_addr: SocketAddrV4,
    pub remote_peer: PublicKey,
}

impl View for ActiveSession {
    type V = SessionView;

    open spec fn view(&self) -> SessionView {
        SessionView {
            session_id: self.session_id,
            remote_addr: self.remote_addr,
            remote_peer: self.remote_peer@,
        }
    }
}

/// The state of the UDP server.
pub struct UdpState {
    /// The waiting request of each client.
    requests: KeyMap<RequestInfo>,
    /// The last introduction of each client.
    last_session_ids: KeyMap<ActiveSession>,
}

impl View for UdpState {
    type V = UdpStateView;

    closed spec fn view(&self) -> UdpStateView {
        UdpStateView {
            requests: self.requests@.map_values(|r: RequestInfo| r@),
            sessions: self.last_session_ids@.map_values(|s: ActiveSession| s@),
        }
    }
}

/// Whether a request is neither too old nor without peers.
pub open spec fn is_live(r: RequestView, now: Instant) -> bool {
    secs_since(r.tm, now) <= REQUEST_TIMEOUT_S && r.trusted_remotes.len() > 0
}

/// Whether one of the requests is live.
pub open spec fn some_live(requests: Map<Seq<u8>, RequestView>, now: Instant) -> bool {
    exists|k: Seq<u8>| requests.contains_key(k) && is_live(#[trigger] requests[k], now)
}

/// The requests after a clean-up: if some of them are live, only those are kept.
pub open spec fn cleaned(
    requests: Map<Seq<u8>, RequestView>,
    now: Instant,
) -> Map<Seq<u8>, RequestView> {
    if some_live(requests, now) {
        Map::new(
            |k: Seq<u8>| requests.contains_key(k) && is_live(requests[k], now),
            |k: Seq<u8>| requests[k],
        )
    } else {
        requests
    }
}

/// A notice and where it goes.
pub type Mail = (SocketAddrV4, NoticeView);

/// Whether `requests` holds a request of `peer` that names `sender`.
pub open spec fn asks_for(
    requests: Map<Seq<u8>, RequestView>,
    peer: Seq<u8>,
    sender: Seq<u8>,
) -> bool {
    requests.contains_key(peer) && requests[peer].trusted_remotes.contains(sender)
}

/// The outcome of the search for a peer that asks for the sender too: that peer, the requests that
/// are left, and the notices on peers behind the sender's own IP address.
pub struct Search {
    pub found: Option<(Seq<u8>, RequestView)>,
    pub requests: Map<Seq<u8>, RequestView>,
    pub mail: Seq<Mail>,
}

/// Searches `peers` for one that asks for `sender` from another IP address than that of `addr`. Each
/// peer on the way that asks for `sender` loses its request, and one that does so from the same IP
/// address is told, as is the sender.
pub open spec fn search(
    requests: Map<Seq<u8>, RequestView>,
    peers: Seq<Seq<u8>>,
    sender: Seq<u8>,
    addr: SocketAddrV4,
) -> Search
    decreases peers.len(),
{
    if peers.len() == 0 {
        Search { found: None, requests, mail: Seq::empty() }
    } else {
        let peer = peers[0];
        if !asks_for(requests, peer, sender) {
            search(requests, peers.skip(1), sender, addr)
        } else if requests[peer].addr.ip == addr.ip {
            let rest = search(requests.remove(peer), peers.skip(1), sender, addr);
            Search {
                mail: same_ip_mail(peer, requests[peer].addr, sender, addr) + rest.mail,
                ..rest
            }
        } else {
            Search {
                found: Some((peer, requests[peer])),
                requests: requests.remove(peer),
                mail: Seq::empty(),
            }
        }
    }
}

/// The notices that `peer` and `sender` are behind one IP address.
pub open spec fn same_ip_mail(
    peer: Seq<u8>,
    peer_addr: SocketAddrV4,
    sender: Seq<u8>,
    addr: SocketAddrV4,
) -> Seq<Mail> {
    seq![
        (peer_addr, NoticeView::ErrorSameIp { peer_pubkey: sender }),
        (addr, NoticeView::ErrorSameIp { peer_pubkey: peer }),
    ]
}

/// The notices that introduce `sender`, at `addr` with `session_id`, and a waiting peer to each
/// other. The sender is the one to listen.
pub open spec fn introduction_mail(
    peer: Seq<u8>,
    request: RequestView,
    sender: Seq<u8>,
    addr: SocketAddrV4,
    session_id: u32,
) -> Seq<Mail> {
    seq![
        (
            request.addr,
            NoticeView::InitiateConnectionRequest {
                peer_pubkey: sender,
                peer_address: addr,
                remote_session_id: session_id,
                is_listener: false,
            },
        ),
        (
            addr,
            NoticeView::InitiateConnectionRequest {
                peer_pubkey: peer,
                peer_address: request.addr,
                remote_session_id: request.session_id,
                is_listener: true,
            },
        ),
    ]
}

/// Whether `session_id` is the session with which `sender` was last introduced to a peer.
pub open spec fn session_is_used(s: UdpStateView, sender: Seq<u8>, session_id: u32) -> bool {
    s.sessions.contains_key(sender) && s.sessions[sender].session_id == session_id
}

/// What a connection request of `sender` does: the new state, and the notices to send.
pub open spec fn placed(
    s: UdpStateView,
    sender: Seq<u8>,
    addr: SocketAddrV4,
    request: ConnectionRequestView,
    now: Instant,
) -> (UdpStateView, Seq<Mail>) {
    let waiting = cleaned(s.requests, now);
    let session_id = request.session_id;
    if session_is_used(s, sender, session_id) {
        (
            UdpStateView { requests: waiting, ..s },
            seq![(addr, NoticeView::NeedNewSession { old_session_id: session_id })],
        )
    } else {
        let result = search(waiting.remove(sender), request.peer_pubkeys, sender, addr);
        match result.found {
            Some((peer, other)) => (
                UdpStateView {
                    requests: result.requests,
                    sessions: s.sessions.insert(
                        sender,
                        SessionView { session_id, remote_addr: other.addr, remote_peer: peer },
                    ).insert(
                        peer,
                        SessionView {
                            session_id: other.session_id,
                            remote_addr: addr,
                            remote_peer: sender,
                        },
                    ),
                },
                result.mail + introduction_mail(peer, other, sender, addr, session_id),
            ),
            None => (
                UdpStateView {
                    requests: result.requests.insert(
                        sender,
                        RequestView {
                            pubkey: sender,
                            addr,
                            session_id,
                            trusted_remotes: request.peer_pubkeys,
                            tm: now,
                        },
                    ),
                    ..s
                },
                result.mail,
            ),
        }
    }
}

/// The content of notices with their destinations.
pub open spec fn mail_view(mail: Seq<(SocketAddrV4, ServerNotice)>) -> Seq<Mail> {
    mail.map_values(|m: (SocketAddrV4, ServerNotice)| (m.0, m.1@))
}

impl UdpState {
    /// Whether each request is filed under the key of its sender.
    pub closed spec fn wf(&self) -> bool {
        &&& self.requests.wf()
        &&& self.last_session_ids.wf()
        &&& forall|k: Seq<u8>|
            #![trigger self.requests@[k]]
            self.requests@.contains_key(k) ==> self.requests@[k].requester_pubkey@ == k
    }

    /// A server without requests.
    pub fn new() -> (r: Self)
        ensures
            r.wf(),
            r@.requests == Map::<Seq<u8>, RequestView>::empty(),
            r@.sessions == Map::<Seq<u8>, SessionView>::empty(),
    {
        let r = UdpState { requests: KeyMap::new(), last_session_ids: KeyMap::new() };
        assert(r@.requests =~= Map::empty());
        assert(r@.sessions =~= Map::empty());
        r
    }

    fn request_is_live(info: &RequestInfo, now: Instant) -> (r: bool)
        ensures
            r == is_live(info@, now),
    {
        elapsed_secs(info.tm, now) <= REQUEST_TIMEOUT_S && info.trusted_remotes.len() > 0
    }

    /// Whether some request is live.
    fn has_live_request(&self, now: Instant) -> (r: bool)
        requires
            self.wf(),
        ensures
            r == some_live(self@.requests, now),
    {
        proof {
            self.requests.keys_are_domain();
        }
        let n: usize = self.requests.len();
        let mut i: usize = 0;
        while i < n
            invariant
                self.wf(),
                i <= n == self.requests.keys().len(),
                forall|j: int|
                    0 <= j < i ==> !is_live(
                        self@.requests[#[trigger] self.requests.keys()[j]],
                        now,
                    ),
            decreases n - i,
        {
            let info = self.requests.value_at(i);
            let ghost k = self.requests.keys()[i as int];
            assert(self@.requests.contains_key(k) && self@.requests[k] == info@);
            if UdpState::request_is_live(info, now) {
                assert(is_live(self@.requests[k], now));
                return true;
            }
            i = i + 1;
        }
        proof {
            assert forall|k: Seq<u8>| self@.requests.contains_key(k) implies !is_live(
                #[trigger] self@.requests[k],
                now,
            ) by {
                assert(self.requests@.contains_key(k));
                assert(self.requests.keys().contains(k));
                let j = choose|j: int| 0 <= j < self.requests.keys().len() && self.requests.keys()[j] == k;
                assert(!is_live(self@.requests[self.requests.keys()[j]], now));
            }
        }
        false
    }

    /// Removes requests that are not live, if some are.
    pub fn cleanup(&mut self, now: Instant)
        requires
            old(self).wf(),
        ensures
            final(self).wf(),
            final(self)@.requests == cleaned(old(self)@.requests, now),
            final(self)@.sessions == old(self)@.sessions,
    {
        if !self.has_live_request(now) {
            return;
        }
        let ghost before = *self;
        let mut i: usize = 0;
        while i < self.requests.len()
            invariant
                self.wf(),
                i <= self.requests.keys().len(),
                self.last_session_ids == before.last_session_ids,
                forall|k: Seq<u8>|
                    #![trigger self.requests@.contains_key(k)]
                    self.requests@.contains_key(k) ==> before.requests@.contains_key(k)
                        && self.requests@[k] == before.requests@[k],
                forall|k: Seq<u8>|
                    #![trigger before.requests@.contains_key(k)]
                    before.requests@.contains_key(k) && is_live(before.requests@[k]@, now)
                        ==> self.requests@.contains_key(k),
                forall|j: int|
                    0 <= j < i ==> is_live(
                        self.requests@[#[trigger] self.requests.keys()[j]]@,
                        now,
                    ),
            decreases self.requests.keys().len() - i,
        {
            proof {
                self.requests.keys_are_domain();
            }
            let ghost keys = self.requests.keys();
            let ghost k = keys[i as int];
            if UdpState::request_is_live(self.requests.value_at(i), now) {
                i = i + 1;
            } else {
                let _ = self.requests.remove_at(i);
                proof {
                    assert forall|j: int| 0 <= j < i implies is_live(
                        self.requests@[#[trigger] self.requests.keys()[j]]@,
                        now,
                    ) by {
                        assert(self.requests.keys()[j] == keys[j]);
                        assert(keys[j] != k);
                    }
                }
            }
        }
        proof {
            self.requests.keys_are_domain();
            let expected = cleaned(before@.requests, now);
            assert forall|k: Seq<u8>| self@.requests.contains_key(k) <==> expected.contains_key(k) by {
                if self.requests@.contains_key(k) {
                    assert(self.requests.keys().contains(k));
                    let j = choose|j: int| 0 <= j < self.requests.keys().len() && self.requests.keys()[j] == k;
                    assert(is_live(self.requests@[self.requests.keys()[j]]@, now));
                }
                if expected.contains_key(k) {
                    assert(before.requests@.contains_key(k));
                }
            }
            assert(self@.requests =~= expected);
        }
    }
}

impl UdpState {
    /// Removes the request of `k`.
    fn take_request(&mut self, k: &PublicKey) -> (r: Option<RequestInfo>)
        requires
            old(self).wf(),
        ensures
            final(self).wf(),
            final(self)@.requests == old(self)@.requests.remove(k@),
            final(self)@.sessions == old(self)@.sessions,
            r is Some <==> old(self)@.requests.contains_key(k@),
            r matches Some(info) ==> info@ == old(self)@.requests[k@] && info.requester_pubkey@ == k@,
    {
        let r = self.requests.remove(k);
        assert(self@.requests =~= old(self)@.requests.remove(k@));
        r
    }

    /// The address of the request of `k`, if there is one and it names `sender`.
    fn request_for(&self, k: &PublicKey, sender: &PublicKey) -> (r: Option<SocketAddrV4>)
        requires
            self.wf(),
        ensures
            r is Some <==> asks_for(self@.requests, k@, sender@),
            r matches Some(addr) ==> addr == self@.requests[k@].addr,
    {
        match self.requests.get(k) {
            Some(info) => if contains_key(&info.trusted_remotes, sender) {
                Some(info.requester_addr)
            } else {
                None
            },
            None => None,
        }
    }

    /// Searches for the request of a peer that asks for `sender`, and removes it. Appends the
    /// notices on peers behind the same IP address.
    fn find_match(
        &mut self,
        peers: &Vec<PublicKey>,
        sender: &PublicKey,
        addr: SocketAddrV4,
        mail: &mut Vec<(SocketAddrV4, ServerNotice)>,
    ) -> (r: Option<RequestInfo>)
        requires
            old(self).wf(),
        ensures
            final(self).wf(),
            final(self)@.sessions == old(self)@.sessions,
            ({
                let s = search(old(self)@.requests, key_views(peers@), sender@, addr);
                &&& final(self)@.requests == s.requests
                &&& mail_view(final(mail)@) == mail_view(old(mail)@) + s.mail
                &&& match r {
                    Some(info) => s.found == Some((info.requester_pubkey@, info@)),
                    None => s.found is None,
                }
            }),
    {
        let ghost keys = key_views(peers@);
        let ghost whole = search(self@.requests, keys, sender@, addr);
        let ghost prefix = mail_view(mail@);
        let mut i: usize = 0;
        assert(keys.skip(0) =~= keys);
        assert(prefix + whole.mail =~= mail_view(mail@) + whole.mail);
        while i < peers.len()
            invariant
                self.wf(),
                self@.sessions == old(self)@.sessions,
                i <= peers@.len(),
                keys == key_views(peers@),
                whole == search(old(self)@.requests, keys, sender@, addr),
                prefix == mail_view(old(mail)@),
                ({
                    let rest = search(self@.requests, keys.skip(i as int), sender@, addr);
                    &&& whole.found == rest.found
                    &&& whole.requests == rest.requests
                    &&& prefix + whole.mail == mail_view(mail@) + rest.mail
                }),
            decreases peers@.len() - i,
        {
            let peer = peers[i];
            let ghost left = keys.skip(i as int);
            let ghost rest = search(self@.requests, left, sender@, addr);
            let ghost tail = search(self@.requests.remove(peer@), keys.skip(i + 1), sender@, addr);
            assert(left[0] == peer@);
            assert(left.skip(1) =~= keys.skip(i + 1));
            if let Some(peer_addr) = self.request_for(&peer, sender) {
                let taken = self.take_request(&peer);
                if peer_addr.ip == addr.ip {
                    let ghost before = mail_view(mail@);
                    mail.push((peer_addr, ServerNotice::ErrorSameIp { peer_pubkey: *sender }));
                    mail.push((addr, ServerNotice::ErrorSameIp { peer_pubkey: peer }));
                    proof {
                        assert(mail_view(mail@) =~= before + same_ip_mail(
                            peer@,
                            peer_addr,
                            sender@,
                            addr,
                        ));
                        assert(before + rest.mail =~= mail_view(mail@) + tail.mail);
                    }
                } else {
                    assert(mail_view(mail@) + rest.mail =~= mail_view(mail@));
                    return taken;
                }
            }
            i = i + 1;
        }
        assert(keys.skip(i as int).len() == 0);
        assert(mail_view(mail@) + Seq::<Mail>::empty() =~= mail_view(mail@));
        None
    }

    /// Handles a connection request of `sender`, which came from `addr` and whose signature is
    /// valid. Returns the notices to send.
    pub fn on_connection_request(
        &mut self,
        sender: PublicKey,
        addr: SocketAddrV4,
        peer_pubkeys: Vec<PublicKey>,
        session_id: u32,
        now: Instant,
    ) -> (mail: Vec<(SocketAddrV4, ServerNotice)>)
        requires
            old(self).wf(),
        ensures
            final(self).wf(),
            (final(self)@, mail_view(mail@)) == placed(
                old(self)@,
                sender@,
                addr,
                ConnectionRequestView { peer_pubkeys: key_views(peer_pubkeys@), session_id },
                now,
            ),
    {
        let ghost request = ConnectionRequestView {
            peer_pubkeys: key_views(peer_pubkeys@),
            session_id,
        };
        let mut mail: Vec<(SocketAddrV4, ServerNotice)> = Vec::new();
        self.cleanup(now);

        // the session must differ from that of the last established connection
        if let Some(active_session) = self.last_session_ids.get(&sender) {
            assert(self@.sessions[sender@] == active_session@);
            if active_session.session_id == session_id {
                mail.push((addr, ServerNotice::NeedNewSession { old_session_id: session_id }));
                assert(mail_view(mail@) =~= placed(old(self)@, sender@, addr, request, now).1);
                return mail;
            }
        }
        assert(!session_is_used(old(self)@, sender@, session_id));

        // an earlier request of the sender is replaced
        let _ = self.take_request(&sender);
        let ghost waiting = self@.requests;
        let ghost found = search(waiting, key_views(peer_pubkeys@), sender@, addr);
        assert(mail_view(mail@) + found.mail =~= found.mail);
        match self.find_match(&peer_pubkeys, &sender, addr, &mut mail) {
            Some(request) => {
                let ghost before = mail_view(mail@);
                mail.push(
                    (
                        request.requester_addr,
                        ServerNotice::InitiateConnectionRequest {
                            peer_pubkey: sender,
                            peer_address: addr,
                            remote_session_id: session_id,
                            is_listener: false,
                        },
                    ),
                );
                mail.push(
                    (
                        addr,
                        ServerNotice::InitiateConnectionRequest {
                            peer_pubkey: request.requester_pubkey,
                            peer_address: request.requester_addr,
                            remote_session_id: request.requester_session_id,
                            is_listener: true,
                        },
                    ),
                );
                assert(mail_view(mail@) =~= before + introduction_mail(
                    request.requester_pubkey@,
                    request@,
                    sender@,
                    addr,
                    session_id,
                ));
                let ghost sessions = self@.sessions;
                self.last_session_ids.insert(
                    sender,
                    ActiveSession {
                        remote_peer: request.requester_pubkey,
                        remote_addr: request.requester_addr,
                        session_id,
                    },
                );
                self.last_session_ids.insert(
                    request.requester_pubkey,
                    ActiveSession {
                        remote_peer: sender,
                        remote_addr: addr,
                        session_id: request.requester_session_id,
                    },
                );
                assert(self@.sessions =~= sessions.insert(
                    sender@,
                    SessionView {
                        session_id,
                        remote_addr: request.requester_addr,
                        remote_peer: request.requester_pubkey@,
                    },
                ).insert(
                    request.requester_pubkey@,
                    SessionView {
                        session_id: request.requester_session_id,
                        remote_addr: addr,
                        remote_peer: sender@,
                    },
                ));
            },
            None => {
                let ghost requests = self@.requests;
                let info = RequestInfo {
                    requester_pubkey: sender,
                    requester_addr: addr,
                    requester_session_id: session_id,
                    trusted_remotes: peer_pubkeys,
                    tm: now,
                };
                self.requests.insert(sender, info);
                assert(self@.requests =~= requests.insert(sender@, info@));
            },
        }
        mail
    }
}

/// Whether a signed message that was made at `timestamp`, in milliseconds since 1970, is valid at
/// `now`: the times differ by no more than 10 seconds.
pub open spec fn is_fresh(timestamp: int, now: UtcTime) -> bool {
    let diff = now.total_nanos() - timestamp * NANOS_PER_MILLI;
    let distance = if diff >= 0 {
        diff
    } else {
        -diff
    };
    distance <= SIGNED_MSG_VALID_S * NANOS_PER_SEC
}

/// Whether a signed message that was made at `timestamp` is valid at `now`.
pub fn message_is_fresh(timestamp: i64, now: UtcTime) -> (r: bool)
    ensures
        r == is_fresh(timestamp as int, now),
{
    let now_nanos: i128 = now.secs as i128 * 1_000_000_000 + now.nanos as i128;
    let diff: i128 = now_nanos - timestamp as i128 * 1_000_000;
    let distance: i128 = if diff >= 0 {
        diff
    } else {
        -diff
    };
    distance <= SIGNED_MSG_VALID_S as i128 * 1_000_000_000
}

/// For how many milliseconds the server pauses after an error.
pub const ERROR_PAUSE_MS: u64 = 20;

/// What happens to the UDP server.
pub enum UdpEvent {
    /// The socket failed to receive.
    ReceiveFailed,
    /// A datagram came in.
    Datagram { from: SocketAddr, bytes: Vec<u8> },
    /// A ping came in.
    Ping { from: SocketAddr, payload: u64 },
    /// The server is to stop.
    Shutdown,
}

/// What the UDP server does next.
pub enum Reaction {
    /// Waits for so many milliseconds, and then for the next event.
    Pause(u64),
    /// Waits for the next event.
    Ignore,
    /// Sends notices.
    Send(Vec<(SocketAddrV4, ServerNotice)>),
    /// Ends its loop.
    Stop,
}

/// The content of a reaction.
pub enum ReactionView {
    Pause(u64),
    Ignore,
    Send(Seq<Mail>),
    Stop,
}

impl View for Reaction {
    type V = ReactionView;

    open spec fn view(&self) -> ReactionView {
        match self {
            Reaction::Pause(millis) => ReactionView::Pause(*millis),
            Reaction::Ignore => ReactionView::Ignore,
            Reaction::Send(mail) => ReactionView::Send(mail_view(mail@)),
            Reaction::Stop => ReactionView::Stop,
        }
    }
}

/// What a signed message from `addr` does.
pub open spec fn message_reaction(
    s: UdpStateView,
    addr: SocketAddrV4,
    m: Verified,
    now: Instant,
    utc: UtcTime,
) -> (UdpStateView, ReactionView) {
    if !is_fresh(m.2, utc) {
        (s, ReactionView::Ignore)
    } else {
        let (next, mail) = placed(s, m.1, addr, m.0, now);
        (next, ReactionView::Send(mail))
    }
}

/// What an event does.
pub open spec fn event_reaction(
    s: UdpStateView,
    event: UdpEvent,
    now: Instant,
    utc: UtcTime,
) -> (UdpStateView, ReactionView) {
    match event {
        UdpEvent::ReceiveFailed => (s, ReactionView::Pause(ERROR_PAUSE_MS)),
        UdpEvent::Datagram { from: SocketAddr::V6(_), .. } => (s, ReactionView::Ignore),
        UdpEvent::Datagram { from: SocketAddr::V4(addr), bytes } => if overruns(bytes@) {
            (s, ReactionView::Pause(ERROR_PAUSE_MS))
        } else {
            match signed_parse(bytes@) {
                Ok(m) => message_reaction(s, addr, m, now, utc),
                Err(_) => (s, ReactionView::Pause(ERROR_PAUSE_MS)),
            }
        },
        UdpEvent::Ping { from: SocketAddr::V6(_), .. } => (s, ReactionView::Ignore),
        UdpEvent::Ping { from: SocketAddr::V4(addr), payload } => (
            s,
            ReactionView::Send(seq![(addr, NoticeView::Pong { payload })]),
        ),
        UdpEvent::Shutdown => (s, ReactionView::Stop),
    }
}

impl UdpState {
    /// Handles a message whose signature is valid.
    pub fn on_message(
        &mut self,
        addr: SocketAddrV4,
        msg: ToServerSignedMessage,
        sender: PublicKey,
        timestamp: i64,
        now: Instant,
        utc: UtcTime,
    ) -> (r: Reaction)
        requires
            old(self).wf(),
        ensures
            final(self).wf(),
            (final(self)@, r@) == message_reaction(
                old(self)@,
                addr,
                (msg@, sender@, timestamp as int),
                now,
                utc,
            ),
    {
        if !message_is_fresh(timestamp, utc) {
            return Reaction::Ignore;
        }
        match msg {
            ToServerSignedMessage::ConnectionRequest { peer_pubkeys, session_id } => Reaction::Send(
                self.on_connection_request(sender, addr, peer_pubkeys, session_id, now),
            ),
        }
    }

    /// Handles an event at the time `now`, which is `utc` in universal time.
    pub fn step_at(&mut self, event: UdpEvent, now: Instant, utc: UtcTime) -> (r: Reaction)
        requires
            old(self).wf(),
        ensures
            final(self).wf(),
            (final(self)@, r@) == event_reaction(old(self)@, event, now, utc),
    {
        match event {
            UdpEvent::ReceiveFailed => Reaction::Pause(ERROR_PAUSE_MS),
            UdpEvent::Datagram { from, bytes } => {
                let addr = match from {
                    SocketAddr::V4(addr) => addr,
                    SocketAddr::V6(_) => {
                        return Reaction::Ignore;
                    },
                };
                match ToServerSignedMessage::try_parse_checked(bytes.as_slice()) {
                    Some(Ok((msg, sender, timestamp))) => self.on_message(
                        addr,
                        msg,
                        sender,
                        timestamp,
                        now,
                        utc,
                    ),
                    _ => Reaction::Pause(ERROR_PAUSE_MS),
                }
            },
            UdpEvent::Ping { from, payload } => match from {
                SocketAddr::V4(addr) => {
                    let mut mail: Vec<(SocketAddrV4, ServerNotice)> = Vec::new();
                    mail.push((addr, ServerNotice::Pong { payload }));
                    assert(mail_view(mail@) =~= seq![(addr, NoticeView::Pong { payload })]);
                    Reaction::Send(mail)
                },
                SocketAddr::V6(_) => Reaction::Ignore,
            },
            UdpEvent::Shutdown => Reaction::Stop,
        }
    }

    /// Handles an event now.
    pub fn step(&mut self, event: UdpEvent, now: Instant) -> (r: Reaction)
        requires
            old(self).wf(),
        ensures
            final(self).wf(),
            exists|utc: UtcTime|
                #![trigger utc.total_millis()]
                0 <= utc.secs && utc.nanos < NANOS_PER_SEC && timestamp_valid(utc.total_millis()) && (
                final(self)@, r@) == event_reaction(old(self)@, event, now, utc),
    {
        let utc = utc_now();
        self.step_at(event, now, utc)
    }
}

/// Whether `peer` asks for `sender` from another IP address than that of `addr`.
pub open spec fn is_partner(
    requests: Map<Seq<u8>, RequestView>,
    peer: Seq<u8>,
    sender: Seq<u8>,
    addr: SocketAddrV4,
) -> bool {
    asks_for(requests, peer, sender) && requests[peer].addr.ip != addr.ip
}

/// The search finds the first peer of the list that asks for the sender from another IP address,
/// and finds none only if there is none. It only ever removes requests of listed peers that ask for
/// the sender.
pub proof fn search_finds_first_partner(
    requests: Map<Seq<u8>, RequestView>,
    peers: Seq<Seq<u8>>,
    sender: Seq<u8>,
    addr: SocketAddrV4,
)
    ensures
        ({
            let s = search(requests, peers, sender, addr);
            &&& match s.found {
                Some((peer, request)) => {
                    &&& is_partner(requests, peer, sender, addr)
                    &&& request == requests[peer]
                    &&& !s.requests.contains_key(peer)
                    &&& exists|i: int|
                        0 <= i < peers.len() && #[trigger] peers[i] == peer && forall|j: int|
                            0 <= j < i ==> !is_partner(requests, #[trigger] peers[j], sender, addr)
                },
                None => forall|j: int|
                    0 <= j < peers.len() ==> !is_partner(requests, #[trigger] peers[j], sender, addr)
                        && !asks_for(s.requests, peers[j], sender),
            }
            &&& forall|k: Seq<u8>| #[trigger]
                s.requests.contains_key(k) ==> requests.contains_key(k) && s.requests[k]
                    == requests[k]
            &&& forall|k: Seq<u8>| #[trigger]
                requests.contains_key(k) && !s.requests.contains_key(k) ==> asks_for(
                    requests,
                    k,
                    sender,
                ) && peers.contains(k)
        }),
    decreases peers.len(),
{
    let s = search(requests, peers, sender, addr);
    if peers.len() > 0 {
        let peer = peers[0];
        let tail = peers.skip(1);
        let left = if asks_for(requests, peer, sender) {
            requests.remove(peer)
        } else {
            requests
        };
        assert(peers.contains(peer));
        assert forall|k: Seq<u8>| tail.contains(k) implies peers.contains(k) by {
            let i = choose|i: int| 0 <= i < tail.len() && tail[i] == k;
            assert(peers[i + 1] == k);
        }
        if !is_partner(requests, peer, sender, addr) {
            search_finds_first_partner(left, tail, sender, addr);
            assert forall|q: Seq<u8>| is_partner(requests, q, sender, addr) implies is_partner(
                left,
                q,
                sender,
                addr,
            ) by {}
            match s.found {
                Some((p, r)) => {
                    let i = choose|i: int|
                        0 <= i < tail.len() && #[trigger] tail[i] == p && forall|j: int|
                            0 <= j < i ==> !is_partner(left, #[trigger] tail[j], sender, addr);
                    assert(peers[i + 1] == p);
                    assert forall|j: int| 0 <= j < i + 1 implies !is_partner(
                        requests,
                        #[trigger] peers[j],
                        sender,
                        addr,
                    ) by {
                        if j > 0 {
                            assert(tail[j - 1] == peers[j]);
                        }
                    }
                },
                None => {
                    assert forall|j: int| 0 <= j < peers.len() implies !is_partner(
                        requests,
                        #[trigger] peers[j],
                        sender,
                        addr,
                    ) && !asks_for(s.requests, peers[j], sender) by {
                        if j > 0 {
                            assert(tail[j - 1] == peers[j]);
                        }
                    }
                },
            }
        }
    }
}

/// An introduction joins two peers that asked for each other from different IP addresses. Both of
/// their requests are gone afterwards, and each is told the other's key, address and session, and
/// exactly one of them to listen.
pub proof fn introduction_is_mutual(
    s: UdpStateView,
    sender: Seq<u8>,
    addr: SocketAddrV4,
    request: ConnectionRequestView,
    now: Instant,
    peer: Seq<u8>,
)
    requires
        !session_is_used(s, sender, request.session_id),
        search(cleaned(s.requests, now).remove(sender), request.peer_pubkeys, sender, addr).found matches Some(
            found,
        ) && found.0 == peer,
    ensures
        ({
            let (next, mail) = placed(s, sender, addr, request, now);
            let other = s.requests[peer];
            let n = mail.len();
            &&& peer != sender
            &&& request.peer_pubkeys.contains(peer)
            &&& asks_for(s.requests, peer, sender)
            &&& other.addr.ip != addr.ip
            &&& !next.requests.contains_key(sender)
            &&& !next.requests.contains_key(peer)
            &&& n >= 2
            &&& mail[n - 2] == (
                other.addr,
                NoticeView::InitiateConnectionRequest {
                    peer_pubkey: sender,
                    peer_address: addr,
                    remote_session_id: request.session_id,
                    is_listener: false,
                },
            )
            &&& mail[n - 1] == (
                addr,
                NoticeView::InitiateConnectionRequest {
                    peer_pubkey: peer,
                    peer_address: other.addr,
                    remote_session_id: other.session_id,
                    is_listener: true,
                },
            )
        }),
{
    search_finds_first_partner(
        cleaned(s.requests, now).remove(sender),
        request.peer_pubkeys,
        sender,
        addr,
    );
}

/// A request that is not refused for its session replaces every earlier request of its sender:
/// afterwards the sender waits with just that request, or does not wait at all.
pub proof fn request_replaces_earlier(
    s: UdpStateView,
    sender: Seq<u8>,
    addr: SocketAddrV4,
    request: ConnectionRequestView,
    now: Instant,
)
    requires
        !session_is_used(s, sender, request.session_id),
    ensures
        ({
            let next = placed(s, sender, addr, request, now).0;
            next.requests.contains_key(sender) ==> next.requests[sender] == (RequestView {
                pubkey: sender,
                addr,
                session_id: request.session_id,
                trusted_remotes: request.peer_pubkeys,
                tm: now,
            })
        }),
{
    search_finds_first_partner(
        cleaned(s.requests, now).remove(sender),
        request.peer_pubkeys,
        sender,
        addr,
    );
}

/// Whether `to` is the address of a listed peer that asks for `sender`.
pub open spec fn is_asking_address(
    requests: Map<Seq<u8>, RequestView>,
    peers: Seq<Seq<u8>>,
    sender: Seq<u8>,
    to: SocketAddrV4,
) -> bool {
    exists|peer: Seq<u8>|
        peers.contains(peer) && #[trigger] asks_for(requests, peer, sender) && to
            == requests[peer].addr
}

/// The notices of a search are all on equal IP addresses, and go to the sender and to listed peers
/// that ask for the sender.
proof fn search_mail_is_on_equal_addresses(
    requests: Map<Seq<u8>, RequestView>,
    peers: Seq<Seq<u8>>,
    sender: Seq<u8>,
    addr: SocketAddrV4,
    i: int,
)
    requires
        0 <= i < search(requests, peers, sender, addr).mail.len(),
    ensures
        ({
            let (to, notice) = search(requests, peers, sender, addr).mail[i];
            &&& notice is ErrorSameIp
            &&& to == addr || is_asking_address(requests, peers, sender, to)
        }),
    decreases peers.len(),
{
    if peers.len() > 0 {
        let peer = peers[0];
        let tail = peers.skip(1);
        let whole = search(requests, peers, sender, addr).mail;
        let asked = asks_for(requests, peer, sender);
        let left = if asked {
            requests.remove(peer)
        } else {
            requests
        };
        let n: int = if asked {
            2
        } else {
            0
        };
        assert(peers.contains(peer));
        if i >= n {
            let rest = search(left, tail, sender, addr).mail;
            assert(whole[i] == rest[i - n]);
            search_mail_is_on_equal_addresses(left, tail, sender, addr, i - n);
            let to = whole[i].0;
            if to != addr {
                let q = choose|q: Seq<u8>|
                    tail.contains(q) && #[trigger] asks_for(left, q, sender) && to == left[q].addr;
                let j = choose|j: int| 0 <= j < tail.len() && tail[j] == q;
                assert(peers[j + 1] == q);
                assert(asks_for(requests, q, sender));
            }
        }
    }
}

/// A connection request is answered to its sender and to listed peers that ask for the sender.
/// Nobody else hears of it.
pub proof fn mail_goes_to_participants(
    s: UdpStateView,
    sender: Seq<u8>,
    addr: SocketAddrV4,
    request: ConnectionRequestView,
    now: Instant,
    i: int,
)
    requires
        0 <= i < placed(s, sender, addr, request, now).1.len(),
    ensures
        ({
            let to = placed(s, sender, addr, request, now).1[i].0;
            to == addr || is_asking_address(s.requests, request.peer_pubkeys, sender, to)
        }),
{
    let waiting = cleaned(s.requests, now).remove(sender);
    let peers = request.peer_pubkeys;
    let result = search(waiting, peers, sender, addr);
    let to = placed(s, sender, addr, request, now).1[i].0;
    if !session_is_used(s, sender, request.session_id) {
        if i < result.mail.len() {
            assert(placed(s, sender, addr, request, now).1[i] == result.mail[i]);
            search_mail_is_on_equal_addresses(waiting, peers, sender, addr, i);
            if to != addr {
                let q = choose|q: Seq<u8>|
                    peers.contains(q) && #[trigger] asks_for(waiting, q, sender) && to
                        == waiting[q].addr;
                assert(asks_for(s.requests, q, sender));
            }
        } else {
            search_finds_first_partner(waiting, peers, sender, addr);
            let (peer, other) = result.found->0;
            assert(peers.contains(peer));
            assert(asks_for(s.requests, peer, sender));
        }
    }
}

/// The search reports each listed peer that asks for the sender from the same IP address, to both
/// of them, if it stands before the first partner.
proof fn search_reports_same_ip(
    requests: Map<Seq<u8>, RequestView>,
    peers: Seq<Seq<u8>>,
    sender: Seq<u8>,
    addr: SocketAddrV4,
    j: int,
)
    requires
        0 <= j < peers.len(),
        asks_for(requests, peers[j], sender),
        requests[peers[j]].addr.ip == addr.ip,
        forall|i: int| 0 <= i < j ==> !is_partner(requests, #[trigger] peers[i], sender, addr),
    ensures
        ({
            let peer = peers[j];
            let mail = search(requests, peers, sender, addr).mail;
            &&& mail.contains(same_ip_mail(peer, requests[peer].addr, sender, addr)[0])
            &&& mail.contains(same_ip_mail(peer, requests[peer].addr, sender, addr)[1])
        }),
    decreases peers.len(),
{
    let first = peers[0];
    let peer = peers[j];
    let tail = peers.skip(1);
    let whole = search(requests, peers, sender, addr).mail;
    let both = same_ip_mail(peer, requests[peer].addr, sender, addr);
    if first == peer {
        assert(whole[0] == both[0]);
        assert(whole[1] == both[1]);
    } else {
        assert(!is_partner(requests, peers[0], sender, addr));
        let asked = asks_for(requests, first, sender);
        let left = if asked {
            requests.remove(first)
        } else {
            requests
        };
        let n: int = if asked {
            2
        } else {
            0
        };
        assert(tail[j - 1] == peer);
        assert forall|i: int| 0 <= i < j - 1 implies !is_partner(
            left,
            #[trigger] tail[i],
            sender,
            addr,
        ) by {
            assert(tail[i] == peers[i + 1]);
        }
        search_reports_same_ip(left, tail, sender, addr, j - 1);
        let rest = search(left, tail, sender, addr).mail;
        let x = choose|x: int| 0 <= x < rest.len() && rest[x] == both[0];
        let y = choose|y: int| 0 <= y < rest.len() && rest[y] == both[1];
        assert(whole[x + n] == both[0]);
        assert(whole[y + n] == both[1]);
    }
}

/// Two peers that ask for each other from one IP address, whatever their ports, are not introduced
/// but told of it: if no listed peer asks for the sender from another IP address, nobody is
/// introduced, and a listed peer that asks from the same one hears of the sender, and the sender
/// of it. Where that peer alone is listed, these two notices are all that is sent.
pub proof fn same_ip_is_reported(
    s: UdpStateView,
    sender: Seq<u8>,
    addr: SocketAddrV4,
    request: ConnectionRequestView,
    now: Instant,
    peer: Seq<u8>,
    i: int,
)
    requires
        !session_is_used(s, sender, request.session_id),
        peer != sender,
        request.peer_pubkeys.contains(peer),
        asks_for(s.requests, peer, sender),
        is_live(s.requests[peer], now),
        s.requests[peer].addr.ip == addr.ip,
        forall|q: Seq<u8>|
            request.peer_pubkeys.contains(q) ==> !#[trigger] is_partner(
                s.requests,
                q,
                sender,
                addr,
            ),
    ensures
        ({
            let (next, mail) = placed(s, sender, addr, request, now);
            let both = same_ip_mail(peer, s.requests[peer].addr, sender, addr);
            &&& mail.contains(both[0])
            &&& mail.contains(both[1])
            &&& 0 <= i < mail.len() ==> mail[i].1 is ErrorSameIp
            &&& request.peer_pubkeys == seq![peer] ==> mail == both
            &&& next.sessions == s.sessions
            &&& !next.requests.contains_key(peer)
            &&& next.requests.contains_key(sender)
        }),
{
    let waiting = cleaned(s.requests, now).remove(sender);
    let peers = request.peer_pubkeys;
    let result = search(waiting, peers, sender, addr);
    cleanup_keeps_live_requests(s.requests, now, peer);
    assert(waiting[peer] == s.requests[peer]);
    assert forall|q: Seq<u8>| peers.contains(q) implies !#[trigger] is_partner(
        waiting,
        q,
        sender,
        addr,
    ) by {
        if is_partner(waiting, q, sender, addr) {
            assert(is_partner(s.requests, q, sender, addr));
        }
    }
    let j = choose|j: int| 0 <= j < peers.len() && peers[j] == peer;
    assert forall|x: int| 0 <= x < peers.len() implies !is_partner(
        waiting,
        #[trigger] peers[x],
        sender,
        addr,
    ) by {
        assert(peers.contains(peers[x]));
    }
    search_reports_same_ip(waiting, peers, sender, addr, j);
    search_finds_first_partner(waiting, peers, sender, addr);
    assert(result.found is None);
    assert(!asks_for(result.requests, peers[j], sender));
    if 0 <= i < result.mail.len() {
        search_mail_is_on_equal_addresses(waiting, peers, sender, addr, i);
    }
    if peers == seq![peer] {
        assert(peers.skip(1).len() == 0);
        let none = search(waiting.remove(peer), peers.skip(1), sender, addr);
        assert(none.mail.len() == 0);
        assert(result.mail =~= same_ip_mail(peer, s.requests[peer].addr, sender, addr));
    }
}

/// A clean-up never removes a live request, and nothing at all if no request is live.
pub proof fn cleanup_keeps_live_requests(
    requests: Map<Seq<u8>, RequestView>,
    now: Instant,
    k: Seq<u8>,
)
    requires
        requests.contains_key(k),
    ensures
        is_live(requests[k], now) ==> cleaned(requests, now).contains_key(k) && cleaned(
            requests,
            now,
        )[k] == requests[k],
        !some_live(requests, now) ==> cleaned(requests, now).contains_key(k),
{
}

/// Two clients that ask for each other from different IP addresses, the second no more than 10
/// seconds after the first, do not miss each other: if the first is left waiting and the second
/// comes with a session that was not used, the second request leads to an introduction, and to
/// that of these two unless another peer on the second client's list asks for that client too.
pub proof fn mutual_requests_meet(
    s: UdpStateView,
    a: Seq<u8>,
    addr_a: SocketAddrV4,
    request_a: ConnectionRequestView,
    now_a: Instant,
    b: Seq<u8>,
    addr_b: SocketAddrV4,
    request_b: ConnectionRequestView,
    now_b: Instant,
)
    requires
        a != b,
        addr_a.ip != addr_b.ip,
        request_a.peer_pubkeys.contains(b),
        request_b.peer_pubkeys.contains(a),
        secs_since(now_a, now_b) <= REQUEST_TIMEOUT_S,
        !session_is_used(s, a, request_a.session_id),
        placed(s, a, addr_a, request_a, now_a).0.requests.contains_key(a),
        !session_is_used(
            placed(s, a, addr_a, request_a, now_a).0,
            b,
            request_b.session_id,
        ),
    ensures
        ({
            let waiting = placed(s, a, addr_a, request_a, now_a).0;
            let mail = placed(waiting, b, addr_b, request_b, now_b).1;
            let result = search(
                cleaned(waiting.requests, now_b).remove(b),
                request_b.peer_pubkeys,
                b,
                addr_b,
            );
            &&& result.found is Some
            &&& (forall|q: Seq<u8>|
                request_b.peer_pubkeys.contains(q) && #[trigger] is_partner(
                    waiting.requests,
                    q,
                    b,
                    addr_b,
                ) ==> q == a) ==> mail == result.mail + introduction_mail(
                a,
                RequestView {
                    pubkey: a,
                    addr: addr_a,
                    session_id: request_a.session_id,
                    trusted_remotes: request_a.peer_pubkeys,
                    tm: now_a,
                },
                b,
                addr_b,
                request_b.session_id,
            )
        }),
{
    let waiting = placed(s, a, addr_a, request_a, now_a).0;
    request_replaces_earlier(s, a, addr_a, request_a, now_a);
    let r = waiting.requests[a];
    assert(r.trusted_remotes.len() > 0);
    cleanup_keeps_live_requests(waiting.requests, now_b, a);
    let rest = cleaned(waiting.requests, now_b).remove(b);
    search_finds_first_partner(rest, request_b.peer_pubkeys, b, addr_b);
    let i = choose|i: int| 0 <= i < request_b.peer_pubkeys.len() && request_b.peer_pubkeys[i] == a;
    assert(is_partner(rest, request_b.peer_pubkeys[i], b, addr_b));
    let found = search(rest, request_b.peer_pubkeys, b, addr_b).found;
    let (peer, _) = found->0;
    assert(is_partner(waiting.requests, peer, b, addr_b));
}

/// A request with the session with which its sender was last introduced is answered with the demand
/// for a new session and with nothing else. It is neither matched nor stored: apart from the
/// clean-up, nothing changes.
pub proof fn used_session_is_refused(
    s: UdpStateView,
    sender: Seq<u8>,
    addr: SocketAddrV4,
    request: ConnectionRequestView,
    now: Instant,
)
    requires
        session_is_used(s, sender, request.session_id),
    ensures
        placed(s, sender, addr, request, now).1 == seq![
            (addr, NoticeView::NeedNewSession { old_session_id: request.session_id }),
        ],
        placed(s, sender, addr, request, now).0 == (UdpStateView {
            requests: cleaned(s.requests, now),
            ..s
        }),
{
}

/// Whether `r`, as a request of `k` from `addr`, is answered with the demand for a new session
/// alone, and `k` does not wait afterwards.
pub open spec fn is_refused(
    s: UdpStateView,
    k: Seq<u8>,
    addr: SocketAddrV4,
    r: ConnectionRequestView,
    now: Instant,
) -> bool {
    let (next, mail) = placed(s, k, addr, r, now);
    &&& mail == seq![(addr, NoticeView::NeedNewSession { old_session_id: r.session_id })]
    &&& !next.requests.contains_key(k)
    &&& next.sessions == s.sessions
}

/// An introduction uses up the sessions of both sides: when either of them comes again with the
/// session with which it was introduced, from any address and at any time, it is told to take a
/// new one, and its request is neither matched nor stored.
pub proof fn introduction_uses_up_sessions(
    s: UdpStateView,
    sender: Seq<u8>,
    addr: SocketAddrV4,
    request: ConnectionRequestView,
    now: Instant,
    peer: Seq<u8>,
    addr2: SocketAddrV4,
    r: ConnectionRequestView,
    later: Instant,
)
    requires
        !session_is_used(s, sender, request.session_id),
        search(cleaned(s.requests, now).remove(sender), request.peer_pubkeys, sender, addr).found matches Some(
            found,
        ) && found.0 == peer,
    ensures
        ({
            let next = placed(s, sender, addr, request, now).0;
            &&& session_is_used(next, sender, request.session_id)
            &&& session_is_used(next, peer, s.requests[peer].session_id)
            &&& r.session_id == request.session_id ==> is_refused(next, sender, addr2, r, later)
            &&& r.session_id == s.requests[peer].session_id ==> is_refused(
                next,
                peer,
                addr2,
                r,
                later,
            )
        }),
{
    introduction_is_mutual(s, sender, addr, request, now, peer);
    search_finds_first_partner(
        cleaned(s.requests, now).remove(sender),
        request.peer_pubkeys,
        sender,
        addr,
    );
}

/// A used session stays used, whatever is requested, until its client is introduced again.
pub proof fn session_stays_used(
    s: UdpStateView,
    k: Seq<u8>,
    session_id: u32,
    sender: Seq<u8>,
    addr: SocketAddrV4,
    request: ConnectionRequestView,
    now: Instant,
)
    requires
        session_is_used(s, k, session_id),
    ensures
        ({
            let found = search(
                cleaned(s.requests, now).remove(sender),
                request.peer_pubkeys,
                sender,
                addr,
            ).found;
            let introduced = !session_is_used(s, sender, request.session_id) && (found matches Some(
                f,
            ) && (k == sender || k == f.0));
            !introduced ==> session_is_used(
                placed(s, sender, addr, request, now).0,
                k,
                session_id,
            )
        }),
{
}

/// A datagram that is not a fresh, signed and complete request changes nothing and is answered with
/// nothing. One over IPv6 or with an old timestamp is ignored. After one that is malformed or not
/// properly signed, or whose content is not understood or is cut short, the server pauses.
pub proof fn unsigned_or_stale_changes_nothing(
    s: UdpStateView,
    from: SocketAddr,
    bytes: Vec<u8>,
    now: Instant,
    utc: UtcTime,
)
    requires
        overruns(bytes@) || (signed_parse(bytes@) matches Ok(m) ==> !is_fresh(m.2, utc)),
    ensures
        event_reaction(s, UdpEvent::Datagram { from, bytes }, now, utc) == (
            s,
            if from is V6 {
                ReactionView::Ignore
            } else if overruns(bytes@) || signed_parse(bytes@) is Err {
                ReactionView::Pause(ERROR_PAUSE_MS)
            } else {
                ReactionView::Ignore
            },
        ),
{
}

/// A fresh, signed and complete request is placed for its sender, and the notices that it leads to
/// are sent.
pub proof fn signed_request_is_placed(
    s: UdpStateView,
    addr: SocketAddrV4,
    bytes: Vec<u8>,
    m: Verified,
    now: Instant,
    utc: UtcTime,
)
    requires
        signed_parse(bytes@) == Ok::<Verified, ParseError>(m),
        !overruns(bytes@),
        is_fresh(m.2, utc),
    ensures
        event_reaction(
            s,
            UdpEvent::Datagram { from: SocketAddr::V4(addr), bytes },
            now,
            utc,
        ) == (
            placed(s, m.1, addr, m.0, now).0,
            ReactionView::Send(placed(s, m.1, addr, m.0, now).1),
        ),
{
}

/// A signed message is valid from 10 seconds before its timestamp until 10 seconds after it, and at
/// no other time.
pub proof fn freshness_window(timestamp: int, now: UtcTime)
    ensures
        is_fresh(timestamp, now) <==> -10_000_000_000 <= now.total_nanos() - timestamp
            * NANOS_PER_MILLI <= 10_000_000_000,
{
}

/// A message that was made at `timestamp` counts as valid exactly if the time is no more than 10
/// seconds away from that, before or after.
pub proof fn messages_are_valid_within_ten_seconds(timestamp: i64, now: UtcTime, r: bool)
    requires
        call_ensures(message_is_fresh, (timestamp, now), r),
    ensures
        r <==> {
            let nanos = now.secs * 1_000_000_000 + now.nanos;
            &&& nanos <= timestamp * 1_000_000 + 10_000_000_000
            &&& nanos >= timestamp * 1_000_000 - 10_000_000_000
        },
{
}

/// A ping over IPv4 is answered with its payload, to where it came from, and with nothing else.
/// After a failure to receive the server waits for 20 ms, and it stops when it is told to. Whatever
/// comes over IPv6 is ignored. None of this changes the state.
pub proof fn events_without_requests(
    s: &mut UdpState,
    event: UdpEvent,
    now: Instant,
    utc: UtcTime,
    r: Reaction,
)
    requires
        call_ensures(UdpState::step_at, (s, event, now, utc), r),
    ensures
        event matches UdpEvent::Ping { from: SocketAddr::V4(addr), payload } ==> final(s)@
            == old(s)@ && (r matches Reaction::Send(mail) && mail@.len() == 1 && mail@[0].0 == addr
            && mail@[0].1@ == (NoticeView::Pong { payload })),
        event matches UdpEvent::Ping { from: SocketAddr::V6(_), .. } ==> final(s)@ == old(s)@ && r
            is Ignore,
        event matches UdpEvent::Datagram { from: SocketAddr::V6(_), .. } ==> final(s)@ == old(s)@
            && r is Ignore,
        event is ReceiveFailed ==> final(s)@ == old(s)@ && r matches Reaction::Pause(20),
        event is Shutdown ==> final(s)@ == old(s)@ && r is Stop,
{
    if let UdpEvent::Ping { from: SocketAddr::V4(addr), payload } = event {
        let mail = r->Send_0;
        assert(mail_view(mail@).len() == 1);
        assert(mail_view(mail@)[0] == (addr, NoticeView::Pong { payload }));
        assert(mail_view(mail@)[0] == (mail@[0].0, mail@[0].1@));
    }
}

/// A datagram with a valid signature does what the request in it does, for the key that signed it
/// and the address it came from, if its timestamp is no more than 10 seconds away, and nothing if
/// it is further. A datagram that is not understood makes the server wait for 20 ms, and does
/// nothing else.
pub proof fn datagrams_count_when_signed_and_fresh(
    s: &mut UdpState,
    addr: SocketAddrV4,
    bytes: Vec<u8>,
    now: Instant,
    utc: UtcTime,
    r: Reaction,
)
    requires
        call_ensures(
            UdpState::step_at,
            (s, UdpEvent::Datagram { from: SocketAddr::V4(addr), bytes }, now, utc),
            r,
        ),
    ensures
        overruns(bytes@) || signed_parse(bytes@) is Err ==> final(s)@ == old(s)@ && r matches Reaction::Pause(
            20,
        ),
        !overruns(bytes@) && (signed_parse(bytes@) matches Ok(m) && ({
            let nanos = utc.secs * 1_000_000_000 + utc.nanos;
            nanos > m.2 * 1_000_000 + 10_000_000_000 || nanos < m.2 * 1_000_000 - 10_000_000_000
        })) ==> final(s)@ == old(s)@ && r is Ignore,
        !overruns(bytes@) ==> (signed_parse(bytes@) matches Ok(m) ==> ({
            let nanos = utc.secs * 1_000_000_000 + utc.nanos;
            nanos <= m.2 * 1_000_000 + 10_000_000_000 && nanos >= m.2 * 1_000_000 - 10_000_000_000
        }) ==> (r matches Reaction::Send(mail) && (final(s)@, mail_view(mail@)) == placed(
            old(s)@,
            m.1,
            addr,
            m.0,
            now,
        ))),
{
}

/// Notices are seen one by one, each with its destination.
pub proof fn mail_is_seen_item_by_item(mail: Seq<(SocketAddrV4, ServerNotice)>, i: int)
    requires
        0 <= i < mail.len(),
    ensures
        mail_view(mail).len() == mail.len(),
        mail_view(mail)[i] == (mail[i].0, mail[i].1@),
{
}

/// A step at the current time is like one at a given time: only datagrams with a valid signature
/// depend on the time.
pub proof fn steps_depend_on_time_for_requests(
    s: &mut UdpState,
    event: UdpEvent,
    now: Instant,
    r: Reaction,
    t: &mut UdpState,
    utc: UtcTime,
    u: Reaction,
)
    requires
        call_ensures(UdpState::step, (s, event, now), r),
        call_ensures(UdpState::step_at, (t, event, now, utc), u),
        old(t)@ == old(s)@,
        !(event matches UdpEvent::Datagram { bytes, .. } && !overruns(bytes@) && signed_parse(bytes@)
            is Ok),
    ensures
        final(s)@ == final(t)@,
        r@ == u@,
{
}

/// With a valid signature, a datagram does either what the request in it does or nothing, whatever
/// the current time.
pub proof fn current_time_admits_or_ignores(
    s: &mut UdpState,
    addr: SocketAddrV4,
    bytes: Vec<u8>,
    now: Instant,
    r: Reaction,
)
    requires
        call_ensures(
            UdpState::step,
            (s, UdpEvent::Datagram { from: SocketAddr::V4(addr), bytes }, now),
            r,
        ),
        !overruns(bytes@),
        signed_parse(bytes@) is Ok,
    ensures
        ({
            let m = signed_parse(bytes@)->Ok_0;
            ||| final(s)@ == old(s)@ && r is Ignore
            ||| (r matches Reaction::Send(mail) && (final(s)@, mail_view(mail@)) == placed(
                old(s)@,
                m.1,
                addr,
                m.0,
                now,
            ))
        }),
{
}

/// A message with a valid signature is handled as the request that it is, if it is valid at the
/// time, and changes nothing if it is not.
pub proof fn messages_are_requests(
    s: &mut UdpState,
    addr: SocketAddrV4,
    peers: Vec<PublicKey>,
    session_id: u32,
    sender: PublicKey,
    timestamp: i64,
    now: Instant,
    utc: UtcTime,
    r: Reaction,
    fresh: bool,
    t: &mut UdpState,
    mail: Vec<(SocketAddrV4, ServerNotice)>,
)
    requires
        call_ensures(
            UdpState::on_message,
            (
                s,
                addr,
                ToServerSignedMessage::ConnectionRequest { peer_pubkeys: peers, session_id },
                sender,
                timestamp,
                now,
                utc,
            ),
            r,
        ),
        call_ensures(message_is_fresh, (timestamp, utc), fresh),
        call_ensures(
            UdpState::on_connection_request,
            (t, sender, addr, peers, session_id, now),
            mail,
        ),
        old(t)@ == old(s)@,
    ensures
        !fresh ==> r is Ignore && final(s)@ == old(s)@,
        fresh ==> final(s)@ == final(t)@ && (r matches Reaction::Send(sent) && mail_view(sent@)
            == mail_view(mail@)),
{
}

/// A reaction is seen as what it is, and so are the records of requests and introductions.
pub proof fn records_are_seen_in_full(
    millis: u64,
    mail: Vec<(SocketAddrV4, ServerNotice)>,
    r: RequestInfo,
    i: int,
    a: ActiveSession,
)
    ensures
        Reaction::Pause(millis)@ == ReactionView::Pause(millis),
        Reaction::Ignore@ is Ignore,
        Reaction::Stop@ is Stop,
        Reaction::Send(mail)@ == ReactionView::Send(mail_view(mail@)),
        r@.pubkey == r.requester_pubkey@,
        r@.addr == r.requester_addr,
        r@.session_id == r.requester_session_id,
        r@.tm == r.tm,
        r@.trusted_remotes.len() == r.trusted_remotes@.len(),
        0 <= i < r.trusted_remotes@.len() ==> r@.trusted_remotes[i] == r.trusted_remotes@[i]@,
        a@.session_id == a.session_id,
        a@.remote_addr == a.remote_addr,
        a@.remote_peer == a.remote_peer@,
{
}

} // verus!
