//! One poll of a client, as a sequence of actions.
//!
//! Each function here decides what the application does next, and is followed by the function for
//! what came of it: `begin_poll` comes first, and `PollAction::Finish` last.
use vstd::prelude::*;
use vstd::string::StringExecFns;
use crate::keys::{key_views, PublicKey};
use crate::net::{SocketAddr, SocketAddrV4};
use crate::outside::{ed25519_public_key, random_u32, random_u64, timestamp_valid};
use crate::text::{decimal, decimal_text};
use crate::time::{elapsed_secs, secs_since, Instant};
use crate::udp::client::local_discovery::{hello_bytes, hello_sender, Discovered, Disguise};
use crate::udp::client::{lists_available, name_view, picks, ClientView, UdpConnectionEstablisher};
use crate::udp::client::{PING_INTERVAL_SECS, PONG_VALID_SECS, REQUEST_PLACEMENT_INTERVAL};
use crate::udp::hole_punch::HolePunchError;
use crate::udp::messages::{overruns, signed_bytes, signed_parse, ConnectionRequestView, ParseError};
use crate::udp::messages::{from_server_bytes, from_server_parse_of_bytes, FromServerView};
use crate::udp::messages::{ToServerSignedMessage, MAX_REQUEST_PEERS};
use crate::udp::notices::{parsed_notice, NoticeView, ServerNotice};
use crate::udp::peer_state::{PeerState, MAX_RETRY_TIMEOUT};

verus! {

/// For how many milliseconds a poll blocks after an error, or if there is no one to ask for.
pub const IDLE_PAUSE_MS: u64 = 100;

/// A connection that is ready to use.
#[derive(Debug, Clone, Copy)]
pub struct NewP2pConnection {
    pub pubkey: PublicKey,
    pub remote_addr: SocketAddr,
    pub is_listener: bool,
}

/// The content of a new connection.
pub struct ConnectionView {
    pub pubkey: Seq<u8>,
    pub remote_addr: SocketAddr,
    pub is_listener: bool,
}

impl View for NewP2pConnection {
    type V = ConnectionView;

    open spec fn view(&self) -> ConnectionView {
        ConnectionView {
            pubkey: self.pubkey@,
            remote_addr: self.remote_addr,
            is_listener: self.is_listener,
        }
    }
}

/// How a client came to punch a hole towards a peer. The hole is punched on a socket that depends
/// on it, and the connection uses that socket.
#[derive(Debug, Clone, Copy, PartialEq, Eq, Structural)]
pub enum PunchOrigin {
    /// The server introduced the peer. The socket is the one that the server knows, and a new one
    /// takes its place.
    Introduced { peer_address: SocketAddrV4, remote_session_id: u32 },
    /// The client greeted the peer in the local network. The socket is opened for the connection.
    Greeted { to: SocketAddrV4 },
    /// The peer greeted the client in the local network. The socket is the one for the local
    /// network, and a new one takes its place.
    GreetedBy { from: SocketAddr },
}

impl PunchOrigin {
    /// Where the first punch packets go.
    pub open spec fn address(self) -> SocketAddr {
        match self {
            PunchOrigin::Introduced { peer_address, .. } => SocketAddr::V4(peer_address),
            PunchOrigin::Greeted { to } => SocketAddr::V4(to),
            PunchOrigin::GreetedBy { from } => from,
        }
    }

    /// Where the first punch packets go.
    pub fn peer_address(&self) -> (r: SocketAddr)
        ensures
            r == self.address(),
    {
        match self {
            PunchOrigin::Introduced { peer_address, .. } => SocketAddr::V4(*peer_address),
            PunchOrigin::Greeted { to } => SocketAddr::V4(*to),
            PunchOrigin::GreetedBy { from } => *from,
        }
    }
}

/// Why a poll failed.
#[derive(Debug, Clone, Copy, PartialEq, Eq, Structural)]
pub enum PollError {
    /// The socket failed to receive.
    Receive,
    /// A message from the server was not understood.
    Parse(ParseError),
    /// The server announced a peer that is not trusted.
    NotTrusted,
    /// The hole punch to a peer failed.
    HolePunch { origin: PunchOrigin, error: HolePunchError },
}

impl PollError {
    /// The error in words, without what lies beneath it.
    pub open spec fn text(self) -> Seq<char> {
        match self {
            PollError::Receive => "Receiving message from P2P server"@,
            PollError::Parse(_) => "Parsing message from P2P server"@,
            PollError::NotTrusted => "Peer pubkey not in trusted list"@,
            PollError::HolePunch {
                origin: PunchOrigin::Introduced { peer_address, remote_session_id },
                ..
            } => "Handling InitiateConnectionRequest from p2p server for peer "@
                + peer_address.text() + ", session_id="@ + decimal(remote_session_id as nat),
            PollError::HolePunch { .. } => "Connecting to peer in the local network"@,
        }
    }

    /// The error in words, without what lies beneath it.
    pub fn message(&self) -> (r: String)
        ensures
            r@ == self.text(),
    {
        match self {
            PollError::Receive => "Receiving message from P2P server".to_owned(),
            PollError::Parse(_) => "Parsing message from P2P server".to_owned(),
            PollError::NotTrusted => "Peer pubkey not in trusted list".to_owned(),
            PollError::HolePunch { origin, .. } => match origin {
                PunchOrigin::Introduced { peer_address, remote_session_id } => {
                    "Handling InitiateConnectionRequest from p2p server for peer ".to_owned().concat(
                        peer_address.message().as_str(),
                    ).concat(", session_id=").concat(decimal_text(*remote_session_id).as_str())
                },
                _ => "Connecting to peer in the local network".to_owned(),
            },
        }
    }
}

/// What a poll comes to.
#[derive(Debug, Clone, Copy)]
pub enum Outcome {
    /// Nothing new, after a pause of so many milliseconds.
    Nothing { pause_ms: u64 },
    /// An error, after a pause of so many milliseconds.
    Failed { error: PollError, pause_ms: u64 },
    /// A new connection, on the socket on which the hole was punched.
    Connected { connection: NewP2pConnection },
}

/// The content of an outcome.
pub enum OutcomeView {
    Nothing { pause_ms: u64 },
    Failed { error: PollError, pause_ms: u64 },
    Connected { connection: ConnectionView },
}

impl View for Outcome {
    type V = OutcomeView;

    open spec fn view(&self) -> OutcomeView {
        match self {
            Outcome::Nothing { pause_ms } => OutcomeView::Nothing { pause_ms: *pause_ms },
            Outcome::Failed { error, pause_ms } => OutcomeView::Failed {
                error: *error,
                pause_ms: *pause_ms,
            },
            Outcome::Connected { connection } => OutcomeView::Connected {
                connection: connection@,
            },
        }
    }
}

/// A peer towards which a hole is punched.
#[derive(Debug, Clone, Copy)]
pub struct PunchTarget {
    pub peer_pubkey: PublicKey,
    pub origin: PunchOrigin,
    pub is_listener: bool,
}

/// The content of a target.
pub struct TargetView {
    pub peer_pubkey: Seq<u8>,
    pub origin: PunchOrigin,
    pub is_listener: bool,
}

impl View for PunchTarget {
    type V = TargetView;

    open spec fn view(&self) -> TargetView {
        TargetView {
            peer_pubkey: self.peer_pubkey@,
            origin: self.origin,
            is_listener: self.is_listener,
        }
    }
}

/// What the application does next in a poll.
pub enum PollAction {
    /// Opens new sockets on the current interface. Then: `after_rebind`.
    Rebind,
    /// Polls the multicast socket, with announcements on or off. Then: `on_discovered`.
    PollMulticast { announce: bool },
    /// Sends a greeting on the socket for the local network. Then: `on_hello_sent`.
    SendHello { to: SocketAddrV4, peer: PublicKey, bytes: Vec<u8> },
    /// Looks for a packet on the socket for the local network. Then: `on_local_received`.
    ReceiveLocal,
    /// Turns to the server. Then: `server_turn`.
    AskServer,
    /// Sends a ping to the server. Then: `on_ping_sent`.
    SendPing { payload: u64 },
    /// Prepares a request. Then: `request_turn`.
    PlaceRequest,
    /// Sends a request to the server. Then: `on_request_sent`.
    SendRequest { to: SocketAddrV4, bytes: Vec<u8> },
    /// Waits for a packet from the server. Then: `on_received`.
    Receive,
    /// Punches a hole on the socket for its origin. Then: `on_punched`.
    Punch(PunchTarget),
    /// Ends the poll.
    Finish(Outcome),
}

/// The content of an action.
pub enum ActionView {
    Rebind,
    PollMulticast { announce: bool },
    SendHello { to: SocketAddrV4, peer: Seq<u8>, bytes: Seq<u8> },
    ReceiveLocal,
    AskServer,
    SendPing { payload: u64 },
    PlaceRequest,
    SendRequest { to: SocketAddrV4, bytes: Seq<u8> },
    Receive,
    Punch(TargetView),
    Finish(OutcomeView),
}

impl View for PollAction {
    type V = ActionView;

    open spec fn view(&self) -> ActionView {
        match self {
            PollAction::Rebind => ActionView::Rebind,
            PollAction::PollMulticast { announce } => ActionView::PollMulticast {
                announce: *announce,
            },
            PollAction::SendHello { to, peer, bytes } => ActionView::SendHello {
                to: *to,
                peer: peer@,
                bytes: bytes@,
            },
            PollAction::ReceiveLocal => ActionView::ReceiveLocal,
            PollAction::AskServer => ActionView::AskServer,
            PollAction::SendPing { payload } => ActionView::SendPing { payload: *payload },
            PollAction::PlaceRequest => ActionView::PlaceRequest,
            PollAction::SendRequest { to, bytes } => ActionView::SendRequest {
                to: *to,
                bytes: bytes@,
            },
            PollAction::Receive => ActionView::Receive,
            PollAction::Punch(target) => ActionView::Punch(target@),
            PollAction::Finish(outcome) => ActionView::Finish(outcome@),
        }
    }
}

/// What came in from the server.
pub enum Received {
    /// Nothing, in the time that was given.
    TimedOut,
    /// The socket failed.
    Failed,
    Datagram { from: SocketAddr, bytes: Vec<u8> },
}

/// The end of a poll without news.
pub open spec fn nothing() -> ActionView {
    ActionView::Finish(OutcomeView::Nothing { pause_ms: 0 })
}

/// The end of a poll with an error.
pub open spec fn failure(error: PollError) -> ActionView {
    ActionView::Finish(OutcomeView::Failed { error, pause_ms: IDLE_PAUSE_MS })
}

/// Whether more than `secs` whole seconds have passed since `tm`, or `tm` never was.
pub open spec fn overdue(tm: Option<Instant>, secs: u64, now: Instant) -> bool {
    match tm {
        Some(t) => secs_since(t, now) > secs,
        None => true,
    }
}

impl ClientView {
    /// The first step in the local network, or the turn of the server.
    pub open spec fn local_turn(self, now: Instant) -> ActionView {
        if self.local_discovery {
            ActionView::PollMulticast { announce: self.announces(now) }
        } else {
            ActionView::AskServer
        }
    }

    /// What follows on a greeting of `len` bytes to `peer`: if all of it went out, a hole is punched
    /// towards the peer.
    pub open spec fn hello_sent(
        self,
        to: SocketAddrV4,
        peer: Seq<u8>,
        len: usize,
        sent: Option<usize>,
    ) -> ActionView {
        if sent == Some(len) {
            ActionView::Punch(
                TargetView {
                    peer_pubkey: peer,
                    origin: PunchOrigin::Greeted { to },
                    is_listener: false,
                },
            )
        } else {
            ActionView::AskServer
        }
    }

    /// What follows on a look at the socket for the local network: if a peer that is accepted sent
    /// its greeting, a hole is punched towards it.
    pub open spec fn local_received(
        self,
        packet: Option<(SocketAddr, Vec<u8>)>,
        now: Instant,
    ) -> ActionView {
        match packet {
            Some((from, msg)) => match hello_sender(msg@) {
                Some(k) => if self.accepts_local(k, now) {
                    ActionView::Punch(
                        TargetView {
                            peer_pubkey: k,
                            origin: PunchOrigin::GreetedBy { from },
                            is_listener: true,
                        },
                    )
                } else {
                    ActionView::AskServer
                },
                None => ActionView::AskServer,
            },
            None => ActionView::AskServer,
        }
    }

    /// The start of a poll while `interface` is in use.
    pub open spec fn begin(self, interface: Option<Seq<char>>, now: Instant) -> (
        ClientView,
        ActionView,
    ) {
        let next = ClientView {
            poll_start_tm: if self.poll_start_tm is None {
                Some(now)
            } else {
                self.poll_start_tm
            },
            cur_interface: interface,
            ..self
        };
        (
            next,
            if interface != self.cur_interface {
                ActionView::Rebind
            } else {
                next.local_turn(now)
            },
        )
    }

    /// Whether a request is due, or else the wait for the server.
    pub open spec fn request_decision(self, now: Instant) -> ActionView {
        if overdue(self.last_request_tm, REQUEST_PLACEMENT_INTERVAL, now) {
            ActionView::PlaceRequest
        } else {
            ActionView::Receive
        }
    }

    /// The turn of the server, where a ping would carry `payload`.
    pub open spec fn server_turn(self, payload: u64, now: Instant) -> (ClientView, ActionView) {
        if overdue(self.last_p2p_server_ping_send_tm, PING_INTERVAL_SECS, now) {
            (
                ClientView { last_p2p_server_ping_send_tm: Some(now), ..self },
                ActionView::SendPing { payload },
            )
        } else {
            (self, self.request_decision(now))
        }
    }

    /// The client after a ping with `payload` was sent, or failed to be sent.
    pub open spec fn after_ping(self, payload: u64, sent: bool, now: Instant) -> ClientView {
        if sent {
            ClientView { last_p2p_server_ping: Some((now, payload)), ..self }
        } else {
            self
        }
    }

    /// What a notice of the server does, where a new session would be `fresh`.
    pub open spec fn notified(self, notice: NoticeView, fresh: u32, now: Instant) -> (
        ClientView,
        ActionView,
    ) {
        match notice {
            NoticeView::InitiateConnectionRequest {
                peer_pubkey,
                peer_address,
                remote_session_id,
                is_listener,
            } => if !self.trusted_remotes.contains_key(peer_pubkey) {
                (self, failure(PollError::NotTrusted))
            } else if !self.is_available(peer_pubkey, now)
                || self.trusted_remotes[peer_pubkey].last_accepted_session_id == Some(
                remote_session_id,
            ) {
                (self, nothing())
            } else {
                (
                    ClientView {
                        trusted_remotes: self.trusted_remotes.insert(
                            peer_pubkey,
                            self.trusted_remotes[peer_pubkey].after_request(remote_session_id),
                        ),
                        session_id: fresh,
                        ..self
                    },
                    ActionView::Punch(
                        TargetView {
                            peer_pubkey,
                            origin: PunchOrigin::Introduced { peer_address, remote_session_id },
                            is_listener,
                        },
                    ),
                )
            },
            NoticeView::LostConnectionRequest { .. } => (
                ClientView { session_id: fresh, ..self },
                nothing(),
            ),
            NoticeView::NeedNewSession { old_session_id } => (
                if self.session_id == old_session_id {
                    ClientView { session_id: fresh, ..self }
                } else {
                    self
                },
                nothing(),
            ),
            NoticeView::ErrorSameIp { peer_pubkey } => (
                if self.trusted_remotes.contains_key(peer_pubkey) {
                    ClientView {
                        trusted_remotes: self.trusted_remotes.insert(
                            peer_pubkey,
                            self.trusted_remotes[peer_pubkey].after_error_same_ip(now),
                        ),
                        ..self
                    }
                } else {
                    self
                },
                nothing(),
            ),
            NoticeView::Pong { payload } => (
                if self.answers_ping(payload, now) {
                    ClientView { last_p2p_server_pong: Some(now), ..self }
                } else {
                    self
                },
                nothing(),
            ),
        }
    }

    /// Whether a pong with `payload` answers the last ping in time. Before the first ping, any
    /// pong does.
    pub open spec fn answers_ping(self, payload: u64, now: Instant) -> bool {
        match self.last_p2p_server_ping {
            Some((tm, last_payload)) => last_payload == payload && secs_since(tm, now)
                < PONG_VALID_SECS,
            None => true,
        }
    }

    /// What a packet does, or its absence.
    pub open spec fn received(self, received: Received, fresh: u32, now: Instant) -> (
        ClientView,
        ActionView,
    ) {
        match received {
            Received::TimedOut => (self, nothing()),
            Received::Failed => (self, failure(PollError::Receive)),
            Received::Datagram { from, bytes } => if from != SocketAddr::V4(self.p2p_server_addr) {
                (self, nothing())
            } else {
                match parsed_notice(bytes@) {
                    Ok(notice) => self.notified(notice, fresh, now),
                    Err(e) => (self, failure(PollError::Parse(e))),
                }
            },
        }
    }

    /// What the end of a hole punch does.
    pub open spec fn punched(
        self,
        target: TargetView,
        result: Result<SocketAddr, HolePunchError>,
        now: Instant,
    ) -> (ClientView, ActionView) {
        let k = target.peer_pubkey;
        let state = self.trusted_remotes[k];
        match result {
            Err(error) => (
                if self.trusted_remotes.contains_key(k) {
                    ClientView {
                        trusted_remotes: self.trusted_remotes.insert(
                            k,
                            state.after_hole_punch_err(now),
                        ),
                        ..self
                    }
                } else {
                    self
                },
                failure(PollError::HolePunch { origin: target.origin, error }),
            ),
            Ok(addr) => (
                ClientView {
                    trusted_remotes: if self.trusted_remotes.contains_key(k) {
                        self.trusted_remotes.insert(k, state.after_established())
                    } else {
                        self.trusted_remotes
                    },
                    last_request_tm: None,
                    ..self
                },
                ActionView::Finish(
                    OutcomeView::Connected {
                        connection: ConnectionView {
                            pubkey: k,
                            remote_addr: addr,
                            is_listener: target.is_listener,
                        },
                    },
                ),
            ),
        }
    }

    /// What a request for the listed peers comes to, if it is signed at `timestamp`.
    pub open spec fn request_action(self, peers: Seq<Seq<u8>>, timestamp: int) -> ActionView {
        ActionView::SendRequest {
            to: self.p2p_server_addr,
            bytes: signed_bytes(
                ConnectionRequestView { peer_pubkeys: peers, session_id: self.session_id },
                self.key,
                timestamp,
            ),
        }
    }

    /// Whether an action sends a datagram from which the server reads that this client asks for
    /// the listed peers in its session. A datagram without peers is not understood.
    pub open spec fn asks_for(self, action: ActionView, peers: Seq<Seq<u8>>) -> bool {
        action matches ActionView::SendRequest { to, bytes } && to == self.p2p_server_addr
            && !overruns(bytes) && match signed_parse(bytes) {
            Ok(m) => peers.len() > 0 && m.0 == (ConnectionRequestView {
                peer_pubkeys: peers,
                session_id: self.session_id,
            }) && m.1 == ed25519_public_key(self.key),
            Err(e) => peers.len() == 0 && e == ParseError::InvalidContentFormat,
        }
    }

    /// The turn to send a request for the listed peers, if it is signed at `timestamp`: without a
    /// peer there is nothing to ask for.
    pub open spec fn request_turn_action(self, peers: Seq<Seq<u8>>, timestamp: int) -> ActionView {
        if peers.len() == 0 {
            ActionView::Finish(OutcomeView::Nothing { pause_ms: IDLE_PAUSE_MS })
        } else {
            self.request_action(peers, timestamp)
        }
    }
}

/// Whether more than `secs` whole seconds have passed since `tm`, or `tm` never was.
fn is_overdue(tm: &Option<Instant>, secs: u64, now: Instant) -> (r: bool)
    ensures
        r == overdue(*tm, secs, now),
{
    match tm {
        Some(t) => elapsed_secs(*t, now) > secs,
        None => true,
    }
}

fn same_name(x: &Option<String>, y: &Option<String>) -> (r: bool)
    ensures
        r == (name_view(*x) == name_view(*y)),
{
    match (x, y) {
        (Some(a), Some(b)) => *a == *b,
        (None, None) => true,
        _ => false,
    }
}

impl UdpConnectionEstablisher {
    fn local_turn(&self, now: Instant) -> (r: PollAction)
        requires
            self.wf(),
        ensures
            r@ == self@.local_turn(now),
    {
        if self.local_discovery {
            PollAction::PollMulticast { announce: self.announcement_enabled(now) }
        } else {
            PollAction::AskServer
        }
    }

    /// Starts a poll while `interface` is the network interface in use.
    pub fn begin_poll(&mut self, interface: Option<String>, now: Instant) -> (r: PollAction)
        requires
            old(self).wf(),
        ensures
            final(self).wf(),
            (final(self)@, r@) == old(self)@.begin(name_view(interface), now),
    {
        if self.poll_start_tm.is_none() {
            self.poll_start_tm = Some(now);
        }
        if !same_name(&interface, &self.cur_interface) {
            self.cur_interface = interface;
            return PollAction::Rebind;
        }
        self.local_turn(now)
    }

    /// Goes on after new sockets were opened.
    pub fn after_rebind(&self, now: Instant) -> (r: PollAction)
        requires
            self.wf(),
        ensures
            r@ == self@.local_turn(now),
    {
        self.local_turn(now)
    }

    /// Goes on after clients were found in the local network. Greets the last of them that is a
    /// trusted and accepted peer.
    pub fn on_discovered(
        &self,
        discovered: &Vec<Discovered>,
        disguises: &Vec<Disguise>,
        now: Instant,
    ) -> (r: PollAction)
        requires
            self.wf(),
        ensures
            match r@ {
                ActionView::ReceiveLocal => self@.recognises_none(discovered@, disguises@, now),
                ActionView::SendHello { to, peer, bytes } => bytes == hello_bytes(
                    ed25519_public_key(self@.key),
                ) && exists|i: int, n: int|
                    #![trigger self@.recognises(discovered@, disguises@, i, n, now)]
                    self@.recognises(discovered@, disguises@, i, n, now) && to == discovered@[i].0
                        && peer == disguises@[n].0@ && forall|i2: int, n2: int|
                        self@.recognises(discovered@, disguises@, i2, n2, now) ==> i2 < i || (i2
                            == i && n2 <= n),
                _ => false,
            },
    {
        match self.pick_discovered(discovered, disguises, now) {
            Some((to, peer)) => PollAction::SendHello { to, peer, bytes: self.discovery_hello() },
            None => PollAction::ReceiveLocal,
        }
    }

    /// Goes on after a greeting of `len` bytes to `peer` was sent.
    pub fn on_hello_sent(
        &self,
        to: SocketAddrV4,
        peer: PublicKey,
        len: usize,
        sent: Option<usize>,
    ) -> (r: PollAction)
        ensures
            r@ == self@.hello_sent(to, peer@, len, sent),
    {
        if let Some(n) = sent {
            if n == len {
                return PollAction::Punch(
                    PunchTarget {
                        peer_pubkey: peer,
                        origin: PunchOrigin::Greeted { to },
                        is_listener: false,
                    },
                );
            }
        }
        PollAction::AskServer
    }

    /// Goes on after a look at the socket for the local network.
    pub fn on_local_received(
        &self,
        packet: Option<(SocketAddr, Vec<u8>)>,
        now: Instant,
    ) -> (r: PollAction)
        requires
            self.wf(),
        ensures
            r@ == self@.local_received(packet, now),
    {
        if let Some((from, msg)) = packet {
            if let Some(pubkey) = self.on_local_datagram(msg.as_slice(), now) {
                return PollAction::Punch(
                    PunchTarget {
                        peer_pubkey: pubkey,
                        origin: PunchOrigin::GreetedBy { from },
                        is_listener: true,
                    },
                );
            }
        }
        PollAction::AskServer
    }

    fn request_decision(&self, now: Instant) -> (r: PollAction)
        ensures
            r@ == self@.request_decision(now),
    {
        if is_overdue(&self.last_request_tm, REQUEST_PLACEMENT_INTERVAL, now) {
            PollAction::PlaceRequest
        } else {
            PollAction::Receive
        }
    }

    /// Turns to the server, where a ping would carry `payload`.
    pub fn server_turn_with(&mut self, payload: u64, now: Instant) -> (r: PollAction)
        requires
            old(self).wf(),
        ensures
            final(self).wf(),
            (final(self)@, r@) == old(self)@.server_turn(payload, now),
    {
        if is_overdue(&self.last_p2p_server_ping_send_tm, PING_INTERVAL_SECS, now) {
            self.last_p2p_server_ping_send_tm = Some(now);
            return PollAction::SendPing { payload };
        }
        self.request_decision(now)
    }

    /// Turns to the server.
    pub fn server_turn(&mut self, now: Instant) -> (r: PollAction)
        requires
            old(self).wf(),
        ensures
            final(self).wf(),
            exists|payload: u64| (final(self)@, r@) == #[trigger] old(self)@.server_turn(payload, now),
    {
        let payload: u64 = random_u64();
        self.server_turn_with(payload, now)
    }

    /// Goes on after a ping with `payload` was sent, or failed to be sent.
    pub fn on_ping_sent(&mut self, payload: u64, sent: bool, now: Instant) -> (r: PollAction)
        requires
            old(self).wf(),
        ensures
            final(self).wf(),
            final(self)@ == old(self)@.after_ping(payload, sent, now),
            r@ == old(self)@.request_decision(now),
    {
        if sent {
            self.last_p2p_server_ping = Some((now, payload));
        }
        self.request_decision(now)
    }

    /// Prepares a request for the listed peers. The server reads the same list and session from
    /// it, and knows the sender. A request without peers is sent too, but the server does not
    /// understand it.
    pub fn place_connection_requests(&self, peer_pubkeys_list: Vec<PublicKey>) -> (r: PollAction)
        requires
            peer_pubkeys_list@.len() <= MAX_REQUEST_PEERS,
        ensures
            exists|timestamp: int|
                #![trigger timestamp_valid(timestamp)]
                timestamp_valid(timestamp) && 0 <= timestamp && r@ == self@.request_action(
                    key_views(peer_pubkeys_list@),
                    timestamp,
                ),
            self@.asks_for(r@, key_views(peer_pubkeys_list@)),
    {
        let ghost peers = key_views(peer_pubkeys_list@);
        let msg = ToServerSignedMessage::ConnectionRequest {
            peer_pubkeys: peer_pubkeys_list,
            session_id: self.session_id,
        };
        let bytes = msg.to_bytes(&self.key);
        let r = PollAction::SendRequest { to: self.p2p_server_addr, bytes };
        proof {
            let t = choose|t: i64| #[trigger]
                timestamp_valid(t as int) && 0 <= t && bytes@ == signed_bytes(
                    msg@,
                    self.key@,
                    t as int,
                );
            assert(r@ == self@.request_action(peers, t as int));
        }
        r
    }

    /// Prepares a request for the peers that are to be asked for, or ends the poll if there are
    /// none. If there are more than fit into a request, picks as many as fit at random.
    pub fn request_turn(&self, now: Instant) -> (r: PollAction)
        requires
            self.wf(),
        ensures
            exists|all: Seq<Seq<u8>>, peers: Seq<Seq<u8>>, timestamp: int|
                #![trigger lists_available(self@, all, now), self@.request_turn_action(peers, timestamp)]
                lists_available(self@, all, now) && picks(all, peers, MAX_REQUEST_PEERS as nat)
                    && timestamp_valid(timestamp) && 0 <= timestamp && r@
                    == self@.request_turn_action(peers, timestamp) && (peers.len() > 0
                    ==> self@.asks_for(r@, peers)),
    {
        let list = self.request_peers(now);
        let ghost peers = key_views(list@);
        if list.len() == 0 {
            assert(timestamp_valid(0) && self@.request_turn_action(peers, 0) is Finish);
            return PollAction::Finish(Outcome::Nothing { pause_ms: IDLE_PAUSE_MS });
        }
        let r = self.place_connection_requests(list);
        proof {
            let t = choose|t: int| #[trigger]
                timestamp_valid(t) && 0 <= t && r@ == self@.request_action(peers, t);
            assert(r@ == self@.request_turn_action(peers, t));
        }
        r
    }

    /// Goes on after a request was sent, or failed to be sent.
    pub fn on_request_sent(&mut self, now: Instant) -> (r: PollAction)
        requires
            old(self).wf(),
        ensures
            final(self).wf(),
            final(self)@ == (ClientView { last_request_tm: Some(now), ..old(self)@ }),
            r@ == ActionView::Receive,
    {
        self.last_request_tm = Some(now);
        PollAction::Receive
    }

    /// Replaces the state of a trusted peer.
    fn set_state(&mut self, k: PublicKey, state: PeerState)
        requires
            old(self).wf(),
            state.wf(),
        ensures
            final(self).wf(),
            final(self)@ == (ClientView {
                trusted_remotes: old(self)@.trusted_remotes.insert(k@, state),
                ..old(self)@
            }),
    {
        self.trusted_remotes.insert(k, state);
    }

    /// The state of a trusted peer.
    fn state_of(&self, k: &PublicKey) -> (r: Option<PeerState>)
        requires
            self.wf(),
        ensures
            r is Some <==> self@.trusted_remotes.contains_key(k@),
            r matches Some(s) ==> s == self@.trusted_remotes[k@] && s.wf(),
    {
        match self.trusted_remotes.get(k) {
            Some(s) => Some(*s),
            None => None,
        }
    }

    /// Handles a notice of the server, where a new session would be `fresh`.
    pub fn on_notice_with(&mut self, notice: ServerNotice, fresh: u32, now: Instant) -> (r: PollAction)
        requires
            old(self).wf(),
        ensures
            final(self).wf(),
            (final(self)@, r@) == old(self)@.notified(notice@, fresh, now),
    {
        match notice {
            ServerNotice::InitiateConnectionRequest {
                peer_pubkey,
                peer_address,
                remote_session_id,
                is_listener,
            } => {
                let mut state = match self.state_of(&peer_pubkey) {
                    Some(state) => state,
                    None => {
                        return PollAction::Finish(
                            Outcome::Failed {
                                error: PollError::NotTrusted,
                                pause_ms: IDLE_PAUSE_MS,
                            },
                        );
                    },
                };
                if !state.is_server_discovery_enabled(now) {
                    // we are connected to this peer already, or do not ask for it now
                    return PollAction::Finish(Outcome::Nothing { pause_ms: 0 });
                }
                if !state.on_new_connection_request(remote_session_id) {
                    // the same notification came in before
                    return PollAction::Finish(Outcome::Nothing { pause_ms: 0 });
                }
                self.set_state(peer_pubkey, state);
                self.session_id = fresh;
                PollAction::Punch(
                    PunchTarget {
                        peer_pubkey,
                        origin: PunchOrigin::Introduced { peer_address, remote_session_id },
                        is_listener,
                    },
                )
            },
            ServerNotice::LostConnectionRequest { peer_pubkey, peer_address } => {
                self.session_id = fresh;
                PollAction::Finish(Outcome::Nothing { pause_ms: 0 })
            },
            ServerNotice::NeedNewSession { old_session_id } => {
                if self.session_id == old_session_id {
                    self.session_id = fresh;
                }
                PollAction::Finish(Outcome::Nothing { pause_ms: 0 })
            },
            ServerNotice::ErrorSameIp { peer_pubkey } => {
                if let Some(state) = self.state_of(&peer_pubkey) {
                    let mut state = state;
                    state.on_error_same_ip(now);
                    self.set_state(peer_pubkey, state);
                }
                PollAction::Finish(Outcome::Nothing { pause_ms: 0 })
            },
            ServerNotice::Pong { payload } => {
                let answers = match self.last_p2p_server_ping {
                    Some((tm, last_payload)) => last_payload == payload && elapsed_secs(tm, now)
                        < PONG_VALID_SECS,
                    None => true,
                };
                if answers {
                    self.last_p2p_server_pong = Some(now);
                }
                PollAction::Finish(Outcome::Nothing { pause_ms: 0 })
            },
        }
    }

    /// Handles a notice of the server.
    pub fn on_notice(&mut self, notice: ServerNotice, now: Instant) -> (r: PollAction)
        requires
            old(self).wf(),
        ensures
            final(self).wf(),
            exists|fresh: u32| (final(self)@, r@) == #[trigger] old(self)@.notified(
                notice@,
                fresh,
                now,
            ),
    {
        let fresh: u32 = random_u32();
        self.on_notice_with(notice, fresh, now)
    }

    /// Goes on after the wait for the server, where a new session would be `fresh`.
    pub fn on_received_with(&mut self, received: Received, fresh: u32, now: Instant) -> (r: PollAction)
        requires
            old(self).wf(),
        ensures
            final(self).wf(),
            (final(self)@, r@) == old(self)@.received(received, fresh, now),
    {
        match received {
            Received::TimedOut => PollAction::Finish(Outcome::Nothing { pause_ms: 0 }),
            Received::Failed => PollAction::Finish(
                Outcome::Failed { error: PollError::Receive, pause_ms: IDLE_PAUSE_MS },
            ),
            Received::Datagram { from, bytes } => {
                if from != SocketAddr::V4(self.p2p_server_addr) {
                    return PollAction::Finish(Outcome::Nothing { pause_ms: 0 });
                }
                match ServerNotice::try_parse(bytes.as_slice()) {
                    Ok(notice) => self.on_notice_with(notice, fresh, now),
                    Err(e) => PollAction::Finish(
                        Outcome::Failed { error: PollError::Parse(e), pause_ms: IDLE_PAUSE_MS },
                    ),
                }
            },
        }
    }

    /// Goes on after the wait for the server.
    pub fn on_received(&mut self, received: Received, now: Instant) -> (r: PollAction)
        requires
            old(self).wf(),
        ensures
            final(self).wf(),
            exists|fresh: u32| (final(self)@, r@) == #[trigger] old(self)@.received(
                received,
                fresh,
                now,
            ),
    {
        let fresh: u32 = random_u32();
        self.on_received_with(received, fresh, now)
    }

    /// Goes on after a hole punch.
    pub fn on_punched(
        &mut self,
        target: PunchTarget,
        result: Result<SocketAddr, HolePunchError>,
        now: Instant,
    ) -> (r: PollAction)
        requires
            old(self).wf(),
            now + MAX_RETRY_TIMEOUT <= u64::MAX,
        ensures
            final(self).wf(),
            (final(self)@, r@) == old(self)@.punched(target@, result, now),
    {
        let state = self.state_of(&target.peer_pubkey);
        match result {
            Err(error) => {
                if let Some(state) = state {
                    let mut state = state;
                    state.on_hole_punch_err(now);
                    self.set_state(target.peer_pubkey, state);
                }
                PollAction::Finish(
                    Outcome::Failed {
                        error: PollError::HolePunch { origin: target.origin, error },
                        pause_ms: IDLE_PAUSE_MS,
                    },
                )
            },
            Ok(addr) => {
                if let Some(state) = state {
                    let mut state = state;
                    state.on_connection_established();
                    self.set_state(target.peer_pubkey, state);
                }
                self.last_request_tm = None;
                PollAction::Finish(
                    Outcome::Connected {
                        connection: NewP2pConnection {
                            pubkey: target.peer_pubkey,
                            remote_addr: addr,
                            is_listener: target.is_listener,
                        },
                    },
                )
            },
        }
    }
}

/// A change of the trusted peers, a closed connection or a new one makes the next poll send a
/// request at once.
pub proof fn changes_make_request_due(
    c: ClientView,
    k: Seq<u8>,
    keys: Seq<Seq<u8>>,
    target: TargetView,
    addr: SocketAddr,
    now: Instant,
    later: Instant,
)
    ensures
        !c.trusted_remotes.contains_key(k) ==> c.with_remote(k).request_decision(later)
            == ActionView::PlaceRequest,
        c.trusted_remotes.contains_key(k) ==> c.without_remote(k).request_decision(later)
            == ActionView::PlaceRequest,
        !c.trusts_exactly(keys) ==> c.with_remotes(keys).request_decision(later)
            == ActionView::PlaceRequest,
        c.with_closed(k).request_decision(later) == ActionView::PlaceRequest,
        c.punched(target, Ok(addr), now).0.request_decision(later) == ActionView::PlaceRequest,
{
}

/// The connection that an action ends a poll with.
pub open spec fn connection_of(action: ActionView) -> Option<ConnectionView> {
    match action {
        ActionView::Finish(OutcomeView::Connected { connection }) => Some(connection),
        _ => None,
    }
}

/// Every connection is hole-punched: no step of a poll but the end of a hole punch ends the poll
/// with a connection, and that one does so exactly if the hole was punched. The connection leads
/// to the peer of the hole punch, at the address that the hole punch found.
pub proof fn every_connection_is_punched(
    c: ClientView,
    interface: Option<Seq<char>>,
    to: SocketAddrV4,
    k: Seq<u8>,
    len: usize,
    sent: Option<usize>,
    packet: Option<(SocketAddr, Vec<u8>)>,
    payload: u64,
    peers: Seq<Seq<u8>>,
    timestamp: int,
    received: Received,
    fresh: u32,
    target: TargetView,
    result: Result<SocketAddr, HolePunchError>,
    now: Instant,
)
    ensures
        connection_of(c.begin(interface, now).1) is None,
        connection_of(c.local_turn(now)) is None,
        connection_of(c.hello_sent(to, k, len, sent)) is None,
        connection_of(c.local_received(packet, now)) is None,
        connection_of(c.server_turn(payload, now).1) is None,
        connection_of(c.request_decision(now)) is None,
        connection_of(c.request_turn_action(peers, timestamp)) is None,
        connection_of(c.received(received, fresh, now).1) is None,
        connection_of(c.punched(target, result, now).1) == match result {
            Ok(addr) => Some(
                ConnectionView {
                    pubkey: target.peer_pubkey,
                    remote_addr: addr,
                    is_listener: target.is_listener,
                },
            ),
            Err(_) => None,
        },
{
}

/// A hole is only ever punched towards a trusted peer that is asked for.
pub proof fn only_trusted_peers_are_connected(
    c: ClientView,
    notice: NoticeView,
    fresh: u32,
    packet: Option<(SocketAddr, Vec<u8>)>,
    k: Seq<u8>,
    now: Instant,
)
    ensures
        c.notified(notice, fresh, now).1 matches ActionView::Punch(target) ==> c.is_available(
            target.peer_pubkey,
            now,
        ),
        c.local_received(packet, now) matches ActionView::Punch(target) ==> c.is_available(
            target.peer_pubkey,
            now,
        ),
        c.accepts_local(k, now) ==> c.is_available(k, now),
{
}

/// A hole is punched once for a session: when the same introduction comes again, right away or
/// after the hole punch failed, nothing happens.
pub proof fn introduction_is_handled_once(
    c: ClientView,
    peer_pubkey: Seq<u8>,
    peer_address: SocketAddrV4,
    remote_session_id: u32,
    is_listener: bool,
    fresh: u32,
    again: u32,
    error: HolePunchError,
    now: Instant,
    failed: Instant,
    later: Instant,
)
    ensures
        ({
            let notice = NoticeView::InitiateConnectionRequest {
                peer_pubkey,
                peer_address,
                remote_session_id,
                is_listener,
            };
            let target = TargetView {
                peer_pubkey,
                origin: PunchOrigin::Introduced { peer_address, remote_session_id },
                is_listener,
            };
            let (c1, action) = c.notified(notice, fresh, now);
            let c2 = c1.punched(target, Err(error), failed).0;
            action is Punch ==> {
                &&& action == ActionView::Punch(target)
                &&& c1.session_id == fresh
                &&& c1.notified(notice, again, later) == (c1, nothing())
                &&& c2.notified(notice, again, later) == (c2, nothing())
            }
        }),
{
}

/// While a connection lasts, however it came about, its peer is not asked for, and introductions
/// to it and its greetings are ignored.
pub proof fn connected_peer_is_left_alone(
    c: ClientView,
    target: TargetView,
    addr: SocketAddr,
    notice: NoticeView,
    fresh: u32,
    now: Instant,
    later: Instant,
)
    requires
        c.trusted_remotes.contains_key(target.peer_pubkey),
        notice matches NoticeView::InitiateConnectionRequest { peer_pubkey, .. } && peer_pubkey
            == target.peer_pubkey,
    ensures
        ({
            let c1 = c.punched(target, Ok(addr), now).0;
            &&& !c1.is_available(target.peer_pubkey, later)
            &&& !c1.accepts_local(target.peer_pubkey, later)
            &&& c1.notified(notice, fresh, later) == (c1, nothing())
        }),
{
}

/// After a failed hole punch the peer is not asked for until its retry timeout is over.
pub proof fn failed_punch_pauses_peer(
    c: ClientView,
    target: TargetView,
    error: HolePunchError,
    now: Instant,
    later: Instant,
)
    requires
        c.trusted_remotes.contains_key(target.peer_pubkey),
        c.trusted_remotes[target.peer_pubkey].wf(),
        now + MAX_RETRY_TIMEOUT <= u64::MAX,
        later <= now + c.trusted_remotes[target.peer_pubkey].failure_retry_timeout,
    ensures
        !c.punched(target, Err(error), now).0.is_available(target.peer_pubkey, later),
{
}

/// When the server's introduction reaches a client that asks for the peer, with a session that is
/// new to it, the client punches a hole towards the address in the introduction.
pub proof fn introduction_leads_to_punch(
    c: ClientView,
    peer_pubkey: Seq<u8>,
    peer_address: SocketAddrV4,
    remote_session_id: u32,
    is_listener: bool,
    bytes: Vec<u8>,
    fresh: u32,
    now: Instant,
)
    requires
        peer_pubkey.len() == 32,
        bytes@ == from_server_bytes(
            FromServerView::InitiateConnectionRequest {
                peer_pubkey,
                peer_address,
                remote_session_id,
                is_listener,
            },
        ),
        c.is_available(peer_pubkey, now),
        c.trusted_remotes[peer_pubkey].last_accepted_session_id != Some(remote_session_id),
    ensures
        c.received(
            Received::Datagram { from: SocketAddr::V4(c.p2p_server_addr), bytes },
            fresh,
            now,
        ).1 == ActionView::Punch(
            TargetView {
                peer_pubkey,
                origin: PunchOrigin::Introduced { peer_address, remote_session_id },
                is_listener,
            },
        ),
{
    from_server_parse_of_bytes(
        FromServerView::InitiateConnectionRequest {
            peer_pubkey,
            peer_address,
            remote_session_id,
            is_listener,
        },
        Seq::empty(),
    );
}

/// A session is only ever given up for a new one when the server starts a connection, demands a
/// new session in place of the current one, or lost a request.
pub proof fn session_changes_on_demand(c: ClientView, notice: NoticeView, fresh: u32, now: Instant)
    ensures
        c.notified(notice, fresh, now).0.session_id == if c.notified(notice, fresh, now).1 is Punch
            || notice is LostConnectionRequest || notice == (NoticeView::NeedNewSession {
            old_session_id: c.session_id,
        }) {
            fresh
        } else {
            c.session_id
        },
{
}

/// In the first 5 seconds after its first poll, a client neither announces itself in the local
/// network nor connects to a peer there. Later polls do not put that off.
pub proof fn local_discovery_waits_five_seconds(
    c: ClientView,
    k: Seq<u8>,
    interface: Option<Seq<char>>,
    other: Option<Seq<char>>,
    start: Instant,
    again: Instant,
    now: Instant,
)
    requires
        c.poll_start_tm is None,
    ensures
        ({
            let first = c.begin(interface, start).0;
            &&& now - start < 5_000_000_000 ==> !first.announces(now) && !first.accepts_local(k, now)
            &&& first.begin(other, again).0.poll_start_tm == first.poll_start_tm
        }),
{
}

/// How far an action is from the start of a poll.
pub open spec fn progress(a: ActionView) -> nat {
    match a {
        ActionView::Rebind => 1,
        ActionView::PollMulticast { .. } => 2,
        ActionView::SendHello { .. } => 3,
        ActionView::ReceiveLocal => 3,
        ActionView::AskServer => 4,
        ActionView::SendPing { .. } => 5,
        ActionView::PlaceRequest => 6,
        ActionView::SendRequest { .. } => 7,
        ActionView::Receive => 8,
        ActionView::Punch(_) => 9,
        ActionView::Finish(_) => 10,
    }
}

/// A poll comes to its end: each decision is further from the start than the one before.
pub proof fn poll_advances(
    c: ClientView,
    interface: Option<Seq<char>>,
    payload: u64,
    peers: Seq<Seq<u8>>,
    timestamp: int,
    to: SocketAddrV4,
    k: Seq<u8>,
    len: usize,
    sent: Option<usize>,
    local: Option<(SocketAddr, Vec<u8>)>,
    packet: Received,
    fresh: u32,
    target: TargetView,
    result: Result<SocketAddr, HolePunchError>,
    now: Instant,
)
    ensures
        progress(c.begin(interface, now).1) >= 1,
        progress(c.local_turn(now)) > progress(ActionView::Rebind),
        progress(c.hello_sent(to, k, len, sent)) > progress(
            ActionView::SendHello { to, peer: k, bytes: hello_bytes(k) },
        ),
        progress(c.local_received(local, now)) > progress(ActionView::ReceiveLocal),
        progress(c.server_turn(payload, now).1) > progress(ActionView::AskServer),
        progress(c.request_decision(now)) > progress(ActionView::SendPing { payload }),
        progress(c.request_turn_action(peers, timestamp)) > progress(ActionView::PlaceRequest),
        progress(c.received(packet, fresh, now).1) > progress(ActionView::Receive),
        progress(c.punched(target, result, now).1) > progress(ActionView::Punch(target)),
{
}

} // verus!
