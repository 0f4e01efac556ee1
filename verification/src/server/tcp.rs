//! The TCP side of the server: it answers services and those who want to connect to them.
use vstd::prelude::*;
use crate::net::SocketAddr;
use crate::server::state::{announced, can_pick_up, lists_services, pending, requested, withdrawn};
use crate::server::state::{KnownClient, State, PICK_UP_TIMEOUT_MS};
use crate::tcp::messages::{ClientAnnouncementData, ConnectionRequest, ToNatClientMsg, ToNatServerMsg};
use crate::tcp::{CONNECTION_REQUEST_TIMEOUT_MS, SCHEDULE_CON_MS};
use crate::time::{Instant, NANOS_PER_MILLI};

verus! {

/// How long the server waits for a message before it looks after its services again, in
/// milliseconds.
pub const POLL_INTERVAL_MS: u64 = 100;

/// What the server does after a message from a TCP client. `T` is the way to confirm a connection.
pub enum TcpAction<T> {
    /// Sends a message.
    Reply(ToNatClientMsg),
    /// Confirms the connection that waits for this client. If that succeeds: `confirmation`, with
    /// the address of the other side.
    Confirm { tx: T, addr: SocketAddr },
    /// Sends a message and waits for the other side, for so many milliseconds at most. Then:
    /// `on_awaited`.
    Await { reply: ToNatClientMsg, session: u64, timeout_ms: u64 },
    /// Closes the connection.
    Close,
}

/// How the channel to a TCP client failed.
#[derive(Debug, Clone, Copy, PartialEq, Eq, Structural)]
pub enum ChannelFailure {
    ConnectionClosed,
    Other,
}

/// Whether the server goes on to listen to a client after its channel failed.
pub fn goes_on_after(failure: ChannelFailure) -> (r: bool)
    ensures
        r == (failure != ChannelFailure::ConnectionClosed),
{
    match failure {
        ChannelFailure::ConnectionClosed => false,
        ChannelFailure::Other => true,
    }
}

/// The start of the countdown.
fn start_countdown() -> (r: ToNatClientMsg)
    ensures
        r == ToNatClientMsg::StartCountdown((SCHEDULE_CON_MS * NANOS_PER_MILLI) as u128),
{
    ToNatClientMsg::StartCountdown((SCHEDULE_CON_MS * NANOS_PER_MILLI) as u128)
}

/// The messages to a service once the connection from `addr` was confirmed.
pub fn confirmation(addr: SocketAddr) -> (r: Vec<ToNatClientMsg>)
    ensures
        r@ == seq![
            ToNatClientMsg::RemoteAddr(addr),
            ToNatClientMsg::StartCountdown((SCHEDULE_CON_MS * NANOS_PER_MILLI) as u128),
        ],
{
    let mut r: Vec<ToNatClientMsg> = Vec::new();
    r.push(ToNatClientMsg::RemoteAddr(addr));
    r.push(start_countdown());
    assert(r@ =~= seq![
        ToNatClientMsg::RemoteAddr(addr),
        ToNatClientMsg::StartCountdown((SCHEDULE_CON_MS * NANOS_PER_MILLI) as u128),
    ]);
    r
}

/// The services after a message.
pub open spec fn state_after<T>(
    s: Map<u64, KnownClient<T>>,
    msg: ToNatServerMsg,
    addr: SocketAddr,
    tx: T,
    now: Instant,
) -> Map<u64, KnownClient<T>> {
    match msg {
        ToNatServerMsg::GetClients(_) => s,
        ToNatServerMsg::AnnounceAndCheck(announce) => announced(s, announce, addr, now),
        ToNatServerMsg::ConnectionRequest(request) => requested(s, request.session, addr, tx, now),
    }
}

/// Whether `action` is the answer to a message.
pub open spec fn answers<T>(
    s: Map<u64, KnownClient<T>>,
    msg: ToNatServerMsg,
    action: TcpAction<T>,
    now: Instant,
) -> bool {
    match msg {
        ToNatServerMsg::GetClients(_) => match action {
            TcpAction::Reply(ToNatClientMsg::Clients(list)) => lists_services(s, list@, now),
            _ => false,
        },
        ToNatServerMsg::AnnounceAndCheck(announce) => if can_pick_up(s, announce.session, now) {
            action == TcpAction::Confirm {
                tx: pending(s, announce.session)->0.tx,
                addr: pending(s, announce.session)->0.addr,
            }
        } else {
            action == TcpAction::<T>::Close
        },
        ToNatServerMsg::ConnectionRequest(request) => if s.contains_key(request.session) {
            action == TcpAction::<T>::Await {
                reply: ToNatClientMsg::RemoteAddr(s[request.session].addr),
                session: request.session,
                timeout_ms: CONNECTION_REQUEST_TIMEOUT_MS,
            }
        } else {
            action == TcpAction::<T>::Close
        },
    }
}

impl<T> State<T> {
    /// Handles a message from the TCP client at `addr`. With `tx` a connection that the client
    /// requests can be confirmed to it.
    pub fn on_message(
        &mut self,
        msg: ToNatServerMsg,
        addr: SocketAddr,
        tx: T,
        now: Instant,
    ) -> (r: TcpAction<T>)
        requires
            old(self).wf(),
            now + PICK_UP_TIMEOUT_MS * NANOS_PER_MILLI <= u64::MAX,
        ensures
            final(self).wf(),
            final(self)@ == state_after(old(self)@, msg, addr, tx, now),
            answers(old(self)@, msg, r, now),
    {
        match msg {
            ToNatServerMsg::GetClients(query) => {
                let clients = self.get_clients(query.app.as_str(), now);
                assert(lists_services(old(self)@, clients@, now));
                TcpAction::Reply(ToNatClientMsg::Clients(clients))
            },
            ToNatServerMsg::AnnounceAndCheck(announce) => match self.announce_check(
                announce,
                addr,
                now,
            ) {
                Some(incoming) => TcpAction::Confirm { tx: incoming.tx, addr: incoming.addr },
                None => TcpAction::Close,
            },
            ToNatServerMsg::ConnectionRequest(request) => match self.insert_connection_request(
                request,
                addr,
                tx,
                now,
            ) {
                Some(dst) => TcpAction::Await {
                    reply: ToNatClientMsg::RemoteAddr(dst),
                    session: request.session,
                    timeout_ms: CONNECTION_REQUEST_TIMEOUT_MS,
                },
                None => TcpAction::Close,
            },
        }
    }

    /// Goes on after the wait for the other side of a connection: withdraws it, and returns the
    /// message to send if the other side confirmed.
    pub fn on_awaited(&mut self, session: u64, confirmed: bool) -> (r: Option<ToNatClientMsg>)
        requires
            old(self).wf(),
        ensures
            final(self).wf(),
            final(self)@ == withdrawn(old(self)@, session),
            r == if confirmed {
                Some(ToNatClientMsg::StartCountdown((SCHEDULE_CON_MS * NANOS_PER_MILLI) as u128))
            } else {
                None
            },
    {
        self.remove_connection_request(session);
        if confirmed {
            Some(start_countdown())
        } else {
            None
        }
    }
}

/// When a service announces itself while a connection from `from` waits for it, both sides learn
/// the address of the other, and the service is told how to confirm the connection.
pub proof fn both_sides_learn_addresses<T>(
    s: Map<u64, KnownClient<T>>,
    session: u64,
    from: SocketAddr,
    tx: T,
    now: Instant,
    announce: ClientAnnouncementData,
    later: Instant,
    first: TcpAction<T>,
    second: TcpAction<T>,
)
    requires
        s.contains_key(session),
        announce.session == session,
        now + PICK_UP_TIMEOUT_MS * NANOS_PER_MILLI <= u64::MAX,
        later < now + PICK_UP_TIMEOUT_MS * NANOS_PER_MILLI,
        answers(
            s,
            ToNatServerMsg::ConnectionRequest(ConnectionRequest { session }),
            first,
            now,
        ),
        answers(
            requested(s, session, from, tx, now),
            ToNatServerMsg::AnnounceAndCheck(announce),
            second,
            later,
        ),
    ensures
        first matches TcpAction::Await { reply, .. } && reply == ToNatClientMsg::RemoteAddr(
            s[session].addr,
        ),
        second == (TcpAction::Confirm { tx, addr: from }),
{
}

/// The question for services is answered with the list of all that are known, and changes nothing.
pub proof fn scan_is_answered<T>(
    s: &mut State<T>,
    query: ToNatServerMsg,
    addr: SocketAddr,
    tx: T,
    now: Instant,
    r: TcpAction<T>,
)
    requires
        query is GetClients,
        call_ensures(State::<T>::on_message, (s, query, addr, tx, now), r),
    ensures
        final(s)@ == old(s)@,
        r matches TcpAction::Reply(ToNatClientMsg::Clients(list)) && lists_services(
            old(s)@,
            list@,
            now,
        ),
{
}

/// A service that announces itself is told of the connection that waits for it and how to confirm
/// that, as long as its deadline has not come, and is dismissed otherwise. Either way it is known
/// from then on.
pub proof fn announcement_is_answered<T>(
    s: &mut State<T>,
    announce: ClientAnnouncementData,
    addr: SocketAddr,
    tx: T,
    now: Instant,
    r: TcpAction<T>,
)
    requires
        call_ensures(
            State::<T>::on_message,
            (s, ToNatServerMsg::AnnounceAndCheck(announce), addr, tx, now),
            r,
        ),
    ensures
        ({
            let waiting = if old(s)@.contains_key(announce.session) {
                old(s)@[announce.session].pending_connection
            } else {
                None
            };
            &&& match waiting {
                Some(c) if now < c.tm => r == (TcpAction::Confirm { tx: c.tx, addr: c.addr }),
                _ => r is Close,
            }
            &&& final(s)@.contains_key(announce.session)
            &&& final(s)@[announce.session].addr == addr
            &&& final(s)@[announce.session].data == announce
            &&& final(s)@[announce.session].last_announcement == now
            &&& r is Confirm ==> final(s)@[announce.session].pending_connection is None
        }),
{
}

/// Whoever wants to be connected to a known service is told its address and waits for it for 5
/// seconds at most, and the connection can be picked up for four and a half seconds. For an unknown
/// service it is dismissed, and nothing changes.
pub proof fn connection_request_is_answered<T>(
    s: &mut State<T>,
    session: u64,
    addr: SocketAddr,
    tx: T,
    now: Instant,
    r: TcpAction<T>,
)
    requires
        call_ensures(
            State::<T>::on_message,
            (s, ToNatServerMsg::ConnectionRequest(ConnectionRequest { session }), addr, tx, now),
            r,
        ),
        now + 4_500_000_000 <= u64::MAX,
    ensures
        !old(s)@.contains_key(session) ==> r is Close && final(s)@ == old(s)@,
        old(s)@.contains_key(session) ==> {
            &&& r == (TcpAction::<T>::Await {
                reply: ToNatClientMsg::RemoteAddr(old(s)@[session].addr),
                session,
                timeout_ms: 5000,
            })
            &&& final(s)@[session].pending_connection matches Some(c) && c.tm - now
                == 4_500_000_000 && c.addr == addr && c.tx == tx
        },
{
}

/// Once the other side has confirmed, both sides count down half a second: the one that waited is
/// told that alone, and the service also where the other side is. One that was not confirmed is told
/// nothing. The connection no longer waits in any case.
pub proof fn confirmed_sides_count_down<T>(
    s: &mut State<T>,
    session: u64,
    confirmed: bool,
    r: Option<ToNatClientMsg>,
    addr: SocketAddr,
    to_service: Vec<ToNatClientMsg>,
)
    requires
        call_ensures(State::<T>::on_awaited, (s, session, confirmed), r),
        call_ensures(confirmation, (addr,), to_service),
    ensures
        confirmed ==> r == Some(ToNatClientMsg::StartCountdown(500_000_000)),
        !confirmed ==> r is None,
        old(s)@.contains_key(session) ==> final(s)@.contains_key(session)
            && final(s)@[session].pending_connection is None,
        !old(s)@.contains_key(session) ==> final(s)@ == old(s)@,
        to_service@.len() == 2,
        to_service@[0] == ToNatClientMsg::RemoteAddr(addr),
        to_service@[1] == ToNatClientMsg::StartCountdown(500_000_000),
{
}

/// The server listens on after any failure of a channel but its end.
pub proof fn closed_channel_is_given_up(closed: bool, other: bool)
    requires
        call_ensures(goes_on_after, (ChannelFailure::ConnectionClosed,), closed),
        call_ensures(goes_on_after, (ChannelFailure::Other,), other),
    ensures
        !closed,
        other,
{
}

/// Between two looks after its services the server waits for 100 ms at most, so that a service is
/// forgotten in time.
pub proof fn services_are_looked_after()
    ensures
        30 * POLL_INTERVAL_MS == crate::tcp::ANNOUNCEMENT_DURATION_MS,
        POLL_INTERVAL_MS == 100,
{
}

} // verus!
