//! The two sides that meet through the server: one that connects to a service, and the service.
//!
//! Each function decides what the application does next, and is followed by the function for what
//! came of it: `begin` comes first, and `FlowAction::Finish` last.
use vstd::prelude::*;
use vstd::string::StringExecFns;
use crate::net::SocketAddr;
use crate::tcp::messages::{ClientAnnouncement, ClientAnnouncementData, ConnectionRequest};
use crate::tcp::messages::{GetClients, ToNatServerMsg};
use crate::time::{Instant, NANOS_PER_MILLI};

verus! {

/// How long the server may take to accept a connection, in milliseconds.
pub const CONNECT_TIMEOUT_MS: u64 = 10_000;

/// How long the server may take to answer, in milliseconds.
pub const REPLY_TIMEOUT_MS: u64 = 3_000;

/// The longest countdown, in nanoseconds: 2 s.
pub const MAX_COUNTDOWN: u128 = 2_000_000_000;

/// How long the other side is dialled again and again, in milliseconds.
pub const DIAL_WINDOW_MS: u64 = 500;

/// How long one attempt to dial may take, in milliseconds.
pub const DIAL_TIMEOUT_MS: u64 = 1_000;

/// The pause between two attempts to dial, in milliseconds.
pub const DIAL_PAUSE_MS: u64 = 20;

/// Why two sides did not meet.
#[derive(Debug, Clone, Copy, PartialEq, Eq, Structural)]
pub enum RequestError {
    /// No direct TCP connection with the other side was established.
    P2pConnectionFailed,
    /// There is no service with the given session.
    NoSessionId,
    /// The connection to the server failed, or took too long.
    ConnectionFailed { timed_out: bool },
    /// The server did not answer.
    NoResponse,
    /// The channel to the server failed.
    ChannelError,
    /// A message to the server could not be sent.
    WriteError,
    /// No connection waits for this service.
    NoPendingConnections,
}

impl RequestError {
    /// The error in words, where `cause` is what the channel itself reported.
    pub open spec fn text(self, cause: Seq<char>) -> Seq<char> {
        match self {
            RequestError::P2pConnectionFailed => {
                "Failed to establish direct TCP connection with client"@
            },
            RequestError::NoSessionId => "Did not find client with given session id"@,
            RequestError::ConnectionFailed { .. } => "Connection to helper server failed"@,
            RequestError::NoResponse => "No response from server"@,
            RequestError::ChannelError => "Channel error: "@ + cause,
            RequestError::WriteError => "Channel error during sending: "@ + cause,
            RequestError::NoPendingConnections => {
                "Did not find any new incoming connection requests on helper server"@
            },
        }
    }

    /// The error in words, where `cause` is what the channel itself reported.
    pub fn message(&self, cause: &str) -> (r: String)
        ensures
            r@ == self.text(cause@),
    {
        match self {
            RequestError::P2pConnectionFailed => {
                "Failed to establish direct TCP connection with client".to_owned()
            },
            RequestError::NoSessionId => "Did not find client with given session id".to_owned(),
            RequestError::ConnectionFailed { .. } => "Connection to helper server failed".to_owned(),
            RequestError::NoResponse => "No response from server".to_owned(),
            RequestError::ChannelError => "Channel error: ".to_owned().concat(cause),
            RequestError::WriteError => "Channel error during sending: ".to_owned().concat(cause),
            RequestError::NoPendingConnections => {
                "Did not find any new incoming connection requests on helper server".to_owned()
            },
        }
    }
}

/// What came of an attempt to connect to the server.
#[derive(Debug, Clone, Copy, PartialEq, Eq, Structural)]
pub enum Connect {
    Connected,
    Failed,
    TimedOut,
}

/// What came of the wait for a message.
#[derive(Debug)]
pub enum Reply<M> {
    Got(M),
    TimedOut,
    /// The server closed the channel.
    Closed,
    /// The channel failed in another way.
    Failed,
}

/// What a side wants from the server.
#[derive(Debug)]
pub enum Intent {
    /// The list of services.
    Scan,
    /// A connection to the service with this session.
    Connect { session: u64 },
    /// A connection from someone to the service that is announced.
    Accept(ClientAnnouncementData),
}

/// The application whose services are asked for.
pub open spec fn scanned_app() -> Seq<char> {
    "test_app"@
}

/// What the application does next.
#[derive(Debug)]
pub enum FlowAction {
    /// Connects to the server. Then: `on_connected`.
    Connect { timeout_ms: u64 },
    /// Sends a message. Then: `on_sent`.
    Send(ToNatServerMsg),
    /// Waits for the list of services. Then: `on_clients`.
    AwaitClients { timeout_ms: u64 },
    /// Waits for the address of the other side. Then: `on_remote_addr`.
    AwaitAddr { timeout_ms: u64 },
    /// Waits for the countdown. Then: `on_countdown`.
    AwaitCountdown { remote: SocketAddr, timeout_ms: u64 },
    /// Waits for so many nanoseconds. Then: `on_counted_down`.
    CountDown { remote: SocketAddr, nanos: u128 },
    /// Dials the other side. Then: `on_dialled`.
    Dial { remote: SocketAddr, deadline: Instant, timeout_ms: u64 },
    /// Waits for so many milliseconds. Then: `dial_turn`.
    Rest { remote: SocketAddr, deadline: Instant, millis: u64 },
    /// Ends, connected to the other side.
    Finish(SocketAddr),
    /// Ends with an error.
    Fail(RequestError),
}

/// Starts to talk to the server.
pub fn begin() -> (r: FlowAction)
    ensures
        r == (FlowAction::Connect { timeout_ms: CONNECT_TIMEOUT_MS }),
{
    FlowAction::Connect { timeout_ms: CONNECT_TIMEOUT_MS }
}

/// Goes on after the attempt to connect to the server: tells it what is wanted.
pub fn on_connected(intent: &Intent, result: Connect) -> (r: FlowAction)
    ensures
        match result {
            Connect::Failed => r == FlowAction::Fail(
                RequestError::ConnectionFailed { timed_out: false },
            ),
            Connect::TimedOut => r == FlowAction::Fail(
                RequestError::ConnectionFailed { timed_out: true },
            ),
            Connect::Connected => match *intent {
                Intent::Scan => r matches FlowAction::Send(ToNatServerMsg::GetClients(query))
                    && query.app@ == scanned_app(),
                Intent::Connect { session } => r == FlowAction::Send(
                    ToNatServerMsg::ConnectionRequest(ConnectionRequest { session }),
                ),
                Intent::Accept(data) => r == FlowAction::Send(
                    ToNatServerMsg::AnnounceAndCheck(data),
                ),
            },
        },
{
    match result {
        Connect::Failed => FlowAction::Fail(RequestError::ConnectionFailed { timed_out: false }),
        Connect::TimedOut => FlowAction::Fail(RequestError::ConnectionFailed { timed_out: true }),
        Connect::Connected => match intent {
            Intent::Scan => FlowAction::Send(
                ToNatServerMsg::GetClients(GetClients { app: "test_app".to_owned() }),
            ),
            Intent::Connect { session } => FlowAction::Send(
                ToNatServerMsg::ConnectionRequest(ConnectionRequest { session: *session }),
            ),
            Intent::Accept(data) => FlowAction::Send(
                ToNatServerMsg::AnnounceAndCheck(data.clone()),
            ),
        },
    }
}

/// Goes on after a message was sent, or failed to be sent.
pub fn on_sent(intent: &Intent, sent: bool) -> (r: FlowAction)
    ensures
        r == if !sent {
            FlowAction::Fail(RequestError::WriteError)
        } else if *intent is Scan {
            FlowAction::AwaitClients { timeout_ms: REPLY_TIMEOUT_MS }
        } else {
            FlowAction::AwaitAddr { timeout_ms: REPLY_TIMEOUT_MS }
        },
{
    if !sent {
        return FlowAction::Fail(RequestError::WriteError);
    }
    match intent {
        Intent::Scan => FlowAction::AwaitClients { timeout_ms: REPLY_TIMEOUT_MS },
        _ => FlowAction::AwaitAddr { timeout_ms: REPLY_TIMEOUT_MS },
    }
}

/// The end of a scan: the list of services, or why there is none.
pub fn on_clients(reply: Reply<Vec<ClientAnnouncement>>) -> (r: Result<
    Vec<ClientAnnouncement>,
    RequestError,
>)
    ensures
        r == match reply {
            Reply::Got(clients) => Ok(clients),
            Reply::TimedOut => Err(RequestError::NoResponse),
            Reply::Closed => Err(RequestError::ChannelError),
            Reply::Failed => Err(RequestError::ChannelError),
        },
{
    match reply {
        Reply::Got(clients) => Ok(clients),
        Reply::TimedOut => Err(RequestError::NoResponse),
        Reply::Closed => Err(RequestError::ChannelError),
        Reply::Failed => Err(RequestError::ChannelError),
    }
}

/// What it means that the address of the other side did not come: the server does not know the
/// service, or nobody waits for this service, or the server is not there.
pub open spec fn addr_error(intent: Intent, reply: Reply<SocketAddr>) -> RequestError {
    match (intent, reply) {
        (Intent::Connect { .. }, Reply::TimedOut) => RequestError::NoSessionId,
        (Intent::Connect { .. }, Reply::Closed) => RequestError::NoSessionId,
        (Intent::Accept(_), Reply::TimedOut) => RequestError::NoResponse,
        (Intent::Accept(_), Reply::Closed) => RequestError::NoPendingConnections,
        (Intent::Scan, Reply::TimedOut) => RequestError::NoResponse,
        _ => RequestError::ChannelError,
    }
}

/// Goes on after the wait for the address of the other side.
pub fn on_remote_addr(intent: &Intent, reply: Reply<SocketAddr>) -> (r: FlowAction)
    ensures
        r == match reply {
            Reply::Got(remote) => FlowAction::AwaitCountdown {
                remote,
                timeout_ms: REPLY_TIMEOUT_MS,
            },
            _ => FlowAction::Fail(addr_error(*intent, reply)),
        },
{
    match reply {
        Reply::Got(remote) => FlowAction::AwaitCountdown { remote, timeout_ms: REPLY_TIMEOUT_MS },
        Reply::TimedOut => match intent {
            Intent::Connect { session } => FlowAction::Fail(RequestError::NoSessionId),
            _ => FlowAction::Fail(RequestError::NoResponse),
        },
        Reply::Closed => match intent {
            Intent::Connect { session } => FlowAction::Fail(RequestError::NoSessionId),
            Intent::Accept(data) => FlowAction::Fail(RequestError::NoPendingConnections),
            Intent::Scan => FlowAction::Fail(RequestError::ChannelError),
        },
        Reply::Failed => FlowAction::Fail(RequestError::ChannelError),
    }
}

/// Goes on after the wait for the countdown, which is cut to 2 seconds.
pub fn on_countdown(remote: SocketAddr, reply: Reply<u128>) -> (r: FlowAction)
    ensures
        r == match reply {
            Reply::Got(nanos) => FlowAction::CountDown {
                remote,
                nanos: if nanos < MAX_COUNTDOWN {
                    nanos
                } else {
                    MAX_COUNTDOWN
                },
            },
            Reply::TimedOut => FlowAction::Fail(RequestError::NoResponse),
            Reply::Closed => FlowAction::Fail(RequestError::ChannelError),
            Reply::Failed => FlowAction::Fail(RequestError::ChannelError),
        },
{
    match reply {
        Reply::Got(nanos) => {
            let nanos: u128 = if nanos < MAX_COUNTDOWN {
                nanos
            } else {
                MAX_COUNTDOWN
            };
            FlowAction::CountDown { remote, nanos }
        },
        Reply::TimedOut => FlowAction::Fail(RequestError::NoResponse),
        Reply::Closed => FlowAction::Fail(RequestError::ChannelError),
        Reply::Failed => FlowAction::Fail(RequestError::ChannelError),
    }
}

/// What to do while the other side is to be dialled until `deadline`.
pub open spec fn dial_decision(remote: SocketAddr, deadline: Instant, now: Instant) -> FlowAction {
    if now < deadline {
        FlowAction::Dial { remote, deadline, timeout_ms: DIAL_TIMEOUT_MS }
    } else {
        FlowAction::Fail(RequestError::P2pConnectionFailed)
    }
}

/// Goes on after the countdown: dials the other side for half a second.
pub fn on_counted_down(remote: SocketAddr, now: Instant) -> (r: FlowAction)
    requires
        now + DIAL_WINDOW_MS * NANOS_PER_MILLI <= u64::MAX,
    ensures
        r == dial_decision(remote, (now + DIAL_WINDOW_MS * NANOS_PER_MILLI) as u64, now),
        r is Dial,
{
    dial_turn(remote, now + DIAL_WINDOW_MS * NANOS_PER_MILLI, now)
}

/// Dials the other side, or gives up after `deadline`.
pub fn dial_turn(remote: SocketAddr, deadline: Instant, now: Instant) -> (r: FlowAction)
    ensures
        r == dial_decision(remote, deadline, now),
{
    if now < deadline {
        FlowAction::Dial { remote, deadline, timeout_ms: DIAL_TIMEOUT_MS }
    } else {
        FlowAction::Fail(RequestError::P2pConnectionFailed)
    }
}

/// Goes on after an attempt to dial the other side.
pub fn on_dialled(remote: SocketAddr, deadline: Instant, connected: bool) -> (r: FlowAction)
    ensures
        r == if connected {
            FlowAction::Finish(remote)
        } else {
            FlowAction::Rest { remote, deadline, millis: DIAL_PAUSE_MS }
        },
{
    if connected {
        FlowAction::Finish(remote)
    } else {
        FlowAction::Rest { remote, deadline, millis: DIAL_PAUSE_MS }
    }
}

/// Whether the side that connects takes another port for its next connection, at the end `end` of a
/// flow: it does once it has dialled the other side, with or without success.
pub fn rotates_port(intent: &Intent, end: &FlowAction) -> (r: bool)
    ensures
        r == (*intent is Connect && (*end is Finish || *end == FlowAction::Fail(
            RequestError::P2pConnectionFailed,
        ))),
{
    match intent {
        Intent::Connect { session } => match end {
            FlowAction::Finish(remote) => true,
            FlowAction::Fail(RequestError::P2pConnectionFailed) => true,
            _ => false,
        },
        _ => false,
    }
}

/// Whether `next` is what the application does after `action`, on the way from the address of the
/// other side to a connection, whatever comes of that action and whenever.
pub open spec fn leads_to(action: FlowAction, next: FlowAction) -> bool {
    match action {
        FlowAction::AwaitCountdown { remote, .. } => exists|reply: Reply<u128>|
            call_ensures(on_countdown, (remote, reply), next),
        FlowAction::CountDown { remote, .. } => exists|now: Instant|
            call_ensures(on_counted_down, (remote, now), next),
        FlowAction::Dial { remote, deadline, .. } => exists|connected: bool|
            call_ensures(on_dialled, (remote, deadline, connected), next),
        FlowAction::Rest { remote, deadline, .. } => exists|now: Instant|
            call_ensures(dial_turn, (remote, deadline, now), next),
        _ => false,
    }
}

/// The address that an action is about.
pub open spec fn address_of(action: FlowAction) -> Option<SocketAddr> {
    match action {
        FlowAction::AwaitCountdown { remote, .. } => Some(remote),
        FlowAction::CountDown { remote, .. } => Some(remote),
        FlowAction::Dial { remote, .. } => Some(remote),
        FlowAction::Rest { remote, .. } => Some(remote),
        FlowAction::Finish(remote) => Some(remote),
        _ => None,
    }
}

/// Whatever follows on the address that the server told, in any number of steps, is about that very
/// address: every attempt to dial, and the connection at the end.
pub proof fn flow_keeps_the_address(
    intent: Intent,
    remote: SocketAddr,
    actions: Seq<FlowAction>,
    i: int,
)
    requires
        0 <= i < actions.len(),
        call_ensures(on_remote_addr, (&intent, Reply::Got(remote)), actions[0]),
        forall|j: int| 0 <= j < actions.len() - 1 ==> leads_to(actions[j], #[trigger] actions[j + 1]),
    ensures
        address_of(actions[i]) == Some(remote) || actions[i] is Fail,
        i == 0 ==> address_of(actions[i]) == Some(remote),
        actions[i] matches FlowAction::Dial { remote: dialled, .. } ==> dialled == remote,
        actions[i] matches FlowAction::Finish(reached) ==> reached == remote,
    decreases i,
{
    if i > 0 {
        flow_keeps_the_address(intent, remote, actions, i - 1);
        assert(leads_to(actions[i - 1], actions[(i - 1) + 1]));
    }
}

/// After the countdown the other side is dialled, for half a second from then on. An attempt takes a
/// second at most, and after one that failed there is a pause of 20 ms. From the end of the half
/// second on, there are no more attempts. One that succeeded ends the flow.
pub proof fn dialling_lasts_half_a_second(
    remote: SocketAddr,
    start: Instant,
    first: FlowAction,
    deadline: Instant,
    now: Instant,
    turn: FlowAction,
    connected: bool,
    after: FlowAction,
)
    requires
        start + 500_000_000 <= u64::MAX,
        call_ensures(on_counted_down, (remote, start), first),
        call_ensures(dial_turn, (remote, deadline, now), turn),
        call_ensures(on_dialled, (remote, deadline, connected), after),
    ensures
        first matches FlowAction::Dial { remote: x, deadline: end, timeout_ms } && x == remote && end
            - start == 500_000_000 && timeout_ms == 1000,
        now < deadline ==> turn == (FlowAction::Dial { remote, deadline, timeout_ms: 1000 }),
        now >= deadline ==> turn == FlowAction::Fail(RequestError::P2pConnectionFailed),
        connected ==> after == FlowAction::Finish(remote),
        !connected ==> after == (FlowAction::Rest { remote, deadline, millis: 20 }),
{
}

/// The countdown is as long as the server says, but no longer than 2 seconds. Without one, the flow
/// ends with an error.
pub proof fn countdown_is_two_seconds_at_most(
    remote: SocketAddr,
    nanos: u128,
    r: FlowAction,
    timed_out: FlowAction,
    closed: FlowAction,
    failed: FlowAction,
)
    requires
        call_ensures(on_countdown, (remote, Reply::Got(nanos)), r),
        call_ensures(on_countdown, (remote, Reply::TimedOut), timed_out),
        call_ensures(on_countdown, (remote, Reply::Closed), closed),
        call_ensures(on_countdown, (remote, Reply::Failed), failed),
    ensures
        r matches FlowAction::CountDown { remote: x, nanos: n } && x == remote && n <= nanos && n
            <= 2_000_000_000 && (n == nanos || n == 2_000_000_000),
        timed_out == FlowAction::Fail(RequestError::NoResponse),
        closed == FlowAction::Fail(RequestError::ChannelError),
        failed == FlowAction::Fail(RequestError::ChannelError),
{
}

/// The server has 10 seconds to accept a connection, and 3 seconds for each answer. It is told what
/// the side wants: the list of services, the session to be connected to, or the service to announce.
pub proof fn server_is_told_what_is_wanted(
    intent: Intent,
    start: FlowAction,
    connected: FlowAction,
    failed: FlowAction,
    timed_out: FlowAction,
    sent: FlowAction,
    lost: FlowAction,
)
    requires
        call_ensures(begin, (), start),
        call_ensures(on_connected, (&intent, Connect::Connected), connected),
        call_ensures(on_connected, (&intent, Connect::Failed), failed),
        call_ensures(on_connected, (&intent, Connect::TimedOut), timed_out),
        call_ensures(on_sent, (&intent, true), sent),
        call_ensures(on_sent, (&intent, false), lost),
    ensures
        start == (FlowAction::Connect { timeout_ms: 10_000 }),
        intent is Scan ==> (connected matches FlowAction::Send(ToNatServerMsg::GetClients(query))
            && query.app@ == "test_app"@),
        intent matches Intent::Connect { session } ==> (connected matches FlowAction::Send(
            ToNatServerMsg::ConnectionRequest(request),
        ) && request.session == session),
        intent matches Intent::Accept(data) ==> (connected matches FlowAction::Send(
            ToNatServerMsg::AnnounceAndCheck(announced),
        ) && announced == data),
        failed == FlowAction::Fail(RequestError::ConnectionFailed { timed_out: false }),
        timed_out == FlowAction::Fail(RequestError::ConnectionFailed { timed_out: true }),
        intent is Scan ==> sent == (FlowAction::AwaitClients { timeout_ms: 3_000 }),
        !(intent is Scan) ==> sent == (FlowAction::AwaitAddr { timeout_ms: 3_000 }),
        lost == FlowAction::Fail(RequestError::WriteError),
{
}

/// A scan gives the services that the server lists, and an error if it lists none in time.
pub proof fn scan_gives_the_list(
    list: Vec<ClientAnnouncement>,
    got: Result<Vec<ClientAnnouncement>, RequestError>,
    timed_out: Result<Vec<ClientAnnouncement>, RequestError>,
    closed: Result<Vec<ClientAnnouncement>, RequestError>,
    failed: Result<Vec<ClientAnnouncement>, RequestError>,
)
    requires
        call_ensures(on_clients, (Reply::Got(list),), got),
        call_ensures(on_clients, (Reply::TimedOut,), timed_out),
        call_ensures(on_clients, (Reply::Closed,), closed),
        call_ensures(on_clients, (Reply::Failed,), failed),
    ensures
        got matches Ok(l) && l == list,
        timed_out matches Err(RequestError::NoResponse),
        closed matches Err(RequestError::ChannelError),
        failed matches Err(RequestError::ChannelError),
{
}

/// Without the address of the other side the flow ends: whoever wants to connect learns that the
/// service is not known, and a service that nobody waits for it, or that the server is silent. A
/// channel that fails is reported as that. With the address, the countdown is awaited for 3 seconds.
pub proof fn missing_address_is_explained(
    intent: Intent,
    remote: SocketAddr,
    got: FlowAction,
    timed_out: FlowAction,
    closed: FlowAction,
    failed: FlowAction,
)
    requires
        call_ensures(on_remote_addr, (&intent, Reply::Got(remote)), got),
        call_ensures(on_remote_addr, (&intent, Reply::TimedOut), timed_out),
        call_ensures(on_remote_addr, (&intent, Reply::Closed), closed),
        call_ensures(on_remote_addr, (&intent, Reply::Failed), failed),
    ensures
        got == (FlowAction::AwaitCountdown { remote, timeout_ms: 3_000 }),
        intent is Connect ==> timed_out == FlowAction::Fail(RequestError::NoSessionId) && closed
            == FlowAction::Fail(RequestError::NoSessionId),
        intent is Accept ==> timed_out == FlowAction::Fail(RequestError::NoResponse) && closed
            == FlowAction::Fail(RequestError::NoPendingConnections),
        intent is Scan ==> timed_out == FlowAction::Fail(RequestError::NoResponse) && closed
            == FlowAction::Fail(RequestError::ChannelError),
        failed == FlowAction::Fail(RequestError::ChannelError),
{
}

/// The side that connects takes another port after each flow in which the other side was dialled,
/// and only then. A service never does.
pub proof fn dialling_uses_up_the_port(intent: Intent, end: FlowAction, r: bool)
    requires
        call_ensures(rotates_port, (&intent, &end), r),
    ensures
        !(intent is Connect) ==> !r,
        intent is Connect && end is Finish ==> r,
        intent is Connect && end == FlowAction::Fail(RequestError::P2pConnectionFailed) ==> r,
        r ==> end is Finish || end == FlowAction::Fail(RequestError::P2pConnectionFailed),
{
}

/// Each error is put into words, and those of the channel with what it reported.
pub proof fn request_errors_are_named(e: RequestError, cause: &str, r: String)
    requires
        call_ensures(RequestError::message, (&e, cause), r),
    ensures
        e is P2pConnectionFailed ==> r@ == "Failed to establish direct TCP connection with client"@,
        e is NoSessionId ==> r@ == "Did not find client with given session id"@,
        e is ConnectionFailed ==> r@ == "Connection to helper server failed"@,
        e is NoResponse ==> r@ == "No response from server"@,
        e is ChannelError ==> r@ == "Channel error: "@ + cause@,
        e is WriteError ==> r@ == "Channel error during sending: "@ + cause@,
        e is NoPendingConnections ==> r@
            == "Did not find any new incoming connection requests on helper server"@,
{
}

} // verus!
