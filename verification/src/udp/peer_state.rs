//! What a client knows of one trusted peer, and when it looks for that peer.
use vstd::prelude::*;
use crate::time::{elapsed, time_since, Instant};

verus! {

/// The time without requests after the first failed hole punch, in nanoseconds: 100 ms.
pub const INITIAL_RETRY_TIMEOUT: u64 = 100_000_000;

/// The longest time without requests after a failed hole punch, in nanoseconds: 5 s.
pub const MAX_RETRY_TIMEOUT: u64 = 5_000_000_000;

/// By how much one more failure lengthens the retry timeout at most, in nanoseconds: 1 s.
pub const MAX_RETRY_STEP: u64 = 1_000_000_000;

/// How long a peer behind the same IP address is looked for in the local network, in nanoseconds: 6 s.
pub const LOCAL_DISCOVERY_DURATION: u64 = 6_000_000_000;

/// Whether a peer is connected or looked for.
#[derive(Debug, Clone, Copy, PartialEq, Eq, Structural)]
pub enum PeerStateKind {
    ConnectionActive,
    Enabled,
    DisabledUntil(Instant),
}

/// The state of one trusted peer.
#[derive(Debug, Clone, Copy, PartialEq, Eq, Structural)]
pub struct PeerState {
    /// Logical connection state for this peer.
    pub state_kind: PeerStateKind,
    /// How long requests will pause after the next failed hole punch, in nanoseconds.
    pub failure_retry_timeout: u64,
    /// The last `remote_session_id` that was accepted from the server for this peer. Used to
    /// ignore duplicate notifications.
    pub last_accepted_session_id: Option<u32>,
    /// When the server last said that this peer is behind our own IP address.
    pub last_error_same_ip: Option<Instant>,
}

/// The retry timeout that follows `timeout`: doubled, but lengthened by no more than 1 s, and never
/// above 5 s.
pub open spec fn next_retry_timeout(timeout: int) -> int {
    let step = if timeout < MAX_RETRY_STEP {
        timeout
    } else {
        MAX_RETRY_STEP as int
    };
    if timeout + step < MAX_RETRY_TIMEOUT {
        timeout + step
    } else {
        MAX_RETRY_TIMEOUT as int
    }
}

/// The retry timeout after `n` failures in a row.
pub open spec fn retry_timeout(n: nat) -> int
    decreases n,
{
    if n == 0 {
        INITIAL_RETRY_TIMEOUT as int
    } else {
        next_retry_timeout(retry_timeout((n - 1) as nat))
    }
}

impl PeerState {
    /// Whether the retry timeout lies between its first and its longest value.
    pub open spec fn wf(self) -> bool {
        INITIAL_RETRY_TIMEOUT <= self.failure_retry_timeout <= MAX_RETRY_TIMEOUT
    }

    /// The state of a peer of which nothing is known yet.
    pub open spec fn fresh() -> PeerState {
        PeerState {
            state_kind: PeerStateKind::Enabled,
            failure_retry_timeout: INITIAL_RETRY_TIMEOUT,
            last_accepted_session_id: None,
            last_error_same_ip: None,
        }
    }

    /// Whether the peer is looked for in the local network: for 6 seconds after the server said
    /// that it is behind our own IP address.
    pub open spec fn local_discovery(self, now: Instant) -> bool {
        self.last_error_same_ip matches Some(t) && time_since(t, now) < LOCAL_DISCOVERY_DURATION
    }

    /// Whether the server is asked for the peer.
    pub open spec fn server_discovery(self, now: Instant) -> bool {
        !self.local_discovery(now) && match self.state_kind {
            PeerStateKind::ConnectionActive => false,
            PeerStateKind::DisabledUntil(i) => i < now,
            PeerStateKind::Enabled => true,
        }
    }

    /// The state after the server announced the session `remote_session_id` of the peer.
    pub open spec fn after_request(self, remote_session_id: u32) -> PeerState {
        if self.last_accepted_session_id == Some(remote_session_id) {
            self
        } else {
            PeerState {
                last_error_same_ip: None,
                last_accepted_session_id: Some(remote_session_id),
                ..self
            }
        }
    }

    /// The state after a hole punch failed.
    pub open spec fn after_hole_punch_err(self, now: Instant) -> PeerState {
        PeerState {
            state_kind: PeerStateKind::DisabledUntil((now + self.failure_retry_timeout) as u64),
            failure_retry_timeout: next_retry_timeout(self.failure_retry_timeout as int) as u64,
            ..self
        }
    }

    /// The state after the server said that the peer is behind our own IP address.
    pub open spec fn after_error_same_ip(self, now: Instant) -> PeerState {
        if self.state_kind == PeerStateKind::ConnectionActive {
            self
        } else {
            PeerState { last_error_same_ip: Some(now), ..self }
        }
    }

    /// The state after a connection was established.
    pub open spec fn after_established(self) -> PeerState {
        PeerState {
            state_kind: PeerStateKind::ConnectionActive,
            failure_retry_timeout: INITIAL_RETRY_TIMEOUT,
            ..self
        }
    }

    /// The state after the connection was closed.
    pub open spec fn after_resume(self) -> PeerState {
        PeerState { state_kind: PeerStateKind::Enabled, ..self }
    }

    /// Whether the server is to be asked for this peer.
    pub fn is_server_discovery_enabled(&self, now: Instant) -> (r: bool)
        ensures
            r == self.server_discovery(now),
    {
        !self.is_local_discovery_enabled(now) && match self.state_kind {
            PeerStateKind::ConnectionActive => false,
            PeerStateKind::DisabledUntil(i) => i < now,
            PeerStateKind::Enabled => true,
        }
    }

    /// Whether this peer is to be looked for in the local network.
    pub fn is_local_discovery_enabled(&self, now: Instant) -> (r: bool)
        ensures
            r == self.local_discovery(now),
    {
        match self.last_error_same_ip {
            Some(t) => elapsed(t, now) < LOCAL_DISCOVERY_DURATION,
            None => false,
        }
    }

    /// Takes note of a new connection request from the server. Returns false if the session id is
    /// invalid: it is the one that was accepted last for this peer.
    ///
    /// Can only be called after creation, `on_hole_punch_err`, `resume_discovery` or this. Next
    /// call: `on_hole_punch_err` or `on_connection_established`.
    pub fn on_new_connection_request(&mut self, remote_session_id: u32) -> (r: bool)
        ensures
            *final(self) == old(self).after_request(remote_session_id),
            r == (old(self).last_accepted_session_id != Some(remote_session_id)),
    {
        if let Some(last) = self.last_accepted_session_id {
            if last == remote_session_id {
                return false;
            }
        }
        self.last_error_same_ip = None;
        self.last_accepted_session_id = Some(remote_session_id);
        true
    }

    /// Pauses requests for the retry timeout, and lengthens it.
    ///
    /// Can only be called after `on_new_connection_request`, or after a greeting in the local network.
    pub fn on_hole_punch_err(&mut self, now: Instant)
        requires
            old(self).wf(),
            now + old(self).failure_retry_timeout <= u64::MAX,
        ensures
            *final(self) == old(self).after_hole_punch_err(now),
            final(self).wf(),
    {
        let timeout: u64 = self.failure_retry_timeout;
        self.state_kind = PeerStateKind::DisabledUntil(now + timeout);
        let step: u64 = if timeout < MAX_RETRY_STEP {
            timeout
        } else {
            MAX_RETRY_STEP
        };
        self.failure_retry_timeout = if timeout + step < MAX_RETRY_TIMEOUT {
            timeout + step
        } else {
            MAX_RETRY_TIMEOUT
        };
    }

    /// Starts to look for this peer in the local network, unless it is connected.
    pub fn on_error_same_ip(&mut self, now: Instant)
        ensures
            *final(self) == old(self).after_error_same_ip(now),
    {
        match self.state_kind {
            PeerStateKind::ConnectionActive => {},
            _ => {
                self.last_error_same_ip = Some(now);
            },
        }
    }

    /// Stops requests while the connection lasts, and resets the retry timeout.
    ///
    /// Can only be called after `on_new_connection_request`, or after a greeting in the local network.
    pub fn on_connection_established(&mut self)
        ensures
            *final(self) == old(self).after_established(),
            final(self).wf(),
    {
        self.state_kind = PeerStateKind::ConnectionActive;
        self.failure_retry_timeout = INITIAL_RETRY_TIMEOUT;
    }

    /// Looks for this peer again.
    ///
    /// Can only be called after `on_connection_established`.
    pub fn resume_discovery(&mut self)
        ensures
            *final(self) == old(self).after_resume(),
    {
        self.state_kind = PeerStateKind::Enabled;
    }
}

impl Default for PeerState {
    fn default() -> (r: Self)
        ensures
            r == PeerState::fresh(),
            r.wf(),
    {
        PeerState {
            state_kind: PeerStateKind::Enabled,
            failure_retry_timeout: INITIAL_RETRY_TIMEOUT,
            last_accepted_session_id: None,
            last_error_same_ip: None,
        }
    }
}

/// No operation brings the retry timeout out of its range, and a failure never shortens it.
pub proof fn peer_state_stays_wf(s: PeerState, now: Instant, session_id: u32)
    requires
        s.wf(),
    ensures
        PeerState::fresh().wf(),
        s.after_request(session_id).wf(),
        s.after_hole_punch_err(now).wf(),
        s.after_error_same_ip(now).wf(),
        s.after_established().wf(),
        s.after_resume().wf(),
        s.failure_retry_timeout <= s.after_hole_punch_err(now).failure_retry_timeout,
{
}

/// A peer is never looked for through the server and in the local network at once.
pub proof fn discovery_is_exclusive(s: PeerState, now: Instant)
    ensures
        !(s.server_discovery(now) && s.local_discovery(now)),
{
}

/// The server is never asked for a connected peer, whatever it announces or reports meanwhile, and
/// is asked again once the connection is closed, unless the peer is looked for in the local
/// network.
pub proof fn connection_stops_requests(s: PeerState, now: Instant, later: Instant, session_id: u32)
    ensures
        !s.after_established().server_discovery(later),
        !s.after_established().after_request(session_id).server_discovery(later),
        s.after_established().after_error_same_ip(now) == s.after_established(),
        s.after_established().after_resume().server_discovery(later) == !s.local_discovery(later),
{
}

/// A session that was accepted is refused when it is announced again, and the refusal changes
/// nothing.
pub proof fn session_is_accepted_once(s: PeerState, session_id: u32)
    ensures
        s.after_request(session_id).last_accepted_session_id == Some(session_id),
        s.after_request(session_id).after_request(session_id) == s.after_request(session_id),
{
}

/// An accepted session ends the search in the local network.
pub proof fn request_ends_local_discovery(s: PeerState, session_id: u32, now: Instant)
    requires
        s.last_accepted_session_id != Some(session_id),
    ensures
        !s.after_request(session_id).local_discovery(now),
{
}

/// After a failed hole punch the server is not asked for the peer until the retry timeout is over,
/// and then it is, unless the peer is looked for in the local network.
pub proof fn hole_punch_err_pauses_requests(s: PeerState, now: Instant, later: Instant)
    requires
        s.wf(),
        now + s.failure_retry_timeout <= u64::MAX,
    ensures
        later <= now + s.failure_retry_timeout ==> !s.after_hole_punch_err(now).server_discovery(
            later,
        ),
        later > now + s.failure_retry_timeout ==> s.after_hole_punch_err(now).server_discovery(
            later,
        ) == !s.local_discovery(later),
{
}

/// When the server reports that a peer is behind our own IP address, and the peer is not connected,
/// it is looked for in the local network for exactly 6 seconds.
pub proof fn same_ip_starts_local_discovery(s: PeerState, now: Instant, later: Instant)
    requires
        s.state_kind != PeerStateKind::ConnectionActive,
        now <= later,
    ensures
        s.after_error_same_ip(now).local_discovery(later) == (later - now
            < LOCAL_DISCOVERY_DURATION),
{
}

/// The state after hole punches failed at each of `times`, one after the other.
pub open spec fn after_failures(s: PeerState, times: Seq<Instant>) -> PeerState
    decreases times.len(),
{
    if times.len() == 0 {
        s
    } else {
        after_failures(s, times.drop_last()).after_hole_punch_err(times.last())
    }
}

/// The retry timeout of a new peer depends only on how many hole punches failed in a row.
pub proof fn retry_timeout_counts_failures(times: Seq<Instant>)
    ensures
        after_failures(PeerState::fresh(), times).failure_retry_timeout == retry_timeout(
            times.len(),
        ),
    decreases times.len(),
{
    if times.len() > 0 {
        retry_timeout_counts_failures(times.drop_last());
        retry_timeout_bounds((times.len() - 1) as nat);
    }
}

/// Failures in a row lengthen the retry timeout from 100 ms up to 5 s, where it stays from the
/// eighth failure on.
pub proof fn retry_timeout_bounds(n: nat)
    ensures
        INITIAL_RETRY_TIMEOUT <= retry_timeout(n) <= MAX_RETRY_TIMEOUT,
        n > 0 ==> retry_timeout((n - 1) as nat) <= retry_timeout(n),
        n >= 8 <==> retry_timeout(n) == MAX_RETRY_TIMEOUT,
    decreases n,
{
    reveal_with_fuel(retry_timeout, 9);
    if n > 8 {
        retry_timeout_bounds((n - 1) as nat);
    }
}

/// A peer is looked for in the local network during the 6 seconds after the server said that it is
/// behind our own IP address. Otherwise the server is asked for it, unless it is connected or the
/// time until which it is disabled has not passed.
pub proof fn discovery_follows_the_state(s: PeerState, now: Instant, server: bool, local: bool)
    requires
        call_ensures(PeerState::is_server_discovery_enabled, (&s, now), server),
        call_ensures(PeerState::is_local_discovery_enabled, (&s, now), local),
    ensures
        local <==> (s.last_error_same_ip matches Some(t) && now - t < 6_000_000_000),
        server <==> !local && (s.state_kind is Enabled || (s.state_kind matches PeerStateKind::DisabledUntil(
            end,
        ) && end < now)),
{
}

/// A session is accepted exactly if it is not the one that was accepted last. It is remembered, and
/// ends the search in the local network. A refused one changes nothing, and neither ends a pause or
/// a connection.
pub proof fn new_sessions_are_accepted(s: &mut PeerState, session_id: u32, accepted: bool)
    requires
        call_ensures(PeerState::on_new_connection_request, (s, session_id), accepted),
    ensures
        accepted <==> old(s).last_accepted_session_id != Some(session_id),
        accepted ==> final(s).last_accepted_session_id == Some(session_id),
        accepted ==> final(s).last_error_same_ip is None,
        !accepted ==> *final(s) == *old(s),
        final(s).state_kind == old(s).state_kind,
        final(s).failure_retry_timeout == old(s).failure_retry_timeout,
{
}

/// A failed hole punch disables the peer for its retry timeout. The timeout is doubled, but grows by
/// no more than a second and to no more than 5 seconds.
pub proof fn failures_lengthen_the_pause(s: &mut PeerState, now: Instant)
    requires
        call_ensures(PeerState::on_hole_punch_err, (s, now), ()),
        old(s).wf(),
        now + old(s).failure_retry_timeout <= u64::MAX,
    ensures
        final(s).state_kind matches PeerStateKind::DisabledUntil(end) && end - now == old(s).failure_retry_timeout,
        final(s).failure_retry_timeout <= 5_000_000_000,
        final(s).failure_retry_timeout < 5_000_000_000 ==> {
            let growth = final(s).failure_retry_timeout - old(s).failure_retry_timeout;
            growth <= 1_000_000_000 && (growth == 1_000_000_000 || growth == old(s).failure_retry_timeout)
        },
        final(s).failure_retry_timeout == 5_000_000_000 ==> old(s).failure_retry_timeout
            >= 4_000_000_000,
        old(s).failure_retry_timeout <= 1_000_000_000 ==> final(s).failure_retry_timeout == 2 * old(s).failure_retry_timeout,
        final(s).last_accepted_session_id == old(s).last_accepted_session_id,
        final(s).last_error_same_ip == old(s).last_error_same_ip,
{
}

/// The report that a peer is behind our own IP address starts the search for it in the local network
/// anew, unless it is connected, and changes nothing else.
pub proof fn same_ip_report_is_remembered(s: &mut PeerState, now: Instant)
    requires
        call_ensures(PeerState::on_error_same_ip, (s, now), ()),
    ensures
        old(s).state_kind is ConnectionActive ==> *final(s) == *old(s),
        !(old(s).state_kind is ConnectionActive) ==> final(s).last_error_same_ip == Some(now),
        final(s).state_kind == old(s).state_kind,
        final(s).failure_retry_timeout == old(s).failure_retry_timeout,
        final(s).last_accepted_session_id == old(s).last_accepted_session_id,
{
}

/// A connection makes the peer connected and forgets its failures. Its end makes the server asked
/// for it again. Neither touches the sessions and reports of the server.
pub proof fn connections_begin_and_end(s: &mut PeerState, e: &mut PeerState, fresh: PeerState)
    requires
        call_ensures(PeerState::on_connection_established, (s,), ()),
        call_ensures(PeerState::resume_discovery, (e,), ()),
        call_ensures(PeerState::default, (), fresh),
    ensures
        final(s).state_kind is ConnectionActive,
        final(s).failure_retry_timeout == 100_000_000,
        final(s).last_accepted_session_id == old(s).last_accepted_session_id,
        final(s).last_error_same_ip == old(s).last_error_same_ip,
        final(e).state_kind is Enabled,
        final(e).failure_retry_timeout == old(e).failure_retry_timeout,
        final(e).last_accepted_session_id == old(e).last_accepted_session_id,
        final(e).last_error_same_ip == old(e).last_error_same_ip,
        fresh.state_kind is Enabled,
        fresh.failure_retry_timeout == 100_000_000,
        fresh.last_accepted_session_id is None,
        fresh.last_error_same_ip is None,
{
}

} // verus!
