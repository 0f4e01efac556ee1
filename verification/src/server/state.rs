//! The services that have announced themselves, and the connections that wait for them.
use vstd::prelude::*;
use vstd::std_specs::iter::IteratorSpec;
use std::collections::HashMap;
use crate::net::SocketAddr;
use crate::tcp::messages::{ClientAnnouncement, ClientAnnouncementData, ConnectionRequest};
use crate::tcp::{ANNOUNCEMENT_DURATION_MS, CONNECTION_REQUEST_TIMEOUT_MS};
use crate::time::{elapsed, time_since, Instant, NANOS_PER_MILLI};

verus! {

broadcast use vstd::std_specs::hash::group_hash_axioms;

/// How long a waiting connection can be picked up, in milliseconds: a little less than its sender
/// waits.
pub const PICK_UP_TIMEOUT_MS: u64 = CONNECTION_REQUEST_TIMEOUT_MS - 500;

/// A connection that waits for a service. `T` is the way to confirm it.
pub struct IncomingConnection<T> {
    /// Deadline after which this request is no longer available.
    pub tm: Instant,
    pub addr: SocketAddr,
    pub tx: T,
}

/// A service that has announced itself.
pub struct KnownClient<T> {
    pub last_announcement: Instant,
    pub data: ClientAnnouncementData,
    pub addr: SocketAddr,
    pub pending_connection: Option<IncomingConnection<T>>,
}

/// The services by session.
pub struct State<T> {
    clients: HashMap<u64, KnownClient<T>>,
}

impl<T> View for State<T> {
    type V = Map<u64, KnownClient<T>>;

    closed spec fn view(&self) -> Map<u64, KnownClient<T>> {
        self.clients@
    }
}

/// The connection that waits for the service `session`.
pub open spec fn pending<T>(s: Map<u64, KnownClient<T>>, session: u64) -> Option<
    IncomingConnection<T>,
> {
    if s.contains_key(session) {
        s[session].pending_connection
    } else {
        None
    }
}

/// Whether a connection waits for the service `session` and can still be picked up.
pub open spec fn can_pick_up<T>(s: Map<u64, KnownClient<T>>, session: u64, now: Instant) -> bool {
    pending(s, session) matches Some(c) && c.tm > now
}

/// The services after `announce` came in from `addr`.
pub open spec fn announced<T>(
    s: Map<u64, KnownClient<T>>,
    announce: ClientAnnouncementData,
    addr: SocketAddr,
    now: Instant,
) -> Map<u64, KnownClient<T>> {
    s.insert(
        announce.session,
        KnownClient {
            last_announcement: now,
            data: announce,
            addr,
            pending_connection: if can_pick_up(s, announce.session, now) {
                None
            } else {
                pending(s, announce.session)
            },
        },
    )
}

/// The services after a connection to the service `session` was requested.
pub open spec fn requested<T>(
    s: Map<u64, KnownClient<T>>,
    session: u64,
    addr: SocketAddr,
    tx: T,
    now: Instant,
) -> Map<u64, KnownClient<T>> {
    if s.contains_key(session) {
        let tm = (now + PICK_UP_TIMEOUT_MS * NANOS_PER_MILLI) as u64;
        s.insert(
            session,
            KnownClient { pending_connection: Some(IncomingConnection { tm, addr, tx }), ..s[session] },
        )
    } else {
        s
    }
}

/// The services after the connection that waits for the service `session` was withdrawn.
pub open spec fn withdrawn<T>(s: Map<u64, KnownClient<T>>, session: u64) -> Map<
    u64,
    KnownClient<T>,
> {
    if s.contains_key(session) {
        s.insert(session, KnownClient { pending_connection: None, ..s[session] })
    } else {
        s
    }
}

/// Whether an announcement has lasted too long.
pub open spec fn is_expired<T>(c: KnownClient<T>, now: Instant) -> bool {
    time_since(c.last_announcement, now) > ANNOUNCEMENT_DURATION_MS * NANOS_PER_MILLI
}

/// The services whose announcements have not lasted too long.
pub open spec fn updated<T>(s: Map<u64, KnownClient<T>>, now: Instant) -> Map<u64, KnownClient<T>> {
    Map::new(
        |session: u64| s.contains_key(session) && !is_expired(s[session], now),
        |session: u64| s[session],
    )
}

/// What the server says of a service.
pub open spec fn description<T>(c: KnownClient<T>, now: Instant) -> ClientAnnouncement {
    ClientAnnouncement {
        data: c.data,
        addr: c.addr,
        tm_ago: time_since(c.last_announcement, now) as u128,
    }
}

/// Whether `list` describes each service once, in the order of `sessions`.
pub open spec fn describes<T>(
    s: Map<u64, KnownClient<T>>,
    sessions: Seq<u64>,
    list: Seq<ClientAnnouncement>,
    now: Instant,
) -> bool {
    &&& sessions.no_duplicates()
    &&& forall|session: u64| sessions.contains(session) <==> #[trigger] s.contains_key(session)
    &&& list.len() == sessions.len()
    &&& forall|i: int|
        0 <= i < sessions.len() ==> #[trigger] list[i] == description(s[sessions[i]], now)
}

/// Whether `list` describes each service once.
pub open spec fn lists_services<T>(
    s: Map<u64, KnownClient<T>>,
    list: Seq<ClientAnnouncement>,
    now: Instant,
) -> bool {
    exists|sessions: Seq<u64>| #[trigger] describes(s, sessions, list, now)
}

impl<T> State<T> {
    /// Whether each service is filed under its session.
    pub closed spec fn wf(&self) -> bool {
        forall|session: u64| #[trigger]
            self.clients@.contains_key(session) ==> self.clients@[session].data.session == session
    }

    /// No services.
    pub fn new() -> (r: Self)
        ensures
            r.wf(),
            r@ == Map::<u64, KnownClient<T>>::empty(),
    {
        State { clients: HashMap::new() }
    }

    /// Takes note of an announcement. Returns the connection that waits for the service, if it can
    /// still be picked up.
    pub fn announce_check(
        &mut self,
        announce: ClientAnnouncementData,
        addr: SocketAddr,
        now: Instant,
    ) -> (r: Option<IncomingConnection<T>>)
        requires
            old(self).wf(),
        ensures
            final(self).wf(),
            final(self)@ == announced(old(self)@, announce, addr, now),
            r == if can_pick_up(old(self)@, announce.session, now) {
                pending(old(self)@, announce.session)
            } else {
                None
            },
    {
        let session: u64 = announce.session;
        let waiting = match self.clients.remove(&session) {
            Some(client) => client.pending_connection,
            None => None,
        };
        let (picked, left) = match waiting {
            Some(c) => if c.tm > now {
                (Some(c), None)
            } else {
                (None, Some(c))
            },
            None => (None, None),
        };
        self.clients.insert(
            session,
            KnownClient { last_announcement: now, data: announce, addr, pending_connection: left },
        );
        assert(self@ =~= announced(old(self)@, announce, addr, now));
        picked
    }

    /// The sessions of all services, in some order.
    fn sessions(&self) -> (r: Vec<u64>)
        ensures
            r@.no_duplicates(),
            forall|session: u64| r@.contains(session) <==> #[trigger] self@.contains_key(session),
    {
        let mut r: Vec<u64> = Vec::new();
        let keys = self.clients.keys();
        let ghost all = keys.remaining();
        for k in it: keys
            invariant
                it.seq() == all,
                r@ == all.unref().take(it.index()),
        {
            r.push(*k);
            assert(r@ =~= all.unref().take(it.index() + 1));
        }
        proof {
            assert(all.unref().take(all.len() as int) =~= all.unref());
            assert forall|i: int, j: int| 0 <= i < r@.len() && 0 <= j < r@.len() && i != j implies r@[i]
                != r@[j] by {
                assert(all[i] != all[j]);
            }
            assert forall|session: u64| r@.contains(session) <==> #[trigger] self@.contains_key(
                session,
            ) by {
                assert(r@.to_set().contains(session) <==> self@.dom().contains(session));
            }
        }
        r
    }

    /// All services, of any application.
    pub fn get_clients(&self, app: &str, now: Instant) -> (r: Vec<ClientAnnouncement>)
        requires
            self.wf(),
        ensures
            lists_services(self@, r@, now),
    {
        let sessions = self.sessions();
        let mut r: Vec<ClientAnnouncement> = Vec::new();
        let mut i: usize = 0;
        while i < sessions.len()
            invariant
                i <= sessions@.len(),
                r@.len() == i,
                forall|session: u64|
                    sessions@.contains(session) <==> #[trigger] self@.contains_key(session),
                forall|j: int|
                    0 <= j < i ==> #[trigger] r@[j] == description(self@[sessions@[j]], now),
            decreases sessions@.len() - i,
        {
            let session: u64 = sessions[i];
            assert(sessions@.contains(sessions@[i as int]));
            assert(self@.contains_key(session));
            if let Some(c) = self.clients.get(&session) {
                r.push(
                    ClientAnnouncement {
                        tm_ago: elapsed(c.last_announcement, now) as u128,
                        addr: c.addr,
                        data: c.data.clone(),
                    },
                );
            }
            i = i + 1;
        }
        assert(describes(self@, sessions@, r@, now));
        r
    }

    /// Lets a connection from `addr` wait for a service. Returns the address of the service, or
    /// `None` if it is not known.
    pub fn insert_connection_request(
        &mut self,
        request: ConnectionRequest,
        addr: SocketAddr,
        tx: T,
        now: Instant,
    ) -> (r: Option<SocketAddr>)
        requires
            old(self).wf(),
            now + PICK_UP_TIMEOUT_MS * NANOS_PER_MILLI <= u64::MAX,
        ensures
            final(self).wf(),
            final(self)@ == requested(old(self)@, request.session, addr, tx, now),
            r == if old(self)@.contains_key(request.session) {
                Some(old(self)@[request.session].addr)
            } else {
                None
            },
    {
        let session: u64 = request.session;
        match self.clients.remove(&session) {
            Some(client) => {
                let dst = client.addr;
                let tm: u64 = now + PICK_UP_TIMEOUT_MS * NANOS_PER_MILLI;
                let client = KnownClient {
                    last_announcement: client.last_announcement,
                    data: client.data,
                    addr: client.addr,
                    pending_connection: Some(IncomingConnection { tm, addr, tx }),
                };
                self.clients.insert(session, client);
                assert(self@ =~= requested(old(self)@, session, addr, tx, now));
                Some(dst)
            },
            None => {
                assert(self@ =~= old(self)@);
                None
            },
        }
    }

    /// Withdraws the connection that waits for a service, if the service is still known.
    pub fn remove_connection_request(&mut self, session: u64)
        requires
            old(self).wf(),
        ensures
            final(self).wf(),
            final(self)@ == withdrawn(old(self)@, session),
    {
        match self.clients.remove(&session) {
            Some(client) => {
                let client = KnownClient {
                    last_announcement: client.last_announcement,
                    data: client.data,
                    addr: client.addr,
                    pending_connection: None,
                };
                self.clients.insert(session, client);
                assert(self@ =~= withdrawn(old(self)@, session));
            },
            None => {
                assert(self@ =~= old(self)@);
            },
        }
    }

    /// Removes announcements that are older than 3 seconds.
    pub fn poll_update(&mut self, now: Instant)
        requires
            old(self).wf(),
        ensures
            final(self).wf(),
            final(self)@ == updated(old(self)@, now),
    {
        let sessions = self.sessions();
        let ghost before = self@;
        let mut i: usize = 0;
        while i < sessions.len()
            invariant
                self.wf(),
                before == old(self)@,
                i <= sessions@.len(),
                sessions@.no_duplicates(),
                forall|session: u64|
                    sessions@.contains(session) <==> #[trigger] before.contains_key(session),
                forall|session: u64| #[trigger]
                    self@.contains_key(session) ==> before.contains_key(session) && self@[session]
                        == before[session],
                forall|j: int|
                    i <= j < sessions@.len() ==> self@.contains_key(#[trigger] sessions@[j]),
                forall|j: int|
                    0 <= j < i ==> (self@.contains_key(#[trigger] sessions@[j]) <==> !is_expired(
                        before[sessions@[j]],
                        now,
                    )),
            decreases sessions@.len() - i,
        {
            let session: u64 = sessions[i];
            let ghost current = self@;
            let expired = match self.clients.get(&session) {
                Some(c) => elapsed(c.last_announcement, now) > ANNOUNCEMENT_DURATION_MS
                    * NANOS_PER_MILLI,
                None => false,
            };
            assert(self@.contains_key(sessions@[i as int]));
            if expired {
                let _ = self.clients.remove(&session);
                assert(self@ =~= current.remove(session));
            }
            i = i + 1;
        }
        proof {
            let expected = updated(before, now);
            assert forall|session: u64| self@.contains_key(session) <==> expected.contains_key(
                session,
            ) by {
                if before.contains_key(session) {
                    assert(sessions@.contains(session));
                    let j = choose|j: int| 0 <= j < sessions@.len() && sessions@[j] == session;
                    assert(self@.contains_key(sessions@[j]) <==> !is_expired(before[session], now));
                }
            }
            assert(self@ =~= expected);
        }
    }
}

/// A connection that waits for a service is picked up by the service's next announcement, and only
/// once, if that comes in time.
pub proof fn connection_is_picked_up_once<T>(
    s: Map<u64, KnownClient<T>>,
    session: u64,
    addr: SocketAddr,
    tx: T,
    now: Instant,
    announce: ClientAnnouncementData,
    service: SocketAddr,
    later: Instant,
    again: Instant,
)
    requires
        s.contains_key(session),
        now + PICK_UP_TIMEOUT_MS * NANOS_PER_MILLI <= u64::MAX,
        announce.session == session,
        later < now + PICK_UP_TIMEOUT_MS * NANOS_PER_MILLI,
    ensures
        ({
            let waiting = requested(s, session, addr, tx, now);
            &&& can_pick_up(waiting, session, later)
            &&& pending(waiting, session)->0.addr == addr
            &&& pending(waiting, session)->0.tx == tx
            &&& !can_pick_up(announced(waiting, announce, service, later), session, again)
        }),
{
}

/// A connection that was not picked up in time is never picked up, whatever is announced later.
pub proof fn expired_connection_stays<T>(
    s: Map<u64, KnownClient<T>>,
    announce: ClientAnnouncementData,
    addr: SocketAddr,
    now: Instant,
    later: Instant,
)
    requires
        !can_pick_up(s, announce.session, now),
        now <= later,
    ensures
        pending(announced(s, announce, addr, now), announce.session) == pending(
            s,
            announce.session,
        ),
        !can_pick_up(announced(s, announce, addr, now), announce.session, later),
{
}

/// A withdrawn connection cannot be picked up, and nothing else changes.
pub proof fn withdrawn_connection_is_gone<T>(
    s: Map<u64, KnownClient<T>>,
    session: u64,
    other: u64,
    now: Instant,
)
    ensures
        !can_pick_up(withdrawn(s, session), session, now),
        withdrawn(s, session).dom() == s.dom(),
        other != session && s.contains_key(other) ==> withdrawn(s, session)[other] == s[other],
{
    assert(withdrawn(s, session).dom() =~= s.dom());
}

/// A service is known for 3 seconds after its announcement, and no longer.
pub proof fn announcement_lasts_three_seconds<T>(
    s: Map<u64, KnownClient<T>>,
    announce: ClientAnnouncementData,
    addr: SocketAddr,
    now: Instant,
    later: Instant,
)
    requires
        now <= later,
    ensures
        updated(announced(s, announce, addr, now), later).contains_key(announce.session) <==> later
            - now <= 3_000_000_000,
{
}

/// A connection to a service that is not known changes nothing.
pub proof fn unknown_service_is_refused<T>(
    s: Map<u64, KnownClient<T>>,
    session: u64,
    addr: SocketAddr,
    tx: T,
    now: Instant,
)
    requires
        !s.contains_key(session),
    ensures
        requested(s, session, addr, tx, now) == s,
        withdrawn(s, session) == s,
{
}

/// An announcement is noted with its time and address, and the service is known from then on. A
/// connection that waits for it is handed out exactly if its deadline has not come, and no longer
/// waits then. Nothing else changes.
pub proof fn announcement_takes_the_waiting_connection<T>(
    s: &mut State<T>,
    announce: ClientAnnouncementData,
    addr: SocketAddr,
    now: Instant,
    r: Option<IncomingConnection<T>>,
    other: u64,
)
    requires
        call_ensures(State::<T>::announce_check, (s, announce, addr, now), r),
    ensures
        ({
            let session = announce.session;
            let waiting = if old(s)@.contains_key(session) {
                old(s)@[session].pending_connection
            } else {
                None
            };
            &&& final(s)@.contains_key(session)
            &&& final(s)@[session].last_announcement == now
            &&& final(s)@[session].data == announce
            &&& final(s)@[session].addr == addr
            &&& waiting is None ==> r is None && final(s)@[session].pending_connection is None
            &&& waiting matches Some(c) ==> if now < c.tm {
                r == waiting && final(s)@[session].pending_connection is None
            } else {
                r is None && final(s)@[session].pending_connection == waiting
            }
            &&& other != session ==> {
                &&& final(s)@.contains_key(other) <==> old(s)@.contains_key(other)
                &&& final(s)@[other] == old(s)@[other]
            }
        }),
{
}

/// A connection to a known service waits for it from now on, for four and a half seconds and in the
/// place of an earlier one, and its sender learns the address of the service. One to an unknown
/// service changes nothing. No other service changes.
pub proof fn connection_waits_for_the_service<T>(
    s: &mut State<T>,
    session: u64,
    addr: SocketAddr,
    tx: T,
    now: Instant,
    r: Option<SocketAddr>,
    other: u64,
)
    requires
        call_ensures(
            State::<T>::insert_connection_request,
            (s, ConnectionRequest { session }, addr, tx, now),
            r,
        ),
        now + 4_500_000_000 <= u64::MAX,
    ensures
        !old(s)@.contains_key(session) ==> r is None && final(s)@ == old(s)@,
        old(s)@.contains_key(session) ==> {
            &&& r == Some(old(s)@[session].addr)
            &&& final(s)@.contains_key(session)
            &&& final(s)@[session].pending_connection matches Some(c) && c.tm - now
                == 4_500_000_000 && c.addr == addr && c.tx == tx
            &&& final(s)@[session].last_announcement == old(s)@[session].last_announcement
            &&& final(s)@[session].data == old(s)@[session].data
            &&& final(s)@[session].addr == old(s)@[session].addr
        },
        other != session ==> {
            &&& final(s)@.contains_key(other) <==> old(s)@.contains_key(other)
            &&& final(s)@[other] == old(s)@[other]
        },
{
}

/// A withdrawn connection no longer waits. The service stays known as it was, and so do all others.
pub proof fn withdrawal_leaves_the_service<T>(s: &mut State<T>, session: u64, other: u64)
    requires
        call_ensures(State::<T>::remove_connection_request, (s, session), ()),
    ensures
        final(s)@.contains_key(other) <==> old(s)@.contains_key(other),
        other != session ==> final(s)@[other] == old(s)@[other],
        old(s)@.contains_key(session) ==> {
            &&& final(s)@[session].pending_connection is None
            &&& final(s)@[session].last_announcement == old(s)@[session].last_announcement
            &&& final(s)@[session].data == old(s)@[session].data
            &&& final(s)@[session].addr == old(s)@[session].addr
        },
{
}

/// An update forgets exactly the services whose last announcement is more than 3 seconds old, and
/// changes no other.
pub proof fn update_forgets_old_announcements<T>(s: &mut State<T>, now: Instant, session: u64)
    requires
        call_ensures(State::<T>::poll_update, (s, now), ()),
    ensures
        final(s)@.contains_key(session) <==> old(s)@.contains_key(session) && now
            - old(s)@[session].last_announcement <= 3_000_000_000,
        final(s)@.contains_key(session) ==> final(s)@[session] == old(s)@[session],
{
}

/// The list of services holds every known one, whatever its application, once and nothing else, with
/// what it announced, its address and how long ago that was.
pub proof fn every_service_is_listed<T>(
    s: State<T>,
    app: &str,
    now: Instant,
    list: Vec<ClientAnnouncement>,
    session: u64,
    i: int,
)
    requires
        call_ensures(State::<T>::get_clients, (&s, app, now), list),
        s@.dom().finite(),
    ensures
        list@.len() == s@.dom().len(),
        s@.contains_key(session) ==> exists|x: int|
            0 <= x < list@.len() && (#[trigger] list@[x]).data == s@[session].data && list@[x].addr
                == s@[session].addr,
        0 <= i < list@.len() ==> exists|k: u64| #[trigger]
            s@.contains_key(k) && list@[i].data == s@[k].data && list@[i].addr == s@[k].addr && (
            s@[k].last_announcement <= now ==> s@[k].last_announcement + list@[i].tm_ago == now) && (
            s@[k].last_announcement > now ==> list@[i].tm_ago == 0),
{
    let sessions = choose|sessions: Seq<u64>| #[trigger] describes(s@, sessions, list@, now);
    sessions.unique_seq_to_set();
    assert(sessions.to_set() =~= s@.dom()) by {
        assert forall|k: u64| sessions.to_set().contains(k) <==> s@.dom().contains(k) by {
            assert(sessions.contains(k) <==> s@.contains_key(k));
        }
    }
    if s@.contains_key(session) {
        assert(sessions.contains(session));
        let x = choose|x: int| 0 <= x < sessions.len() && sessions[x] == session;
        assert(list@[x] == description(s@[sessions[x]], now));
    }
    if 0 <= i < list@.len() {
        assert(list@[i] == description(s@[sessions[i]], now));
        assert(sessions.contains(sessions[i]));
        assert(s@.contains_key(sessions[i]));
    }
}

/// A server starts without services.
pub proof fn no_service_is_known_at_first<T>(s: State<T>, session: u64)
    requires
        call_ensures(State::<T>::new, (), s),
    ensures
        !s@.contains_key(session),
{
}

} // verus!
