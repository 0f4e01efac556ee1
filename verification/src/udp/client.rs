//! The client's side: which peers it trusts, and what it does to be connected with them.
pub mod guarantees;
pub mod local_discovery;
pub mod poll;

use vstd::prelude::*;
use crate::keys::{contains_key, differs_below, key_ext, key_lt, key_lt_asymmetric, key_views};
use crate::keys::{KeyMap, PublicKey};
use crate::net::SocketAddrV4;
use crate::outside::{random_u32, shuffle_keys};
use crate::time::Instant;
use crate::udp::messages::{SecretKey, MAX_REQUEST_PEERS};
use crate::udp::peer_state::{PeerState, PeerStateKind};

verus! {

/// The most peers that are taken from those that are to be asked for.
pub const MAX_AVAILABLE_REMOTES: usize = 50;

/// For how many seconds after the first poll local discovery is disabled.
pub const LOCAL_DISCOVERY_ENABLE_DELAY_SECS: u64 = 5;

/// For how many seconds the server counts as reachable after it answered a ping.
pub const PONG_VALID_SECS: u64 = 10;

/// A ping is sent when the last one is more than so many whole seconds old.
pub const PING_INTERVAL_SECS: u64 = 3;

/// A connection request is sent when the last one is more than so many whole seconds old.
pub const REQUEST_PLACEMENT_INTERVAL: u64 = 1;

/// What a client knows.
pub struct ClientView {
    pub p2p_server_addr: SocketAddrV4,
    pub trusted_remotes: Map<Seq<u8>, PeerState>,
    pub last_request_tm: Option<Instant>,
    pub key: Seq<u8>,
    pub session_id: u32,
    pub local_discovery: bool,
    pub cur_interface: Option<Seq<char>>,
    pub last_p2p_server_ping_send_tm: Option<Instant>,
    pub last_p2p_server_ping: Option<(Instant, u64)>,
    pub last_p2p_server_pong: Option<Instant>,
    pub poll_start_tm: Option<Instant>,
}

/// A client that establishes UDP connections to trusted peers.
pub struct UdpConnectionEstablisher {
    p2p_server_addr: SocketAddrV4,
    trusted_remotes: KeyMap<PeerState>,
    last_request_tm: Option<Instant>,
    key: SecretKey,
    session_id: u32,
    /// Whether peers are looked for in the local network too.
    local_discovery: bool,
    cur_interface: Option<String>,
    last_p2p_server_ping_send_tm: Option<Instant>,
    last_p2p_server_ping: Option<(Instant, u64)>,
    last_p2p_server_pong: Option<Instant>,
    /// The first 5 seconds of polling are kept with local discovery disabled.
    poll_start_tm: Option<Instant>,
}

/// The characters of an optional name.
pub open spec fn name_view(name: Option<String>) -> Option<Seq<char>> {
    match name {
        Some(s) => Some(s@),
        None => None,
    }
}

impl View for UdpConnectionEstablisher {
    type V = ClientView;

    closed spec fn view(&self) -> ClientView {
        ClientView {
            p2p_server_addr: self.p2p_server_addr,
            trusted_remotes: self.trusted_remotes@,
            last_request_tm: self.last_request_tm,
            key: self.key@,
            session_id: self.session_id,
            local_discovery: self.local_discovery,
            cur_interface: name_view(self.cur_interface),
            last_p2p_server_ping_send_tm: self.last_p2p_server_ping_send_tm,
            last_p2p_server_ping: self.last_p2p_server_ping,
            last_p2p_server_pong: self.last_p2p_server_pong,
            poll_start_tm: self.poll_start_tm,
        }
    }
}

/// The state of `k` in `remotes`, which is that of a new peer if `k` is not in it.
pub open spec fn state_or_fresh(remotes: Map<Seq<u8>, PeerState>, k: Seq<u8>) -> PeerState {
    if remotes.contains_key(k) {
        remotes[k]
    } else {
        PeerState::fresh()
    }
}

impl ClientView {
    /// The client after `k` was added to its trusted peers.
    pub open spec fn with_remote(self, k: Seq<u8>) -> ClientView {
        if self.trusted_remotes.contains_key(k) {
            self
        } else {
            ClientView {
                trusted_remotes: self.trusted_remotes.insert(k, PeerState::fresh()),
                last_request_tm: None,
                ..self
            }
        }
    }

    /// The client after `k` was removed from its trusted peers.
    pub open spec fn without_remote(self, k: Seq<u8>) -> ClientView {
        if self.trusted_remotes.contains_key(k) {
            ClientView {
                trusted_remotes: self.trusted_remotes.remove(k),
                last_request_tm: None,
                ..self
            }
        } else {
            self
        }
    }

    /// Whether `keys` are exactly the trusted peers.
    pub open spec fn trusts_exactly(self, keys: Seq<Seq<u8>>) -> bool {
        forall|k: Seq<u8>| self.trusted_remotes.contains_key(k) <==> keys.contains(k)
    }

    /// The client after its trusted peers were set to `keys`.
    pub open spec fn with_remotes(self, keys: Seq<Seq<u8>>) -> ClientView {
        ClientView {
            trusted_remotes: Map::new(
                |k: Seq<u8>| keys.contains(k),
                |k: Seq<u8>| state_or_fresh(self.trusted_remotes, k),
            ),
            last_request_tm: if self.trusts_exactly(keys) {
                self.last_request_tm
            } else {
                None
            },
            ..self
        }
    }

    /// The client after the connection to `k` failed or was closed.
    pub open spec fn with_closed(self, k: Seq<u8>) -> ClientView {
        ClientView {
            trusted_remotes: self.trusted_remotes.insert(
                k,
                state_or_fresh(self.trusted_remotes, k).after_resume(),
            ),
            last_request_tm: None,
            ..self
        }
    }

    /// Whether the server is to be asked for `k`.
    pub open spec fn is_available(self, k: Seq<u8>, now: Instant) -> bool {
        self.trusted_remotes.contains_key(k) && self.trusted_remotes[k].server_discovery(now)
    }
}

impl UdpConnectionEstablisher {
    /// Whether the states of all peers are well formed.
    pub closed spec fn wf(&self) -> bool {
        &&& self.trusted_remotes.wf()
        &&& forall|k: Seq<u8>|
            #![trigger self.trusted_remotes@[k]]
            self.trusted_remotes@.contains_key(k) ==> self.trusted_remotes@[k].wf()
    }

    /// A client without trusted peers that starts with the session `session_id`, while
    /// `interface` is the network interface in use. With `local_discovery` it looks for peers in
    /// the local network too.
    pub fn with_session(
        key: SecretKey,
        p2p_server_addr: SocketAddrV4,
        local_discovery: bool,
        interface: Option<String>,
        session_id: u32,
    ) -> (r: UdpConnectionEstablisher)
        ensures
            r.wf(),
            r@ == (ClientView {
                p2p_server_addr,
                trusted_remotes: Map::empty(),
                last_request_tm: None,
                key: key@,
                session_id,
                local_discovery,
                cur_interface: name_view(interface),
                last_p2p_server_ping_send_tm: None,
                last_p2p_server_ping: None,
                last_p2p_server_pong: None,
                poll_start_tm: None,
            }),
    {
        UdpConnectionEstablisher {
            p2p_server_addr,
            trusted_remotes: KeyMap::new(),
            last_request_tm: None,
            key,
            session_id,
            local_discovery,
            cur_interface: interface,
            last_p2p_server_ping_send_tm: None,
            last_p2p_server_ping: None,
            last_p2p_server_pong: None,
            poll_start_tm: None,
        }
    }

    /// A client without trusted peers that starts with a random session. The key is not validated
    /// by other peers: it is only used to sign messages to the server and to be known by.
    pub fn new(
        key: SecretKey,
        p2p_server_addr: SocketAddrV4,
        local_discovery: bool,
        interface: Option<String>,
    ) -> (r: UdpConnectionEstablisher)
        ensures
            r.wf(),
            r@ == (ClientView {
                p2p_server_addr,
                trusted_remotes: Map::empty(),
                last_request_tm: None,
                key: key@,
                session_id: r@.session_id,
                local_discovery,
                cur_interface: name_view(interface),
                last_p2p_server_ping_send_tm: None,
                last_p2p_server_ping: None,
                last_p2p_server_pong: None,
                poll_start_tm: None,
            }),
    {
        UdpConnectionEstablisher::with_session(
            key,
            p2p_server_addr,
            local_discovery,
            interface,
            random_u32(),
        )
    }

    /// Trusts `key`. A new peer is asked for as soon as possible.
    pub fn add_trusted_remote(&mut self, key: PublicKey)
        requires
            old(self).wf(),
        ensures
            final(self).wf(),
            final(self)@ == old(self)@.with_remote(key@),
    {
        if !self.trusted_remotes.contains(&key) {
            self.last_request_tm = None;
            self.trusted_remotes.insert(key, PeerState::default());
        }
    }

    /// No longer trusts `key`. If it is added again, discovery is enabled for it again.
    pub fn remove_trusted_remote(&mut self, key: PublicKey)
        requires
            old(self).wf(),
        ensures
            final(self).wf(),
            final(self)@ == old(self)@.without_remote(key@),
    {
        let removed = self.trusted_remotes.remove(&key);
        if removed.is_some() {
            self.last_request_tm = None;
        } else {
            assert(self@.trusted_remotes =~= old(self)@.trusted_remotes);
        }
    }

    /// Trusts exactly the given keys. Peers that were trusted before keep their states.
    pub fn set_trusted_remote_list(&mut self, new_trusted_remotes: Vec<PublicKey>)
        requires
            old(self).wf(),
        ensures
            final(self).wf(),
            final(self)@ == old(self)@.with_remotes(key_views(new_trusted_remotes@)),
    {
        let ghost keys = key_views(new_trusted_remotes@);
        let ghost before = self@;
        let mut i: usize = 0;
        while i < new_trusted_remotes.len()
            invariant
                self.wf(),
                before == old(self)@,
                keys == key_views(new_trusted_remotes@),
                i <= new_trusted_remotes@.len(),
                self@ == (ClientView {
                    trusted_remotes: self@.trusted_remotes,
                    last_request_tm: self@.last_request_tm,
                    ..before
                }),
                forall|k: Seq<u8>|
                    #![trigger self@.trusted_remotes.contains_key(k)]
                    self@.trusted_remotes.contains_key(k) <==> before.trusted_remotes.contains_key(k)
                        || keys.take(i as int).contains(k),
                forall|k: Seq<u8>| #[trigger]
                    self@.trusted_remotes.contains_key(k) ==> self@.trusted_remotes[k]
                        == state_or_fresh(before.trusted_remotes, k),
                self@.last_request_tm == if (forall|k: Seq<u8>|
                    keys.take(i as int).contains(k) ==> #[trigger] before.trusted_remotes.contains_key(
                        k,
                    )) {
                    before.last_request_tm
                } else {
                    None
                },
            decreases new_trusted_remotes@.len() - i,
        {
            let ghost k = keys[i as int];
            let ghost current = self@;
            self.add_trusted_remote(new_trusted_remotes[i]);
            proof {
                let shorter = keys.take(i as int);
                let longer = keys.take(i + 1);
                assert(longer =~= shorter.push(k));
                assert forall|q: Seq<u8>| longer.contains(q) <==> shorter.contains(q) || q == k by {
                    if longer.contains(q) && q != k {
                        let j = choose|j: int| 0 <= j < longer.len() && longer[j] == q;
                        assert(shorter[j] == q);
                    }
                    if shorter.contains(q) {
                        let j = choose|j: int| 0 <= j < shorter.len() && shorter[j] == q;
                        assert(longer[j] == q);
                    }
                    assert(longer[i as int] == k);
                }
                if before.trusted_remotes.contains_key(k) {
                    assert(current.trusted_remotes.contains_key(k));
                } else {
                    assert(longer.contains(k));
                    if shorter.contains(k) {
                        assert(current.trusted_remotes.contains_key(k));
                    }
                }
            }
            i = i + 1;
        }
        proof {
            assert(keys.take(i as int) =~= keys);
        }
        let ghost grown = self@;
        let mut j: usize = 0;
        while j < self.trusted_remotes.len()
            invariant
                self.wf(),
                j <= self.trusted_remotes.keys().len(),
                keys == key_views(new_trusted_remotes@),
                self@ == (ClientView {
                    trusted_remotes: self@.trusted_remotes,
                    last_request_tm: self@.last_request_tm,
                    ..grown
                }),
                forall|k: Seq<u8>|
                    #![trigger self@.trusted_remotes.contains_key(k)]
                    self@.trusted_remotes.contains_key(k) ==> grown.trusted_remotes.contains_key(k)
                        && self@.trusted_remotes[k] == grown.trusted_remotes[k],
                forall|k: Seq<u8>|
                    #![trigger grown.trusted_remotes.contains_key(k)]
                    grown.trusted_remotes.contains_key(k) && keys.contains(k)
                        ==> self@.trusted_remotes.contains_key(k),
                forall|n: int|
                    0 <= n < j ==> keys.contains(#[trigger] self.trusted_remotes.keys()[n]),
                self@.last_request_tm == if self@.trusted_remotes == grown.trusted_remotes {
                    grown.last_request_tm
                } else {
                    None
                },
            decreases self.trusted_remotes.keys().len() - j,
        {
            proof {
                self.trusted_remotes.keys_are_domain();
            }
            let ghost order = self.trusted_remotes.keys();
            let ghost current = self@;
            let k = self.trusted_remotes.key_at(j);
            if contains_key(&new_trusted_remotes, &k) {
                j = j + 1;
            } else {
                assert(order.contains(k@));
                assert(current.trusted_remotes.contains_key(k@));
                let _ = self.trusted_remotes.remove_at(j);
                self.last_request_tm = None;
                proof {
                    assert(!self@.trusted_remotes.contains_key(k@));
                    assert(grown.trusted_remotes.contains_key(k@));
                    assert forall|n: int| 0 <= n < j implies keys.contains(
                        #[trigger] self.trusted_remotes.keys()[n],
                    ) by {
                        assert(self.trusted_remotes.keys()[n] == order[n]);
                    }
                }
            }
        }
        proof {
            self.trusted_remotes.keys_are_domain();
            let expected = before.with_remotes(keys);
            assert forall|k: Seq<u8>| self@.trusted_remotes.contains_key(k) <==> keys.contains(k) by {
                if self@.trusted_remotes.contains_key(k) {
                    assert(self.trusted_remotes.keys().contains(k));
                    let n = choose|n: int|
                        0 <= n < self.trusted_remotes.keys().len() && self.trusted_remotes.keys()[n] == k;
                    assert(keys.contains(self.trusted_remotes.keys()[n]));
                }
                if keys.contains(k) {
                    assert(grown.trusted_remotes.contains_key(k));
                }
            }
            assert(self@.trusted_remotes =~= expected.trusted_remotes);
            if before.trusts_exactly(keys) {
                assert(self@.trusted_remotes =~= grown.trusted_remotes);
            } else {
                let k = choose|k: Seq<u8>|
                    before.trusted_remotes.contains_key(k) != keys.contains(k);
                if keys.contains(k) {
                    assert(!before.trusted_remotes.contains_key(k));
                } else {
                    assert(grown.trusted_remotes.contains_key(k));
                    assert(!self@.trusted_remotes.contains_key(k));
                }
            }
        }
    }

    /// Feedback on a connection that was returned by polling: it failed or was closed. Discovery
    /// is enabled for this peer again.
    pub fn on_connection_closed(&mut self, key: PublicKey)
        requires
            old(self).wf(),
        ensures
            final(self).wf(),
            final(self)@ == old(self)@.with_closed(key@),
    {
        let mut state = match self.trusted_remotes.get(&key) {
            Some(state) => *state,
            None => PeerState::default(),
        };
        state.resume_discovery();
        self.trusted_remotes.insert(key, state);
        self.last_request_tm = None;
    }
}

/// Whether `keys` are the peers that the server is to be asked for, in ascending order.
pub open spec fn lists_available(c: ClientView, keys: Seq<Seq<u8>>, now: Instant) -> bool {
    &&& forall|k: Seq<u8>| keys.contains(k) <==> #[trigger] c.is_available(k, now)
    &&& forall|i: int, j: int|
        0 <= i < j < keys.len() ==> key_lt(#[trigger] keys[i], #[trigger] keys[j])
}

/// Whether `picked` is a choice from `all`: all of them in the same order if there are no more
/// than `max`, and else `max` different ones.
pub open spec fn picks(all: Seq<Seq<u8>>, picked: Seq<Seq<u8>>, max: nat) -> bool {
    if all.len() <= max {
        picked == all
    } else {
        &&& picked.len() == max
        &&& picked.no_duplicates()
        &&& forall|k: Seq<u8>| picked.contains(k) ==> #[trigger] all.contains(k)
    }
}

/// Peers in ascending order are listed in one way only.
pub proof fn available_list_is_unique(
    c: ClientView,
    x: Seq<Seq<u8>>,
    y: Seq<Seq<u8>>,
    now: Instant,
)
    requires
        lists_available(c, x, now),
        lists_available(c, y, now),
    ensures
        x == y,
{
    assert forall|k: Seq<u8>| x.contains(k) <==> #[trigger] y.contains(k) by {
        assert(x.contains(k) <==> c.is_available(k, now));
    }
    ascending_lists_agree(x, y);
}

/// Two ascending lists with the same keys are equal.
proof fn ascending_lists_agree(x: Seq<Seq<u8>>, y: Seq<Seq<u8>>)
    requires
        forall|k: Seq<u8>| x.contains(k) <==> #[trigger] y.contains(k),
        forall|i: int, j: int| 0 <= i < j < x.len() ==> key_lt(#[trigger] x[i], #[trigger] x[j]),
        forall|i: int, j: int| 0 <= i < j < y.len() ==> key_lt(#[trigger] y[i], #[trigger] y[j]),
    ensures
        x == y,
    decreases x.len(),
{
    if x.len() == 0 {
        if y.len() > 0 {
            assert(y.contains(y[0]));
        }
        assert(x =~= y);
    } else {
        let m = x.last();
        assert(x.contains(m));
        assert(y.contains(m));
        let n = y.last();
        assert(y.contains(n));
        assert(x.contains(n));
        let i = choose|i: int| 0 <= i < x.len() && x[i] == n;
        let j = choose|j: int| 0 <= j < y.len() && y[j] == m;
        if i < x.len() - 1 {
            assert(key_lt(x[i], x[x.len() - 1]));
            assert(key_lt(n, m));
            if j < y.len() - 1 {
                assert(key_lt(y[j], y[y.len() - 1]));
                key_lt_asymmetric(n, m);
            } else {
                key_lt_asymmetric(n, m);
            }
        }
        let fx = x.drop_last();
        let fy = y.drop_last();
        assert forall|k: Seq<u8>| fx.contains(k) <==> #[trigger] fy.contains(k) by {
            if fx.contains(k) {
                let a = choose|a: int| 0 <= a < fx.len() && fx[a] == k;
                assert(key_lt(x[a], x[x.len() - 1]));
                key_lt_asymmetric(k, m);
                assert(x.contains(x[a]));
                assert(y.contains(k));
                let b = choose|b: int| 0 <= b < y.len() && y[b] == k;
                assert(fy[b] == k);
            }
            if fy.contains(k) {
                let b = choose|b: int| 0 <= b < fy.len() && fy[b] == k;
                assert(key_lt(y[b], y[y.len() - 1]));
                key_lt_asymmetric(k, m);
                assert(y.contains(y[b]));
                assert(x.contains(k));
                let a = choose|a: int| 0 <= a < x.len() && x[a] == k;
                assert(fx[a] == k);
            }
        }
        assert forall|i: int, j: int| 0 <= i < j < fx.len() implies key_lt(
            #[trigger] fx[i],
            #[trigger] fx[j],
        ) by {
            assert(key_lt(x[i], x[j]));
        }
        assert forall|i: int, j: int| 0 <= i < j < fy.len() implies key_lt(
            #[trigger] fy[i],
            #[trigger] fy[j],
        ) by {
            assert(key_lt(y[i], y[j]));
        }
        ascending_lists_agree(fx, fy);
        assert(x =~= fx.push(m));
        assert(y =~= fy.push(m));
    }
}

/// Keys in ascending order are different.
proof fn ascending_keys_differ(keys: Seq<Seq<u8>>)
    requires
        forall|i: int, j: int|
            0 <= i < j < keys.len() ==> key_lt(#[trigger] keys[i], #[trigger] keys[j]),
    ensures
        keys.no_duplicates(),
{
    assert forall|i: int, j: int| 0 <= i < keys.len() && 0 <= j < keys.len() && i != j implies keys[i]
        != keys[j] by {
        if i < j {
            key_lt_asymmetric(keys[i], keys[j]);
        } else {
            key_lt_asymmetric(keys[j], keys[i]);
        }
    }
}

/// Different keys stay different in any other order.
proof fn shuffled_keys_differ(before: Seq<PublicKey>, after: Seq<PublicKey>)
    requires
        before.to_multiset() == after.to_multiset(),
        key_views(before).no_duplicates(),
    ensures
        after.len() == before.len(),
        key_views(after).no_duplicates(),
        forall|k: Seq<u8>| key_views(after).contains(k) ==> #[trigger] key_views(before).contains(k),
{
    broadcast use vstd::seq_lib::group_to_multiset_ensures;

    assert(before.to_multiset().len() == before.len());
    assert(after.to_multiset().len() == after.len());
    assert forall|i: int, j: int| 0 <= i < before.len() && 0 <= j < before.len() && i != j implies before[i]
        != before[j] by {
        assert(key_views(before)[i] != key_views(before)[j]);
    }
    before.lemma_multiset_has_no_duplicates();
    after.lemma_multiset_has_no_duplicates_conv();
    let views = key_views(after);
    assert forall|i: int, j: int| 0 <= i < views.len() && 0 <= j < views.len() && i != j implies views[i]
        != views[j] by {
        if views[i] == views[j] {
            key_ext(after[i], after[j]);
        }
    }
    assert forall|k: Seq<u8>| views.contains(k) implies #[trigger] key_views(before).contains(k) by {
        let i = choose|i: int| 0 <= i < views.len() && views[i] == k;
        assert(after.contains(after[i]));
        assert(before.to_multiset().count(after[i]) > 0);
        assert(before.contains(after[i]));
        let j = choose|j: int| 0 <= j < before.len() && before[j] == after[i];
        assert(key_views(before)[j] == k);
    }
}

/// A choice from a choice is a choice.
proof fn picks_compose(
    all: Seq<Seq<u8>>,
    some: Seq<Seq<u8>>,
    few: Seq<Seq<u8>>,
    most: nat,
    max: nat,
)
    requires
        picks(all, some, most),
        picks(some, few, max),
        max <= most,
    ensures
        picks(all, few, max),
{
    if all.len() > most && some.len() > max {
        assert forall|k: Seq<u8>| few.contains(k) implies #[trigger] all.contains(k) by {
            assert(some.contains(k));
        }
    }
}

/// The first `max` keys of a list.
pub fn limit_remotes(keys: Vec<PublicKey>, max: usize) -> (r: Vec<PublicKey>)
    ensures
        keys@.len() <= max ==> r@ == keys@,
        keys@.len() > max ==> r@ == keys@.take(max as int),
{
    let mut keys = keys;
    keys.truncate(max);
    keys
}

/// Picks exactly `max` keys at random, or takes all if there are no more.
fn pick_remotes(keys: Vec<PublicKey>, max: usize) -> (r: Vec<PublicKey>)
    requires
        key_views(keys@).no_duplicates(),
    ensures
        picks(key_views(keys@), key_views(r@), max as nat),
{
    if keys.len() <= max {
        return keys;
    }
    let ghost before = keys@;
    let mut keys = keys;
    shuffle_keys(&mut keys);
    let ghost shuffled = keys@;
    let picked = limit_remotes(keys, max);
    proof {
        shuffled_keys_differ(before, shuffled);
        let views = key_views(shuffled);
        let short = key_views(picked@);
        assert(short =~= views.take(max as int));
        assert forall|k: Seq<u8>| short.contains(k) implies #[trigger] key_views(before).contains(
            k,
        ) by {
            let i = choose|i: int| 0 <= i < short.len() && short[i] == k;
            assert(views[i] == k);
            assert(views.contains(k));
        }
    }
    picked
}

impl UdpConnectionEstablisher {
    /// The peers that the server is to be asked for, in ascending order.
    pub fn available_remotes(&self, now: Instant) -> (r: Vec<PublicKey>)
        requires
            self.wf(),
        ensures
            lists_available(self@, key_views(r@), now),
    {
        let mut r: Vec<PublicKey> = Vec::new();
        proof {
            self.trusted_remotes.keys_are_domain();
        }
        let ghost order = self.trusted_remotes.keys();
        let n: usize = self.trusted_remotes.len();
        let mut i: usize = 0;
        while i < n
            invariant
                self.wf(),
                order == self.trusted_remotes.keys(),
                i <= n == order.len(),
                forall|k: Seq<u8>| #[trigger] self@.trusted_remotes.contains_key(k) <==> order.contains(k),
                forall|a: int, b: int|
                    0 <= a < b < order.len() ==> key_lt(#[trigger] order[a], #[trigger] order[b]),
                forall|a: int|
                    0 <= a < i && self@.is_available(#[trigger] order[a], now) ==> key_views(
                        r@,
                    ).contains(order[a]),
                forall|a: int|
                    0 <= a < r@.len() ==> self@.is_available(#[trigger] key_views(r@)[a], now)
                        && exists|b: int| 0 <= b < i && #[trigger] order[b] == key_views(r@)[a],
                forall|a: int, b: int|
                    0 <= a < b < r@.len() ==> key_lt(
                        #[trigger] key_views(r@)[a],
                        #[trigger] key_views(r@)[b],
                    ),
            decreases n - i,
        {
            let state = self.trusted_remotes.value_at(i);
            let ghost before = key_views(r@);
            let ghost k = order[i as int];
            assert(order.contains(k));
            if state.is_server_discovery_enabled(now) {
                r.push(self.trusted_remotes.key_at(i));
                proof {
                    let after = key_views(r@);
                    assert(after =~= before.push(k));
                    assert(self@.is_available(k, now));
                    assert forall|a: int| 0 <= a < i + 1 && self@.is_available(
                        #[trigger] order[a],
                        now,
                    ) implies after.contains(order[a]) by {
                        if a < i {
                            assert(before.contains(order[a]));
                            let b = choose|b: int| 0 <= b < before.len() && before[b] == order[a];
                            assert(after[b] == order[a]);
                        } else {
                            assert(after[before.len() as int] == k);
                        }
                    }
                    assert forall|a: int| 0 <= a < r@.len() implies self@.is_available(
                        #[trigger] after[a],
                        now,
                    ) && exists|b: int| 0 <= b < i + 1 && #[trigger] order[b] == after[a] by {
                        if a < before.len() {
                            assert(after[a] == before[a]);
                            let b = choose|b: int| 0 <= b < i && #[trigger] order[b] == before[a];
                            assert(order[b] == after[a]);
                        } else {
                            assert(order[i as int] == after[a]);
                        }
                    }
                    assert forall|a: int, b: int| 0 <= a < b < r@.len() implies key_lt(
                        #[trigger] after[a],
                        #[trigger] after[b],
                    ) by {
                        assert(after[a] == before[a]);
                        if b < before.len() {
                            assert(after[b] == before[b]);
                        } else {
                            let c = choose|c: int| 0 <= c < i && #[trigger] order[c] == before[a];
                            assert(key_lt(order[c], order[i as int]));
                        }
                    }
                }
            } else {
                assert(!self@.is_available(k, now));
            }
            i = i + 1;
        }
        proof {
            let keys = key_views(r@);
            assert forall|k: Seq<u8>| keys.contains(k) <==> #[trigger] self@.is_available(k, now) by {
                if keys.contains(k) {
                    let a = choose|a: int| 0 <= a < keys.len() && keys[a] == k;
                    assert(self@.is_available(keys[a], now));
                }
                if self@.is_available(k, now) {
                    assert(order.contains(k));
                    let a = choose|a: int| 0 <= a < order.len() && order[a] == k;
                    assert(self@.is_available(order[a], now));
                }
            }
        }
        r
    }

    /// Takes up to 50 peers that the server is to be asked for. If there are more than 50, picks
    /// exactly 50 at random.
    pub fn new_available_remotes_list(&self, now: Instant) -> (r: Vec<PublicKey>)
        requires
            self.wf(),
        ensures
            exists|all: Seq<Seq<u8>>| #[trigger]
                lists_available(self@, all, now) && picks(
                    all,
                    key_views(r@),
                    MAX_AVAILABLE_REMOTES as nat,
                ),
    {
        let available = self.available_remotes(now);
        proof {
            ascending_keys_differ(key_views(available@));
        }
        pick_remotes(available, MAX_AVAILABLE_REMOTES)
    }

    /// The peers for one connection request: those that the server is to be asked for, or exactly
    /// 10 of them at random if there are more.
    pub fn request_peers(&self, now: Instant) -> (r: Vec<PublicKey>)
        requires
            self.wf(),
        ensures
            exists|all: Seq<Seq<u8>>| #[trigger]
                lists_available(self@, all, now) && picks(
                    all,
                    key_views(r@),
                    MAX_REQUEST_PEERS as nat,
                ),
    {
        let list = self.new_available_remotes_list(now);
        let ghost all = choose|all: Seq<Seq<u8>>| #[trigger]
            lists_available(self@, all, now) && picks(
                all,
                key_views(list@),
                MAX_AVAILABLE_REMOTES as nat,
            );
        let ghost some = key_views(list@);
        proof {
            ascending_keys_differ(all);
        }
        let r = pick_remotes(list, MAX_REQUEST_PEERS);
        proof {
            picks_compose(
                all,
                some,
                key_views(r@),
                MAX_AVAILABLE_REMOTES as nat,
                MAX_REQUEST_PEERS as nat,
            );
        }
        r
    }
}

/// Exactly the keys of a list are trusted after it was set, and peers that were trusted before
/// keep their states.
pub proof fn list_is_trusted_exactly(c: ClientView, keys: Seq<Seq<u8>>, k: Seq<u8>)
    ensures
        c.with_remotes(keys).trusts_exactly(keys),
        keys.contains(k) && c.trusted_remotes.contains_key(k) ==> c.with_remotes(
            keys,
        ).trusted_remotes[k] == c.trusted_remotes[k],
        keys.contains(k) && !c.trusted_remotes.contains_key(k) ==> c.with_remotes(
            keys,
        ).trusted_remotes[k] == PeerState::fresh(),
{
}

/// A new peer is asked for at once, and a known one keeps its state.
pub proof fn added_peer_is_asked_for(c: ClientView, k: Seq<u8>, now: Instant)
    ensures
        c.with_remote(k).trusted_remotes.contains_key(k),
        !c.trusted_remotes.contains_key(k) ==> c.with_remote(k).is_available(k, now),
        c.trusted_remotes.contains_key(k) ==> c.with_remote(k) == c,
        c.with_remote(k).with_remote(k) == c.with_remote(k),
{
}

/// A peer that is removed is not asked for, and if it is added again, discovery is enabled for it
/// again, whatever its state was.
pub proof fn removed_peer_starts_afresh(c: ClientView, k: Seq<u8>, now: Instant)
    ensures
        !c.without_remote(k).is_available(k, now),
        c.without_remote(k).with_remote(k).trusted_remotes[k] == PeerState::fresh(),
        c.without_remote(k).with_remote(k).is_available(k, now),
{
}

/// When a connection was closed, its peer is asked for again, unless it is looked for in the local
/// network.
pub proof fn closed_connection_resumes_discovery(c: ClientView, k: Seq<u8>, now: Instant)
    ensures
        c.with_closed(k).is_available(k, now) == !state_or_fresh(
            c.trusted_remotes,
            k,
        ).local_discovery(now),
{
}

/// Adding a peer trusts it, and nobody else is trusted or forgotten. A peer that was trusted keeps
/// its state, and then nothing changes at all. A new one is asked for at once, and the next request
/// is due at once.
pub proof fn adding_trusts_one_peer(
    c: &mut UdpConnectionEstablisher,
    key: PublicKey,
    k: Seq<u8>,
    now: Instant,
)
    requires
        call_ensures(UdpConnectionEstablisher::add_trusted_remote, (c, key), ()),
    ensures
        final(c)@.trusted_remotes.contains_key(k) <==> old(c)@.trusted_remotes.contains_key(k) || k
            == key@,
        old(c)@.trusted_remotes.contains_key(k) ==> final(c)@.trusted_remotes[k]
            == old(c)@.trusted_remotes[k],
        old(c)@.trusted_remotes.contains_key(key@) ==> final(c)@ == old(c)@,
        !old(c)@.trusted_remotes.contains_key(key@) ==> {
            &&& final(c)@.last_request_tm is None
            &&& final(c)@.trusted_remotes[key@].state_kind is Enabled
            &&& final(c)@.trusted_remotes[key@].last_accepted_session_id is None
            &&& final(c)@.trusted_remotes[key@].last_error_same_ip is None
            &&& final(c)@.trusted_remotes[key@].failure_retry_timeout == 100_000_000
        },
        final(c)@ == (ClientView {
            trusted_remotes: final(c)@.trusted_remotes,
            last_request_tm: final(c)@.last_request_tm,
            ..old(c)@
        }),
{
}

/// Removing a peer forgets it, and nobody else is trusted or forgotten or changed. If it was
/// trusted, the next request is due at once, and else nothing changes.
pub proof fn removing_forgets_one_peer(c: &mut UdpConnectionEstablisher, key: PublicKey, k: Seq<u8>)
    requires
        call_ensures(UdpConnectionEstablisher::remove_trusted_remote, (c, key), ()),
    ensures
        final(c)@.trusted_remotes.contains_key(k) <==> old(c)@.trusted_remotes.contains_key(k) && k
            != key@,
        final(c)@.trusted_remotes.contains_key(k) ==> final(c)@.trusted_remotes[k]
            == old(c)@.trusted_remotes[k],
        old(c)@.trusted_remotes.contains_key(key@) ==> final(c)@.last_request_tm is None,
        !old(c)@.trusted_remotes.contains_key(key@) ==> final(c)@ == old(c)@,
        final(c)@ == (ClientView {
            trusted_remotes: final(c)@.trusted_remotes,
            last_request_tm: final(c)@.last_request_tm,
            ..old(c)@
        }),
{
}

/// Setting the list of peers trusts exactly those on it. One that was trusted before keeps its
/// state, and a new one starts afresh. The next request is due at once if anyone was added or
/// removed, and as before if not.
pub proof fn setting_trusts_the_list(
    c: &mut UdpConnectionEstablisher,
    keys: Vec<PublicKey>,
    k: Seq<u8>,
)
    requires
        call_ensures(UdpConnectionEstablisher::set_trusted_remote_list, (c, keys), ()),
    ensures
        final(c)@.trusted_remotes.contains_key(k) <==> exists|i: int|
            0 <= i < keys@.len() && (#[trigger] keys@[i])@ == k,
        final(c)@.trusted_remotes.contains_key(k) && old(c)@.trusted_remotes.contains_key(k)
            ==> final(c)@.trusted_remotes[k] == old(c)@.trusted_remotes[k],
        final(c)@.trusted_remotes.contains_key(k) && !old(c)@.trusted_remotes.contains_key(k) ==> {
            &&& final(c)@.trusted_remotes[k].state_kind is Enabled
            &&& final(c)@.trusted_remotes[k].last_accepted_session_id is None
            &&& final(c)@.trusted_remotes[k].last_error_same_ip is None
            &&& final(c)@.trusted_remotes[k].failure_retry_timeout == 100_000_000
        },
        final(c)@.trusted_remotes.contains_key(k) != old(c)@.trusted_remotes.contains_key(k)
            ==> final(c)@.last_request_tm is None,
        final(c)@.trusted_remotes.dom() == old(c)@.trusted_remotes.dom() ==> final(c)@.last_request_tm
            == old(c)@.last_request_tm,
        final(c)@ == (ClientView {
            trusted_remotes: final(c)@.trusted_remotes,
            last_request_tm: final(c)@.last_request_tm,
            ..old(c)@
        }),
{
    let views = key_views(keys@);
    if views.contains(k) {
        let i = choose|i: int| 0 <= i < views.len() && views[i] == k;
        assert(keys@[i]@ == k);
    }
    assert forall|i: int| 0 <= i < keys@.len() && (#[trigger] keys@[i])@ == k implies views.contains(
        k,
    ) by {
        assert(views[i] == k);
    }
    if final(c)@.trusted_remotes.dom() == old(c)@.trusted_remotes.dom() {
        assert forall|q: Seq<u8>| old(c)@.trusted_remotes.contains_key(q) <==> views.contains(q) by {
            assert(old(c)@.trusted_remotes.dom().contains(q) == final(c)@.trusted_remotes.dom().contains(q));
        }
    }
}

/// When a connection is reported closed, its peer is trusted and no longer connected or disabled, and
/// keeps what the server said of it and how often it failed. No other peer changes, and the next
/// request is due at once.
pub proof fn closing_enables_one_peer(c: &mut UdpConnectionEstablisher, key: PublicKey, k: Seq<u8>)
    requires
        call_ensures(UdpConnectionEstablisher::on_connection_closed, (c, key), ()),
    ensures
        final(c)@.trusted_remotes.contains_key(k) <==> old(c)@.trusted_remotes.contains_key(k) || k
            == key@,
        k != key@ && old(c)@.trusted_remotes.contains_key(k) ==> final(c)@.trusted_remotes[k]
            == old(c)@.trusted_remotes[k],
        final(c)@.trusted_remotes[key@].state_kind is Enabled,
        old(c)@.trusted_remotes.contains_key(key@) ==> {
            let (before, after) = (old(c)@.trusted_remotes[key@], final(c)@.trusted_remotes[key@]);
            &&& after.last_accepted_session_id == before.last_accepted_session_id
            &&& after.last_error_same_ip == before.last_error_same_ip
            &&& after.failure_retry_timeout == before.failure_retry_timeout
        },
        !old(c)@.trusted_remotes.contains_key(key@) ==> {
            let after = final(c)@.trusted_remotes[key@];
            &&& after.last_accepted_session_id is None
            &&& after.last_error_same_ip is None
            &&& after.failure_retry_timeout == 100_000_000
        },
        final(c)@ == (ClientView {
            trusted_remotes: final(c)@.trusted_remotes,
            last_request_tm: None,
            ..old(c)@
        }),
{
}

/// A new client trusts nobody, has sent and heard nothing, and has the key, the server and the
/// interface that it was given.
pub proof fn new_client_knows_nobody(
    key: SecretKey,
    server: SocketAddrV4,
    local_discovery: bool,
    interface: Option<String>,
    session_id: u32,
    c: UdpConnectionEstablisher,
    d: UdpConnectionEstablisher,
    k: Seq<u8>,
)
    requires
        call_ensures(
            UdpConnectionEstablisher::with_session,
            (key, server, local_discovery, interface, session_id),
            c,
        ),
        call_ensures(
            UdpConnectionEstablisher::new,
            (key, server, local_discovery, interface),
            d,
        ),
    ensures
        !c@.trusted_remotes.contains_key(k),
        c@.session_id == session_id,
        c@.p2p_server_addr == server,
        c@.key == key@,
        c@.local_discovery == local_discovery,
        c@.cur_interface matches Some(name) ==> (interface matches Some(i) && i@ == name),
        c@.cur_interface is None ==> interface is None,
        c@.last_request_tm is None,
        c@.last_p2p_server_ping_send_tm is None,
        c@.last_p2p_server_ping is None,
        c@.last_p2p_server_pong is None,
        c@.poll_start_tm is None,
        d@ == (ClientView { session_id: d@.session_id, ..c@ }),
{
}

/// The peers that the server is to be asked for are listed once each, in ascending order: those that
/// are trusted, neither connected nor disabled, and not looked for in the local network.
pub proof fn available_peers_are_listed(
    c: UdpConnectionEstablisher,
    now: Instant,
    all: Vec<PublicKey>,
    k: Seq<u8>,
    i: int,
    j: int,
)
    requires
        call_ensures(UdpConnectionEstablisher::available_remotes, (&c, now), all),
    ensures
        (exists|x: int| 0 <= x < all@.len() && (#[trigger] all@[x])@ == k) <==> {
            &&& c@.trusted_remotes.contains_key(k)
            &&& !(c@.trusted_remotes[k].last_error_same_ip matches Some(t) && now - t
                < 6_000_000_000)
            &&& c@.trusted_remotes[k].state_kind is Enabled || (
            c@.trusted_remotes[k].state_kind matches PeerStateKind::DisabledUntil(end) && end < now)
        },
        0 <= i < j < all@.len() ==> all@[i]@ != all@[j]@,
        0 <= i < j < all@.len() ==> exists|x: int|
            0 <= x < 32 && all@[i]@[x] < all@[j]@[x] && all@[i]@.take(x) == #[trigger] all@[j]@.take(
                x,
            ),
{
    let views = key_views(all@);
    assert(views.contains(k) <==> c@.is_available(k, now));
    if views.contains(k) {
        let x = choose|x: int| 0 <= x < views.len() && views[x] == k;
        assert(all@[x]@ == k);
    }
    assert forall|x: int| 0 <= x < all@.len() && (#[trigger] all@[x])@ == k implies views.contains(
        k,
    ) by {
        assert(views[x] == k);
    }
    if 0 <= i < j < all@.len() {
        assert(key_lt(views[i], views[j]));
        key_lt_asymmetric(views[i], views[j]);
        let x = choose|x: int| differs_below(views[i], views[j], x);
        assert(all@[i]@.take(x) =~= all@[j]@.take(x));
    }
}

/// A list of at most 50 and a request of at most 10 of the peers that the server is to be asked for
/// hold all of them, in the same order, if there are no more, and else exactly as many, all
/// different.
pub proof fn lists_are_cut_to_size(
    c: UdpConnectionEstablisher,
    now: Instant,
    all: Vec<PublicKey>,
    fifty: Vec<PublicKey>,
    ten: Vec<PublicKey>,
    i: int,
    j: int,
)
    requires
        call_ensures(UdpConnectionEstablisher::available_remotes, (&c, now), all),
        call_ensures(UdpConnectionEstablisher::new_available_remotes_list, (&c, now), fifty),
        call_ensures(UdpConnectionEstablisher::request_peers, (&c, now), ten),
    ensures
        all@.len() <= 50 ==> fifty@.len() == all@.len(),
        all@.len() > 50 ==> fifty@.len() == 50,
        all@.len() <= 50 && 0 <= i < all@.len() ==> fifty@[i]@ == all@[i]@,
        0 <= i < fifty@.len() ==> exists|x: int|
            0 <= x < all@.len() && (#[trigger] all@[x])@ == fifty@[i]@,
        0 <= i < j < fifty@.len() ==> fifty@[i]@ != fifty@[j]@,
        all@.len() <= 10 ==> ten@.len() == all@.len(),
        all@.len() > 10 ==> ten@.len() == 10,
        all@.len() <= 10 && 0 <= i < all@.len() ==> ten@[i]@ == all@[i]@,
        0 <= i < ten@.len() ==> exists|x: int|
            0 <= x < all@.len() && (#[trigger] all@[x])@ == ten@[i]@,
        0 <= i < j < ten@.len() ==> ten@[i]@ != ten@[j]@,
{
    choice_comes_from_the_list(c, now, all, fifty, 50, i, j);
    choice_comes_from_the_list(c, now, all, ten, 10, i, j);
}

proof fn choice_comes_from_the_list(
    c: UdpConnectionEstablisher,
    now: Instant,
    all: Vec<PublicKey>,
    some: Vec<PublicKey>,
    max: nat,
    i: int,
    j: int,
)
    requires
        lists_available(c@, key_views(all@), now),
        exists|list: Seq<Seq<u8>>| #[trigger]
            lists_available(c@, list, now) && picks(list, key_views(some@), max),
    ensures
        all@.len() <= max ==> some@.len() == all@.len(),
        all@.len() > max ==> some@.len() == max,
        all@.len() <= max && 0 <= i < all@.len() ==> some@[i]@ == all@[i]@,
        0 <= i < some@.len() ==> exists|x: int|
            0 <= x < all@.len() && (#[trigger] all@[x])@ == some@[i]@,
        0 <= i < j < some@.len() ==> some@[i]@ != some@[j]@,
{
    let views = key_views(all@);
    let picked = key_views(some@);
    let list = choose|list: Seq<Seq<u8>>| #[trigger]
        lists_available(c@, list, now) && picks(list, picked, max);
    available_list_is_unique(c@, list, views, now);
    ascending_keys_differ(views);
    if all@.len() <= max && 0 <= i < all@.len() {
        assert(picked[i] == views[i]);
    }
    if 0 <= i < some@.len() {
        assert(picked[i] == some@[i]@);
        assert(picked.contains(picked[i]));
        assert(views.contains(picked[i]));
        let x = choose|x: int| 0 <= x < views.len() && views[x] == picked[i];
        assert(all@[x]@ == some@[i]@);
    }
    if 0 <= i < j < some@.len() {
        assert(picked[i] != picked[j]);
    }
}

} // verus!
