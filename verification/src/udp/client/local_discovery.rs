//! Peers in the local network: when the client announces itself, and which peers it connects to.
use vstd::prelude::*;
use crate::keys::{key_equal, key_lt, key_views, KeyMap, PublicKey};
use crate::net::SocketAddrV4;
use crate::outside::{ed25519_public_key, public_key_of};
use crate::time::{elapsed_secs, secs_since, Instant};
use crate::udp::client::{ClientView, UdpConnectionEstablisher};
use crate::udp::client::{LOCAL_DISCOVERY_ENABLE_DELAY_SECS, PONG_VALID_SECS};
use crate::udp::peer_state::PeerState;
use crate::wire::{bytes_equal, push_bytes, read_array};

verus! {

/// How many bytes a greeting starts with before the key.
pub const HELLO_PREFIX_LEN: usize = 23;

/// The start of a greeting in the local network: the letters of `multicast-discovery-p2p`.
pub open spec fn hello_prefix() -> Seq<u8> {
    seq![
        109u8, 117, 108, 116, 105, 99, 97, 115, 116, 45, 100, 105, 115, 99, 111, 118, 101, 114,
        121, 45, 112, 50, 112,
    ]
}

/// The greeting of the peer with the key `k`.
pub open spec fn hello_bytes(k: Seq<u8>) -> Seq<u8> {
    hello_prefix() + k
}

/// The key of the peer that a greeting comes from, or `None` if `msg` is no greeting.
pub open spec fn hello_sender(msg: Seq<u8>) -> Option<Seq<u8>> {
    if msg.len() == HELLO_PREFIX_LEN + 32 && msg.take(HELLO_PREFIX_LEN as int) == hello_prefix() {
        Some(msg.skip(HELLO_PREFIX_LEN as int))
    } else {
        None
    }
}

/// The sender of a greeting is read back from it.
pub proof fn hello_round_trip(k: Seq<u8>)
    requires
        k.len() == 32,
    ensures
        hello_sender(hello_bytes(k)) == Some(k),
{
    assert(hello_bytes(k).take(HELLO_PREFIX_LEN as int) =~= hello_prefix());
    assert(hello_bytes(k).skip(HELLO_PREFIX_LEN as int) =~= k);
}

fn prefix_bytes() -> (r: Vec<u8>)
    ensures
        r@ == hello_prefix(),
{
    let r: Vec<u8> = vec![
        109, 117, 108, 116, 105, 99, 97, 115, 116, 45, 100, 105, 115, 99, 111, 118, 101, 114, 121,
        45, 112, 50, 112,
    ];
    assert(r@ =~= hello_prefix());
    r
}

/// The greeting of the peer with the key `k`.
pub fn write_hello(k: &PublicKey) -> (r: Vec<u8>)
    ensures
        r@ == hello_bytes(k@),
{
    let mut r = prefix_bytes();
    push_bytes(&mut r, k.as_slice());
    r
}

/// The key of the peer that a greeting comes from, or `None` if `msg` is no greeting.
pub fn read_hello(msg: &[u8]) -> (r: Option<PublicKey>)
    ensures
        match r {
            Some(k) => hello_sender(msg@) == Some(k@),
            None => hello_sender(msg@) is None,
        },
{
    if msg.len() != HELLO_PREFIX_LEN + 32 {
        return None;
    }
    let prefix: [u8; HELLO_PREFIX_LEN] = read_array(msg, 0);
    assert(prefix@ =~= msg@.take(HELLO_PREFIX_LEN as int));
    if !bytes_equal(prefix.as_slice(), prefix_bytes().as_slice()) {
        return None;
    }
    let k: PublicKey = read_array(msg, HELLO_PREFIX_LEN);
    assert(k@ =~= msg@.skip(HELLO_PREFIX_LEN as int));
    Some(k)
}

/// Whether the server answered a ping within the last 10 seconds.
pub open spec fn pong_is_fresh(pong: Option<Instant>, now: Instant) -> bool {
    pong matches Some(tm) && secs_since(tm, now) < PONG_VALID_SECS
}

/// Whether a peer may be found in the local network: the server is reachable, or it said that the
/// peer is behind our own IP address.
pub open spec fn local_discovery_for(
    pong: Option<Instant>,
    remotes: Map<Seq<u8>, PeerState>,
    k: Seq<u8>,
    now: Instant,
) -> bool {
    pong_is_fresh(pong, now) || (remotes.contains_key(k) && remotes[k].local_discovery(now))
}

fn is_pong_fresh(pong: &Option<Instant>, now: Instant) -> (r: bool)
    ensures
        r == pong_is_fresh(*pong, now),
{
    match pong {
        Some(tm) => elapsed_secs(*tm, now) < PONG_VALID_SECS,
        None => false,
    }
}

/// Whether a peer may be found in the local network.
pub fn is_local_discovery_enabled_for(
    last_p2p_server_pong: &Option<Instant>,
    trusted_remotes: &KeyMap<PeerState>,
    pubkey: &PublicKey,
    now: Instant,
) -> (r: bool)
    requires
        trusted_remotes.wf(),
    ensures
        r == local_discovery_for(*last_p2p_server_pong, trusted_remotes@, pubkey@, now),
{
    is_pong_fresh(last_p2p_server_pong, now) || match trusted_remotes.get(pubkey) {
        Some(s) => s.is_local_discovery_enabled(now),
        None => false,
    }
}

/// A client that was found in the local network: its address, and its key in disguise.
pub type Discovered = (SocketAddrV4, [u8; 32]);

/// The key of a trusted peer, and its disguise.
pub type Disguise = (PublicKey, [u8; 32]);

impl ClientView {
    /// Whether the first 5 seconds of polling, with local discovery disabled, are over.
    pub open spec fn local_discovery_started(self, now: Instant) -> bool {
        self.poll_start_tm matches Some(tm) && secs_since(tm, now)
            >= LOCAL_DISCOVERY_ENABLE_DELAY_SECS
    }

    /// Whether the client announces itself in the local network: not in the first 5 seconds, and
    /// only if the server is reachable or some peer is behind our own IP address.
    pub open spec fn announces(self, now: Instant) -> bool {
        &&& self.local_discovery_started(now)
        &&& pong_is_fresh(self.last_p2p_server_pong, now) || exists|k: Seq<u8>|
            self.trusted_remotes.contains_key(k)
                && #[trigger] self.trusted_remotes[k].local_discovery(now)
    }

    /// Whether a connection to `k` in the local network is accepted: not in the first 5 seconds.
    pub open spec fn accepts_local(self, k: Seq<u8>, now: Instant) -> bool {
        &&& self.local_discovery_started(now)
        &&& local_discovery_for(self.last_p2p_server_pong, self.trusted_remotes, k, now)
        &&& self.is_available(k, now)
    }

    /// Whether the `i`-th discovered client is the peer of the `n`-th disguise, and is accepted.
    pub open spec fn recognises(
        self,
        discovered: Seq<Discovered>,
        disguises: Seq<Disguise>,
        i: int,
        n: int,
        now: Instant,
    ) -> bool {
        &&& 0 <= i < discovered.len()
        &&& 0 <= n < disguises.len()
        &&& discovered[i].1@ == disguises[n].1@
        &&& self.accepts_local(disguises[n].0@, now)
    }

    /// Whether none of the discovered clients is an accepted peer.
    pub open spec fn recognises_none(
        self,
        discovered: Seq<Discovered>,
        disguises: Seq<Disguise>,
        now: Instant,
    ) -> bool {
        forall|i: int, n: int| !#[trigger] self.recognises(discovered, disguises, i, n, now)
    }
}

/// After the first 5 seconds, a connection in the local network is accepted exactly if the server is
/// reachable and is to be asked for the peer: a peer that is looked for in the local network alone is not connected to.
pub proof fn local_connection_needs_pong(c: ClientView, k: Seq<u8>, now: Instant)
    ensures
        c.accepts_local(k, now) <==> c.local_discovery_started(now) && pong_is_fresh(
            c.last_p2p_server_pong,
            now,
        ) && c.is_available(k, now),
{
}

impl UdpConnectionEstablisher {
    fn local_discovery_started(&self, now: Instant) -> (r: bool)
        ensures
            r == self@.local_discovery_started(now),
    {
        match self.poll_start_tm {
            Some(tm) => elapsed_secs(tm, now) >= LOCAL_DISCOVERY_ENABLE_DELAY_SECS,
            None => false,
        }
    }

    /// Whether the client is to announce itself in the local network.
    pub fn announcement_enabled(&self, now: Instant) -> (r: bool)
        requires
            self.wf(),
        ensures
            r == self@.announces(now),
    {
        self.local_discovery_started(now) && (is_pong_fresh(&self.last_p2p_server_pong, now)
            || self.some_local_discovery(now))
    }

    /// Whether some peer is behind our own IP address.
    fn some_local_discovery(&self, now: Instant) -> (r: bool)
        requires
            self.wf(),
        ensures
            r == exists|k: Seq<u8>|
                self@.trusted_remotes.contains_key(k)
                    && #[trigger] self@.trusted_remotes[k].local_discovery(now),
    {
        proof {
            self.trusted_remotes.keys_are_domain();
        }
        let n: usize = self.trusted_remotes.len();
        let mut i: usize = 0;
        while i < n
            invariant
                self.wf(),
                i <= n == self.trusted_remotes.keys().len(),
                forall|j: int|
                    0 <= j < i ==> !self@.trusted_remotes[#[trigger] self.trusted_remotes.keys()[j]].local_discovery(
                        now,
                    ),
            decreases n - i,
        {
            let ghost k = self.trusted_remotes.keys()[i as int];
            if self.trusted_remotes.value_at(i).is_local_discovery_enabled(now) {
                assert(self@.trusted_remotes.contains_key(k)
                    && self@.trusted_remotes[k].local_discovery(now));
                return true;
            }
            i = i + 1;
        }
        proof {
            assert forall|k: Seq<u8>| self@.trusted_remotes.contains_key(k) implies !(
            #[trigger] self@.trusted_remotes[k].local_discovery(now)) by {
                assert(self.trusted_remotes.keys().contains(k));
                let j = choose|j: int|
                    0 <= j < self.trusted_remotes.keys().len() && self.trusted_remotes.keys()[j] == k;
                assert(!self@.trusted_remotes[self.trusted_remotes.keys()[j]].local_discovery(now));
            }
        }
        false
    }

    /// Whether a connection to `k` in the local network is to be accepted.
    pub fn accepts_local_connection(&self, k: &PublicKey, now: Instant) -> (r: bool)
        requires
            self.wf(),
        ensures
            r == self@.accepts_local(k@, now),
    {
        self.local_discovery_started(now) && is_local_discovery_enabled_for(
            &self.last_p2p_server_pong,
            &self.trusted_remotes,
            k,
            now,
        ) && match self.trusted_remotes.get(k) {
            Some(s) => s.is_server_discovery_enabled(now),
            None => false,
        }
    }

    /// The trusted peers in ascending order.
    pub fn trusted_keys(&self) -> (r: Vec<PublicKey>)
        requires
            self.wf(),
        ensures
            self@.trusts_exactly(key_views(r@)),
            forall|i: int, j: int|
                0 <= i < j < r@.len() ==> key_lt(
                    (#[trigger] r@[i])@,
                    (#[trigger] r@[j])@,
                ),
    {
        proof {
            self.trusted_remotes.keys_are_domain();
        }
        let ghost order = self.trusted_remotes.keys();
        let n: usize = self.trusted_remotes.len();
        let mut r: Vec<PublicKey> = Vec::new();
        let mut i: usize = 0;
        while i < n
            invariant
                i <= n == order.len(),
                order == self.trusted_remotes.keys(),
                key_views(r@) == order.take(i as int),
            decreases n - i,
        {
            let ghost before = key_views(r@);
            r.push(self.trusted_remotes.key_at(i));
            assert(key_views(r@) =~= before.push(order[i as int]));
            assert(order.take(i + 1) =~= order.take(i as int).push(order[i as int]));
            i = i + 1;
        }
        proof {
            assert(order.take(n as int) =~= order);
            assert forall|a: int, b: int| 0 <= a < b < r@.len() implies key_lt(
                (#[trigger] r@[a])@,
                (#[trigger] r@[b])@,
            ) by {
                assert(key_views(r@)[a] == order[a]);
                assert(key_views(r@)[b] == order[b]);
            }
        }
        r
    }

    /// Picks the client to greet from those that were found in the local network: of the trusted
    /// and accepted peers among them the one that was found last, and of several peers with the
    /// same disguise the last.
    pub fn pick_discovered(
        &self,
        discovered: &Vec<Discovered>,
        disguises: &Vec<Disguise>,
        now: Instant,
    ) -> (r: Option<(SocketAddrV4, PublicKey)>)
        requires
            self.wf(),
        ensures
            match r {
                None => self@.recognises_none(discovered@, disguises@, now),
                Some((addr, k)) => exists|i: int, n: int|
                    #![trigger self@.recognises(discovered@, disguises@, i, n, now)]
                    self@.recognises(discovered@, disguises@, i, n, now) && addr == discovered@[i].0
                        && k == disguises@[n].0 && forall|i2: int, n2: int|
                        self@.recognises(discovered@, disguises@, i2, n2, now) ==> i2 < i || (i2
                            == i && n2 <= n),
            },
    {
        let ghost d = discovered@;
        let ghost g = disguises@;
        let mut i: usize = discovered.len();
        while i > 0
            invariant
                self.wf(),
                d == discovered@,
                g == disguises@,
                i <= d.len(),
                forall|i2: int, n2: int| i2 >= i ==> !self@.recognises(d, g, i2, n2, now),
            decreases i,
        {
            i = i - 1;
            let mut n: usize = disguises.len();
            while n > 0
                invariant
                    self.wf(),
                    d == discovered@,
                    g == disguises@,
                    i < d.len(),
                    n <= g.len(),
                    forall|i2: int, n2: int| i2 > i ==> !self@.recognises(d, g, i2, n2, now),
                    forall|n2: int| n2 >= n ==> !self@.recognises(d, g, i as int, n2, now),
                decreases n,
            {
                n = n - 1;
                if key_equal(&discovered[i].1, &disguises[n].1) && self.accepts_local_connection(
                    &disguises[n].0,
                    now,
                ) {
                    assert(self@.recognises(d, g, i as int, n as int, now));
                    return Some((discovered[i].0, disguises[n].0));
                }
            }
        }
        None
    }

    /// The greeting to send to a peer that was found in the local network.
    pub fn discovery_hello(&self) -> (r: Vec<u8>)
        ensures
            r@ == hello_bytes(ed25519_public_key(self@.key)),
            hello_sender(r@) == Some(ed25519_public_key(self@.key)),
    {
        let pubkey = public_key_of(&self.key);
        proof {
            hello_round_trip(pubkey@);
        }
        write_hello(&pubkey)
    }

    /// The peer whose greeting `msg` is, if a connection to it is accepted.
    pub fn on_local_datagram(&self, msg: &[u8], now: Instant) -> (r: Option<PublicKey>)
        requires
            self.wf(),
        ensures
            match r {
                Some(k) => hello_sender(msg@) == Some(k@) && self@.accepts_local(k@, now),
                None => hello_sender(msg@) matches Some(k) ==> !self@.accepts_local(k, now),
            },
    {
        match read_hello(msg) {
            Some(k) => if self.accepts_local_connection(&k, now) {
                Some(k)
            } else {
                None
            },
            None => None,
        }
    }
}

} // verus!
