//! What the matching of connection requests comes to, in terms of the requests that wait, their
//! ages and the notices that are sent.
use vstd::prelude::*;
use crate::keys::{key_views, PublicKey};
use crate::net::SocketAddrV4;
use crate::server::udp::{asks_for, cleaned, introduction_is_mutual, is_live, is_partner, mail_view};
use crate::server::udp::{placed, same_ip_mail, search, search_finds_first_partner};
use crate::server::udp::{search_mail_is_on_equal_addresses, search_reports_same_ip};
use crate::server::udp::{RequestView, UdpState};
use crate::time::Instant;
use crate::udp::messages::ConnectionRequestView;
use crate::udp::notices::{NoticeView, ServerNotice};

verus! {

/// A clean-up keeps exactly the requests that name a peer and are less than 11 seconds old, if
/// there is such a request, and all of them if there is none. It changes no request.
pub proof fn cleanup_goes_by_age(
    requests: Map<Seq<u8>, RequestView>,
    now: Instant,
    live: Seq<u8>,
    k: Seq<u8>,
)
    ensures
        requests.contains_key(live) && requests[live].trusted_remotes.len() > 0 && now
            - requests[live].tm < 11_000_000_000 ==> (cleaned(requests, now).contains_key(k) <==> {
            &&& requests.contains_key(k)
            &&& requests[k].trusted_remotes.len() > 0
            &&& now - requests[k].tm < 11_000_000_000
        }),
        (forall|q: Seq<u8>| #[trigger]
            requests.contains_key(q) ==> requests[q].trusted_remotes.len() == 0 || now
                - requests[q].tm >= 11_000_000_000) ==> cleaned(requests, now) == requests,
        cleaned(requests, now).contains_key(k) ==> requests.contains_key(k) && cleaned(
            requests,
            now,
        )[k] == requests[k],
{
    if requests.contains_key(live) && requests[live].trusted_remotes.len() > 0 && now
        - requests[live].tm < 11_000_000_000 {
        assert(is_live(requests[live], now));
    }
}

/// Cleaning up the server does what `cleanup_goes_by_age` says, and forgets no session.
pub proof fn server_cleans_up_by_age(s: &mut UdpState, now: Instant, live: Seq<u8>, k: Seq<u8>)
    requires
        call_ensures(UdpState::cleanup, (s, now), ()),
        old(s)@.requests.contains_key(live),
        old(s)@.requests[live].trusted_remotes.len() > 0,
        now - old(s)@.requests[live].tm < 11_000_000_000,
    ensures
        final(s)@.requests.contains_key(k) <==> {
            &&& old(s)@.requests.contains_key(k)
            &&& old(s)@.requests[k].trusted_remotes.len() > 0
            &&& now - old(s)@.requests[k].tm < 11_000_000_000
        },
        final(s)@.requests.contains_key(k) ==> final(s)@.requests[k] == old(s)@.requests[k],
        final(s)@.sessions == old(s)@.sessions,
{
    cleanup_goes_by_age(old(s)@.requests, now, live, k);
}

/// Cleaning up changes nothing while no request names a peer and is less than 11 seconds old. A
/// server starts without requests and sessions.
pub proof fn server_keeps_old_requests_among_themselves(
    s: &mut UdpState,
    now: Instant,
    first: UdpState,
    k: Seq<u8>,
)
    requires
        call_ensures(UdpState::cleanup, (s, now), ()),
        forall|q: Seq<u8>| #[trigger]
            old(s)@.requests.contains_key(q) ==> old(s)@.requests[q].trusted_remotes.len() == 0
                || now - old(s)@.requests[q].tm >= 11_000_000_000,
        call_ensures(UdpState::new, (), first),
    ensures
        final(s)@ == old(s)@,
        !first@.requests.contains_key(k),
        !first@.sessions.contains_key(k),
{
    cleanup_goes_by_age(old(s)@.requests, now, k, k);
}

/// If some waiting request names a peer and is less than 11 seconds old, no older request waits
/// after a connection request, and nobody is told of a peer whose request is older, or gets mail
/// for such a request.
pub proof fn old_requests_do_not_count(
    s: &mut UdpState,
    sender: PublicKey,
    addr: SocketAddrV4,
    peers: Vec<PublicKey>,
    session_id: u32,
    now: Instant,
    mail: Vec<(SocketAddrV4, ServerNotice)>,
    live: Seq<u8>,
    k: Seq<u8>,
    i: int,
)
    requires
        call_ensures(
            UdpState::on_connection_request,
            (s, sender, addr, peers, session_id, now),
            mail,
        ),
        old(s)@.requests.contains_key(live),
        old(s)@.requests[live].trusted_remotes.len() > 0,
        now - old(s)@.requests[live].tm < 11_000_000_000,
    ensures
        final(s)@.requests.contains_key(k) ==> now - final(s)@.requests[k].tm < 11_000_000_000,
        0 <= i < mail@.len() ==> (
        mail@[i].1 matches ServerNotice::InitiateConnectionRequest { peer_pubkey, .. } ==> {
            ||| peer_pubkey@ == sender@
            ||| old(s)@.requests.contains_key(peer_pubkey@) && now
                - old(s)@.requests[peer_pubkey@].tm < 11_000_000_000
        }),
        0 <= i < mail@.len() ==> (mail@[i].1 matches ServerNotice::ErrorSameIp { peer_pubkey } ==> {
            ||| peer_pubkey@ == sender@
            ||| old(s)@.requests.contains_key(peer_pubkey@) && now
                - old(s)@.requests[peer_pubkey@].tm < 11_000_000_000
        }),
        0 <= i < mail@.len() ==> mail@[i].0 == addr || exists|q: Seq<u8>| #[trigger]
            old(s)@.requests.contains_key(q) && old(s)@.requests[q].addr == mail@[i].0 && now
                - old(s)@.requests[q].tm < 11_000_000_000,
{
    let before = old(s)@;
    let request = ConnectionRequestView { peer_pubkeys: key_views(peers@), session_id };
    let m = placed(before, sender@, addr, request, now).1;
    assert(m == mail_view(mail@));
    if 0 <= i < mail@.len() {
        assert(m[i] == (mail@[i].0, mail@[i].1@));
    }
    assert forall|q: Seq<u8>| cleaned(before.requests, now).contains_key(q) implies now
        - #[trigger] before.requests[q].tm < 11_000_000_000 by {
        cleanup_goes_by_age(before.requests, now, live, q);
    }
    cleanup_goes_by_age(before.requests, now, live, k);
    let waiting = cleaned(before.requests, now).remove(sender@);
    let keys = request.peer_pubkeys;
    let result = search(waiting, keys, sender@, addr);
    search_finds_first_partner(waiting, keys, sender@, addr);
    if 0 <= i < mail@.len() && !(before.sessions.contains_key(sender@)
        && before.sessions[sender@].session_id == session_id) {
        if i < result.mail.len() {
            assert(m[i] == result.mail[i]);
            let x = i / 2;
            search_mail_in_pairs(waiting, keys, sender@, addr, x, x);
            let q = choose|q: Seq<u8>| #[trigger]
                asks_for(waiting, q, sender@) && keys.contains(q) && waiting[q].addr.ip == addr.ip
                    && result.mail[2 * x] == same_ip_mail(q, waiting[q].addr, sender@, addr)[0]
                    && result.mail[2 * x + 1] == same_ip_mail(
                    q,
                    waiting[q].addr,
                    sender@,
                    addr,
                )[1];
            assert(cleaned(before.requests, now).contains_key(q));
            assert(before.requests.contains_key(q));
        } else {
            let (peer, other) = result.found->0;
            assert(cleaned(before.requests, now).contains_key(peer));
            assert(before.requests.contains_key(peer));
        }
    }
}

/// The notices of a search come in pairs, one pair for each of certain listed peers that ask for
/// the sender from the same IP address: that peer is told of the sender, and the sender of it.
proof fn search_mail_in_pairs(
    requests: Map<Seq<u8>, RequestView>,
    peers: Seq<Seq<u8>>,
    sender: Seq<u8>,
    addr: SocketAddrV4,
    x: int,
    y: int,
)
    ensures
        ({
            let mail = search(requests, peers, sender, addr).mail;
            &&& mail.len() % 2 == 0
            &&& 0 <= 2 * x < mail.len() ==> exists|q: Seq<u8>| #[trigger]
                asks_for(requests, q, sender) && peers.contains(q) && requests[q].addr.ip == addr.ip
                    && mail[2 * x] == same_ip_mail(q, requests[q].addr, sender, addr)[0] && mail[2
                    * x + 1] == same_ip_mail(q, requests[q].addr, sender, addr)[1]
            &&& 0 <= 2 * x < 2 * y < mail.len() ==> mail[2 * x + 1] != mail[2 * y + 1]
        }),
    decreases peers.len(),
{
    if peers.len() > 0 {
        let peer = peers[0];
        let tail = peers.skip(1);
        let mail = search(requests, peers, sender, addr).mail;
        let asked = asks_for(requests, peer, sender);
        let left = if asked {
            requests.remove(peer)
        } else {
            requests
        };
        let n: int = if asked {
            1
        } else {
            0
        };
        assert(peers.contains(peer));
        if !is_partner(requests, peer, sender, addr) {
            let rest = search(left, tail, sender, addr).mail;
            search_mail_in_pairs(left, tail, sender, addr, x - n, y - n);
            assert forall|z: int| 0 <= z < rest.len() implies mail[z + 2 * n] == rest[z] by {}
            if 0 <= 2 * x < mail.len() {
                if x >= n {
                    let q = choose|q: Seq<u8>| #[trigger]
                        asks_for(left, q, sender) && tail.contains(q) && left[q].addr.ip == addr.ip
                            && rest[2 * (x - n)] == same_ip_mail(q, left[q].addr, sender, addr)[0]
                            && rest[2 * (x - n) + 1] == same_ip_mail(
                            q,
                            left[q].addr,
                            sender,
                            addr,
                        )[1];
                    let j = choose|j: int| 0 <= j < tail.len() && tail[j] == q;
                    assert(peers[j + 1] == q);
                    assert(asks_for(requests, q, sender));
                } else {
                    assert(asks_for(requests, peer, sender));
                }
            }
            if 0 <= 2 * x < 2 * y < mail.len() && x < n {
                search_mail_in_pairs(left, tail, sender, addr, y - n, y - n);
                let q = choose|q: Seq<u8>| #[trigger]
                    asks_for(left, q, sender) && tail.contains(q) && left[q].addr.ip == addr.ip
                        && rest[2 * (y - n)] == same_ip_mail(q, left[q].addr, sender, addr)[0]
                        && rest[2 * (y - n) + 1] == same_ip_mail(q, left[q].addr, sender, addr)[1];
                assert(q != peer);
            }
        }
    }
}

/// Which requests are left after a search that looked at the first `n` peers: all but those of
/// peers among them that ask for the sender.
proof fn search_takes_asking_peers(
    requests: Map<Seq<u8>, RequestView>,
    peers: Seq<Seq<u8>>,
    sender: Seq<u8>,
    addr: SocketAddrV4,
    n: int,
    k: Seq<u8>,
)
    requires
        0 <= n <= peers.len(),
        forall|i: int| 0 <= i < n - 1 ==> !is_partner(requests, #[trigger] peers[i], sender, addr),
        if n == peers.len() {
            true
        } else {
            n > 0 && is_partner(requests, peers[n - 1], sender, addr)
        },
    ensures
        search(requests, peers, sender, addr).requests.contains_key(k) <==> requests.contains_key(k)
            && !(asks_for(requests, k, sender) && peers.take(n).contains(k)),
    decreases peers.len(),
{
    if peers.len() > 0 {
        let peer = peers[0];
        let tail = peers.skip(1);
        let looked = peers.take(n);
        assert(looked[0] == peer);
        assert(looked.contains(peer));
        let left = if asks_for(requests, peer, sender) {
            requests.remove(peer)
        } else {
            requests
        };
        if is_partner(requests, peer, sender, addr) {
            assert(n == 1);
            if looked.contains(k) {
                let i = choose|i: int| 0 <= i < looked.len() && looked[i] == k;
                assert(i == 0);
            }
        } else {
            assert forall|i: int| 0 <= i < n - 2 implies !is_partner(
                left,
                #[trigger] tail[i],
                sender,
                addr,
            ) by {
                assert(tail[i] == peers[i + 1]);
            }
            if n < peers.len() {
                assert(tail[n - 2] == peers[n - 1]);
                assert(peers[n - 1] != peer);
            }
            search_takes_asking_peers(left, tail, sender, addr, n - 1, k);
            let rest = tail.take(n - 1);
            if rest.contains(k) {
                let i = choose|i: int| 0 <= i < rest.len() && rest[i] == k;
                assert(looked[i + 1] == k);
            }
            if looked.contains(k) && k != peer {
                let i = choose|i: int| 0 <= i < looked.len() && looked[i] == k;
                assert(rest[i - 1] == k);
            }
        }
    }
}

/// A request that comes in with an unused session is matched with the first listed peer that waits
/// at another IP address with a request for the sender that is less than 11 seconds old, or that is
/// older while no younger one names a peer: the two are introduced to each other, with the addresses
/// and sessions of their requests, and the sender is to listen. Neither waits any longer, and their
/// sessions are used up. Requests of listed peers before that one are gone if they ask for the
/// sender, and other requests stay.
pub proof fn partners_are_introduced(
    s: &mut UdpState,
    sender: PublicKey,
    addr: SocketAddrV4,
    peers: Vec<PublicKey>,
    session_id: u32,
    now: Instant,
    mail: Vec<(SocketAddrV4, ServerNotice)>,
    lively: bool,
    j: int,
    k: Seq<u8>,
)
    requires
        call_ensures(
            UdpState::on_connection_request,
            (s, sender, addr, peers, session_id, now),
            mail,
        ),
        !(old(s)@.sessions.contains_key(sender@) && old(s)@.sessions[sender@].session_id
            == session_id),
        0 <= j < peers@.len(),
        peers@[j]@ != sender@,
        old(s)@.requests.contains_key(peers@[j]@),
        old(s)@.requests[peers@[j]@].trusted_remotes.contains(sender@),
        old(s)@.requests[peers@[j]@].addr.ip != addr.ip,
        lively ==> now - old(s)@.requests[peers@[j]@].tm < 11_000_000_000,
        !lively ==> forall|q: Seq<u8>| #[trigger]
            old(s)@.requests.contains_key(q) ==> old(s)@.requests[q].trusted_remotes.len() == 0
                || now - old(s)@.requests[q].tm >= 11_000_000_000,
        forall|i: int|
            0 <= i < j ==> {
                let q = (#[trigger] peers@[i])@;
                ||| q == sender@
                ||| !old(s)@.requests.contains_key(q)
                ||| !old(s)@.requests[q].trusted_remotes.contains(sender@)
                ||| old(s)@.requests[q].addr.ip == addr.ip
                ||| lively && now - old(s)@.requests[q].tm >= 11_000_000_000
            },
    ensures
        ({
            let peer = peers@[j]@;
            let other = old(s)@.requests[peer];
            let n = mail@.len();
            &&& n >= 2
            &&& mail@[n - 2].0 == other.addr
            &&& mail@[n - 2].1@ == (NoticeView::InitiateConnectionRequest {
                peer_pubkey: sender@,
                peer_address: addr,
                remote_session_id: session_id,
                is_listener: false,
            })
            &&& mail@[n - 1].0 == addr
            &&& mail@[n - 1].1@ == (NoticeView::InitiateConnectionRequest {
                peer_pubkey: peer,
                peer_address: other.addr,
                remote_session_id: other.session_id,
                is_listener: true,
            })
            &&& forall|i: int| 0 <= i < n - 2 ==> (#[trigger] mail@[i]).1 is ErrorSameIp
            &&& !final(s)@.requests.contains_key(sender@)
            &&& !final(s)@.requests.contains_key(peer)
            &&& final(s)@.sessions.contains_key(sender@)
            &&& final(s)@.sessions[sender@].session_id == session_id
            &&& final(s)@.sessions[sender@].remote_addr == other.addr
            &&& final(s)@.sessions[sender@].remote_peer == peer
            &&& final(s)@.sessions.contains_key(peer)
            &&& final(s)@.sessions[peer].session_id == other.session_id
            &&& final(s)@.sessions[peer].remote_addr == addr
            &&& final(s)@.sessions[peer].remote_peer == sender@
            &&& k != sender@ && k != peer ==> {
                &&& final(s)@.sessions.contains_key(k) <==> old(s)@.sessions.contains_key(k)
                &&& final(s)@.sessions[k] == old(s)@.sessions[k]
            }
            &&& k != sender@ && old(s)@.requests.contains_key(k) && (!lively || now
                - old(s)@.requests[k].tm < 11_000_000_000 && old(s)@.requests[k].trusted_remotes.len()
                > 0) ==> (
            final(s)@.requests.contains_key(k) <==> !(old(s)@.requests[k].trusted_remotes.contains(
                sender@,
            ) && exists|i: int| 0 <= i <= j && (#[trigger] peers@[i])@ == k))
        }),
{
    let before = old(s)@;
    let keys = key_views(peers@);
    let request = ConnectionRequestView { peer_pubkeys: keys, session_id };
    let waiting = cleaned(before.requests, now).remove(sender@);
    let peer = peers@[j]@;
    let m = placed(before, sender@, addr, request, now).1;
    assert(m == mail_view(mail@));
    assert forall|i: int| 0 <= i < mail@.len() implies m[i] == (mail@[i].0, (#[trigger] mail@[i]).1@) by {}
    cleanup_goes_by_age(before.requests, now, peer, peer);
    cleanup_goes_by_age(before.requests, now, peer, k);
    assert(waiting[peer] == before.requests[peer]);
    assert(is_partner(waiting, keys[j], sender@, addr));
    assert forall|i: int| 0 <= i < j implies !is_partner(waiting, #[trigger] keys[i], sender@, addr) by {
        cleanup_goes_by_age(before.requests, now, peer, peers@[i]@);
    }
    search_finds_first_partner(waiting, keys, sender@, addr);
    let result = search(waiting, keys, sender@, addr);
    let (found, _) = result.found->0;
    let at = choose|i: int|
        0 <= i < keys.len() && #[trigger] keys[i] == found && forall|x: int|
            0 <= x < i ==> !is_partner(waiting, #[trigger] keys[x], sender@, addr);
    assert(at == j);
    introduction_is_mutual(before, sender@, addr, request, now, peer);
    assert forall|i: int| 0 <= i < mail@.len() - 2 implies (#[trigger] mail@[i]).1 is ErrorSameIp by {
        search_mail_is_on_equal_addresses(waiting, keys, sender@, addr, i);
        assert(m[i] == result.mail[i]);
    }
    search_takes_asking_peers(waiting, keys, sender@, addr, j + 1, k);
    let looked = keys.take(j + 1);
    if looked.contains(k) {
        let i = choose|i: int| 0 <= i < looked.len() && looked[i] == k;
        assert(peers@[i]@ == k);
    }
    assert forall|i: int| 0 <= i <= j && (#[trigger] peers@[i])@ == k implies looked.contains(k) by {
        assert(looked[i] == k);
    }
}

/// A request with an unused session for which no listed peer counts waits from now on, with what it
/// brought, in the place of any earlier one of its sender. Nobody is introduced, and no session is
/// used up. A listed peer counts if it waits at another IP address with a request for the sender,
/// unless that is 11 seconds old or older while some request is younger and names a peer. Requests
/// of listed peers that ask for the sender are gone.
pub proof fn unmatched_request_waits(
    s: &mut UdpState,
    sender: PublicKey,
    addr: SocketAddrV4,
    peers: Vec<PublicKey>,
    session_id: u32,
    now: Instant,
    mail: Vec<(SocketAddrV4, ServerNotice)>,
    live: Seq<u8>,
    i: int,
    j: int,
)
    requires
        call_ensures(
            UdpState::on_connection_request,
            (s, sender, addr, peers, session_id, now),
            mail,
        ),
        !(old(s)@.sessions.contains_key(sender@) && old(s)@.sessions[sender@].session_id
            == session_id),
        forall|x: int|
            0 <= x < peers@.len() ==> {
                let q = (#[trigger] peers@[x])@;
                ||| q == sender@
                ||| !old(s)@.requests.contains_key(q)
                ||| !old(s)@.requests[q].trusted_remotes.contains(sender@)
                ||| old(s)@.requests[q].addr.ip == addr.ip
                ||| {
                    &&& now - old(s)@.requests[q].tm >= 11_000_000_000
                    &&& old(s)@.requests.contains_key(live)
                    &&& old(s)@.requests[live].trusted_remotes.len() > 0
                    &&& now - old(s)@.requests[live].tm < 11_000_000_000
                }
            },
    ensures
        final(s)@.requests.contains_key(sender@),
        final(s)@.requests[sender@].pubkey == sender@,
        final(s)@.requests[sender@].addr == addr,
        final(s)@.requests[sender@].session_id == session_id,
        final(s)@.requests[sender@].tm == now,
        final(s)@.requests[sender@].trusted_remotes.len() == peers@.len(),
        0 <= j < peers@.len() ==> final(s)@.requests[sender@].trusted_remotes[j] == peers@[j]@,
        final(s)@.sessions == old(s)@.sessions,
        0 <= i < mail@.len() ==> mail@[i].1 is ErrorSameIp,
        0 <= j < peers@.len() && peers@[j]@ != sender@ ==> !(final(s)@.requests.contains_key(
            peers@[j]@,
        ) && final(s)@.requests[peers@[j]@].trusted_remotes.contains(sender@)),
{
    let before = old(s)@;
    let keys = key_views(peers@);
    let request = ConnectionRequestView { peer_pubkeys: keys, session_id };
    let waiting = cleaned(before.requests, now).remove(sender@);
    let m = placed(before, sender@, addr, request, now).1;
    assert(m == mail_view(mail@));
    assert forall|x: int| 0 <= x < keys.len() implies !is_partner(
        waiting,
        #[trigger] keys[x],
        sender@,
        addr,
    ) by {
        assert(peers@[x]@ == keys[x]);
        cleanup_goes_by_age(before.requests, now, live, keys[x]);
    }
    search_finds_first_partner(waiting, keys, sender@, addr);
    let result = search(waiting, keys, sender@, addr);
    assert(result.found is None);
    if 0 <= i < mail@.len() {
        assert(m[i] == (mail@[i].0, mail@[i].1@));
        search_mail_is_on_equal_addresses(waiting, keys, sender@, addr, i);
    }
    if 0 <= j < peers@.len() {
        assert(!asks_for(result.requests, keys[j], sender@));
    }
}

/// A waiting request stays as it is when someone else's request comes in, if it does not name that
/// sender or its sender is not listed, and it names a peer and is less than 11 seconds old, or
/// no request that names a peer is. No request of anybody but the sender is added or changed.
pub proof fn bystanders_keep_waiting(
    s: &mut UdpState,
    sender: PublicKey,
    addr: SocketAddrV4,
    peers: Vec<PublicKey>,
    session_id: u32,
    now: Instant,
    mail: Vec<(SocketAddrV4, ServerNotice)>,
    k: Seq<u8>,
)
    requires
        call_ensures(
            UdpState::on_connection_request,
            (s, sender, addr, peers, session_id, now),
            mail,
        ),
        k != sender@,
    ensures
        old(s)@.requests.contains_key(k) && (!old(s)@.requests[k].trusted_remotes.contains(sender@)
            || forall|i: int| 0 <= i < peers@.len() ==> (#[trigger] peers@[i])@ != k) && ((now
            - old(s)@.requests[k].tm < 11_000_000_000 && old(s)@.requests[k].trusted_remotes.len()
            > 0) || forall|q: Seq<u8>| #[trigger]
            old(s)@.requests.contains_key(q) ==> old(s)@.requests[q].trusted_remotes.len() == 0
                || now - old(s)@.requests[q].tm >= 11_000_000_000)
            ==> final(s)@.requests.contains_key(k),
        final(s)@.requests.contains_key(k) ==> old(s)@.requests.contains_key(k)
            && final(s)@.requests[k] == old(s)@.requests[k],
{
    let before = old(s)@;
    let keys = key_views(peers@);
    let waiting = cleaned(before.requests, now).remove(sender@);
    cleanup_goes_by_age(before.requests, now, k, k);
    search_finds_first_partner(waiting, keys, sender@, addr);
    let listed = exists|i: int| 0 <= i < peers@.len() && (#[trigger] peers@[i])@ == k;
    if keys.contains(k) {
        let i = choose|i: int| 0 <= i < keys.len() && keys[i] == k;
        assert(peers@[i]@ == k);
        assert(listed);
    }
    let counts = cleaned(before.requests, now).contains_key(k);
    if counts && !(listed && before.requests[k].trusted_remotes.contains(sender@)) {
        assert(waiting.contains_key(k));
        assert(search(waiting, keys, sender@, addr).requests.contains_key(k));
        assert(final(s)@.requests.contains_key(k));
    }
}

/// The notices on equal IP addresses come in pairs, one for each of some listed peers that wait at
/// the sender's IP address with a request for the sender: that peer is told of the sender, and
/// after that the sender of that peer, once.
pub proof fn equal_addresses_are_reported_in_pairs(
    s: &mut UdpState,
    sender: PublicKey,
    addr: SocketAddrV4,
    peers: Vec<PublicKey>,
    session_id: u32,
    now: Instant,
    mail: Vec<(SocketAddrV4, ServerNotice)>,
    x: int,
    y: int,
)
    requires
        call_ensures(
            UdpState::on_connection_request,
            (s, sender, addr, peers, session_id, now),
            mail,
        ),
        0 <= 2 * x < mail@.len(),
        mail@[2 * x].1 is ErrorSameIp,
    ensures
        2 * x + 1 < mail@.len(),
        mail@[2 * x].1@ == (NoticeView::ErrorSameIp { peer_pubkey: sender@ }),
        exists|i: int|
            0 <= i < peers@.len() && {
                let q = (#[trigger] peers@[i])@;
                &&& q != sender@
                &&& old(s)@.requests.contains_key(q)
                &&& old(s)@.requests[q].trusted_remotes.contains(sender@)
                &&& old(s)@.requests[q].addr.ip == addr.ip
                &&& mail@[2 * x].0 == old(s)@.requests[q].addr
                &&& mail@[2 * x + 1].0 == addr
                &&& mail@[2 * x + 1].1@ == (NoticeView::ErrorSameIp { peer_pubkey: q })
            },
        x < y && 2 * y + 1 < mail@.len() ==> mail@[2 * x + 1].1@ != mail@[2 * y + 1].1@,
{
    let before = old(s)@;
    let keys = key_views(peers@);
    let request = ConnectionRequestView { peer_pubkeys: keys, session_id };
    let waiting = cleaned(before.requests, now).remove(sender@);
    let m = placed(before, sender@, addr, request, now).1;
    let result = search(waiting, keys, sender@, addr);
    assert(m == mail_view(mail@));
    assert forall|i: int| 0 <= i < mail@.len() implies m[i] == (mail@[i].0, (#[trigger] mail@[i]).1@) by {}
    search_mail_in_pairs(waiting, keys, sender@, addr, x, y);
    assert(m[2 * x] == (mail@[2 * x].0, mail@[2 * x].1@));
    assert(!(before.sessions.contains_key(sender@) && before.sessions[sender@].session_id
        == session_id));
    assert(2 * x < result.mail.len());
    let q = choose|q: Seq<u8>| #[trigger]
        asks_for(waiting, q, sender@) && keys.contains(q) && waiting[q].addr.ip == addr.ip
            && result.mail[2 * x] == same_ip_mail(q, waiting[q].addr, sender@, addr)[0]
            && result.mail[2 * x + 1] == same_ip_mail(q, waiting[q].addr, sender@, addr)[1];
    let i = choose|i: int| 0 <= i < keys.len() && keys[i] == q;
    assert(peers@[i]@ == q);
    assert(m[2 * x] == result.mail[2 * x]);
    assert(m[2 * x + 1] == result.mail[2 * x + 1]);
    if x < y && 2 * y + 1 < mail@.len() {
        assert(m[2 * y + 1] == (mail@[2 * y + 1].0, mail@[2 * y + 1].1@));
        if 2 * y < result.mail.len() {
            search_mail_in_pairs(waiting, keys, sender@, addr, y, y);
            let z = choose|z: Seq<u8>| #[trigger]
                asks_for(waiting, z, sender@) && keys.contains(z) && waiting[z].addr.ip == addr.ip
                    && result.mail[2 * y] == same_ip_mail(z, waiting[z].addr, sender@, addr)[0]
                    && result.mail[2 * y + 1] == same_ip_mail(
                    z,
                    waiting[z].addr,
                    sender@,
                    addr,
                )[1];
            assert(m[2 * y + 1] == result.mail[2 * y + 1]);
        }
    }
}

/// A listed peer that waits at the sender's IP address with a request for the sender, less than 11
/// seconds old, or older while no younger one names a peer, is told of the sender, and the sender of
/// it, if the session is unused and no listed peer before it is introduced to the sender.
pub proof fn equal_addresses_are_reported(
    s: &mut UdpState,
    sender: PublicKey,
    addr: SocketAddrV4,
    peers: Vec<PublicKey>,
    session_id: u32,
    now: Instant,
    mail: Vec<(SocketAddrV4, ServerNotice)>,
    lively: bool,
    j: int,
)
    requires
        call_ensures(
            UdpState::on_connection_request,
            (s, sender, addr, peers, session_id, now),
            mail,
        ),
        !(old(s)@.sessions.contains_key(sender@) && old(s)@.sessions[sender@].session_id
            == session_id),
        0 <= j < peers@.len(),
        peers@[j]@ != sender@,
        old(s)@.requests.contains_key(peers@[j]@),
        old(s)@.requests[peers@[j]@].trusted_remotes.contains(sender@),
        old(s)@.requests[peers@[j]@].addr.ip == addr.ip,
        lively ==> now - old(s)@.requests[peers@[j]@].tm < 11_000_000_000,
        !lively ==> forall|q: Seq<u8>| #[trigger]
            old(s)@.requests.contains_key(q) ==> old(s)@.requests[q].trusted_remotes.len() == 0
                || now - old(s)@.requests[q].tm >= 11_000_000_000,
        forall|i: int|
            0 <= i < j ==> {
                let q = (#[trigger] peers@[i])@;
                ||| q == sender@
                ||| !old(s)@.requests.contains_key(q)
                ||| !old(s)@.requests[q].trusted_remotes.contains(sender@)
                ||| old(s)@.requests[q].addr.ip == addr.ip
                ||| lively && now - old(s)@.requests[q].tm >= 11_000_000_000
            },
    ensures
        exists|x: int|
            0 <= x < mail@.len() && (#[trigger] mail@[x]).0 == old(s)@.requests[peers@[j]@].addr
                && mail@[x].1@ == (NoticeView::ErrorSameIp { peer_pubkey: sender@ }),
        exists|x: int|
            0 <= x < mail@.len() && (#[trigger] mail@[x]).0 == addr && mail@[x].1@ == (
            NoticeView::ErrorSameIp { peer_pubkey: peers@[j]@ }),
        !final(s)@.requests.contains_key(peers@[j]@),
{
    let before = old(s)@;
    let keys = key_views(peers@);
    let request = ConnectionRequestView { peer_pubkeys: keys, session_id };
    let waiting = cleaned(before.requests, now).remove(sender@);
    let peer = peers@[j]@;
    let m = placed(before, sender@, addr, request, now).1;
    let result = search(waiting, keys, sender@, addr);
    assert(m == mail_view(mail@));
    assert forall|i: int| 0 <= i < mail@.len() implies m[i] == (mail@[i].0, (#[trigger] mail@[i]).1@) by {}
    cleanup_goes_by_age(before.requests, now, peer, peer);
    assert(waiting[peer] == before.requests[peer]);
    assert(keys[j] == peer);
    assert forall|i: int| 0 <= i < j implies !is_partner(waiting, #[trigger] keys[i], sender@, addr) by {
        assert(peers@[i]@ == keys[i]);
        cleanup_goes_by_age(before.requests, now, peer, keys[i]);
    }
    search_reports_same_ip(waiting, keys, sender@, addr, j);
    let both = same_ip_mail(peer, waiting[peer].addr, sender@, addr);
    let x = choose|x: int| 0 <= x < result.mail.len() && result.mail[x] == both[0];
    let y = choose|y: int| 0 <= y < result.mail.len() && result.mail[y] == both[1];
    assert(m[x] == both[0] && m[y] == both[1]);
    assert(mail@[x].0 == both[0].0 && mail@[y].0 == both[1].0);
    search_finds_first_partner(waiting, keys, sender@, addr);
    assert(!is_partner(waiting, keys[j], sender@, addr));
    if result.found is None {
        assert(!asks_for(result.requests, keys[j], sender@));
    } else {
        let (found, _) = result.found->0;
        let at = choose|i: int|
            0 <= i < keys.len() && #[trigger] keys[i] == found && forall|z: int|
                0 <= z < i ==> !is_partner(waiting, #[trigger] keys[z], sender@, addr);
        assert(at > j);
        search_takes_asking_peers(waiting, keys, sender@, addr, at + 1, peer);
        assert(keys.take(at + 1)[j] == peer);
    }
}

/// A request with the session with which its sender was last introduced is answered with the demand
/// for another one and with nothing else. No session is used up, and the sender waits no longer or
/// as before.
pub proof fn used_session_is_answered(
    s: &mut UdpState,
    sender: PublicKey,
    addr: SocketAddrV4,
    peers: Vec<PublicKey>,
    session_id: u32,
    now: Instant,
    mail: Vec<(SocketAddrV4, ServerNotice)>,
)
    requires
        call_ensures(
            UdpState::on_connection_request,
            (s, sender, addr, peers, session_id, now),
            mail,
        ),
        old(s)@.sessions.contains_key(sender@),
        old(s)@.sessions[sender@].session_id == session_id,
    ensures
        mail@.len() == 1,
        mail@[0].0 == addr,
        mail@[0].1@ == (NoticeView::NeedNewSession { old_session_id: session_id }),
        final(s)@.sessions == old(s)@.sessions,
        final(s)@.requests.contains_key(sender@) ==> old(s)@.requests.contains_key(sender@)
            && final(s)@.requests[sender@] == old(s)@.requests[sender@],
        old(s)@.requests.contains_key(sender@) && old(s)@.requests[sender@].trusted_remotes.len() > 0
            && now - old(s)@.requests[sender@].tm < 11_000_000_000
            ==> final(s)@.requests.contains_key(sender@),
{
    let request = ConnectionRequestView { peer_pubkeys: key_views(peers@), session_id };
    let m = placed(old(s)@, sender@, addr, request, now).1;
    assert(m == mail_view(mail@));
    assert(m.len() == 1);
    assert(m[0] == (mail@[0].0, mail@[0].1@));
    cleanup_goes_by_age(old(s)@.requests, now, sender@, sender@);
}

} // verus!
