//! The handshake that opens a path through the NATs of two peers.
//!
//! Both peers send `punch` packets to each other and answer each of them with `punch ack`. A peer
//! behind a symmetric NAT is seen under another port than the server reported, so answers go to
//! where a packet really came from.
use vstd::prelude::*;
use crate::net::SocketAddr;
use crate::time::Instant;
use crate::wire::bytes_equal;

verus! {

/// How long packets are exchanged, in nanoseconds: 500 ms.
pub const PUNCH_TIMEOUT: u64 = 500_000_000;

/// A punch packet is sent every so many milliseconds.
pub const PUNCH_INTERVAL_MS: u64 = 20;

/// How long packets that are still on their way are dropped, in nanoseconds: 200 ms.
pub const DRAIN_DURATION: u64 = 200_000_000;

/// How long the connection is left to settle, in milliseconds.
pub const SETTLE_MS: u64 = 200;

/// A punch packet: the letters of `punch`.
pub open spec fn punch_packet() -> Seq<u8> {
    seq![112u8, 117, 110, 99, 104]
}

/// The answer to a punch packet: the letters of `punch ack`.
pub open spec fn ack_packet() -> Seq<u8> {
    seq![112u8, 117, 110, 99, 104, 32, 97, 99, 107]
}

/// A punch packet.
pub fn make_punch() -> (r: Vec<u8>)
    ensures
        r@ == punch_packet(),
{
    let r: Vec<u8> = vec![112, 117, 110, 99, 104];
    assert(r@ =~= punch_packet());
    r
}

/// The answer to a punch packet.
pub fn make_ack() -> (r: Vec<u8>)
    ensures
        r@ == ack_packet(),
{
    let r: Vec<u8> = vec![112, 117, 110, 99, 104, 32, 97, 99, 107];
    assert(r@ =~= ack_packet());
    r
}

/// What was missing when a hole punch failed.
#[derive(Debug, Clone, Copy, PartialEq, Eq, Structural)]
pub struct HolePunchError {
    pub got_punch: bool,
    pub got_ack: bool,
}

impl HolePunchError {
    /// The error in words.
    pub open spec fn text(self) -> Seq<char> {
        if !self.got_ack && !self.got_punch {
            "Did not receive packets from client at all!"@
        } else if self.got_ack {
            "We got ack from client, but missed punch packet (strange)"@
        } else {
            "We got punch but did not receive ack"@
        }
    }

    /// The error in words.
    pub fn message(&self) -> (r: String)
        ensures
            r@ == self.text(),
    {
        if !self.got_ack && !self.got_punch {
            "Did not receive packets from client at all!".to_owned()
        } else if self.got_ack {
            "We got ack from client, but missed punch packet (strange)".to_owned()
        } else {
            "We got punch but did not receive ack".to_owned()
        }
    }
}

/// How far a hole punch has come.
#[derive(Debug, Clone, Copy, PartialEq, Eq, Structural)]
pub enum PunchPhase {
    /// Packets are exchanged until both kinds were received.
    Exchange,
    /// Packets that are still on their way are dropped.
    Drain { until: Instant },
    /// The connection settles.
    Settle,
}

/// What to do next in a hole punch.
#[derive(Debug, Clone, Copy, PartialEq, Eq, Structural)]
pub enum PunchAction {
    /// Send punch packets at their interval and wait for packets, until the deadline at most.
    Exchange { until: Instant },
    /// Receive and drop packets until the deadline.
    Drain { until: Instant },
    /// Wait for so many milliseconds.
    Settle { millis: u64 },
    /// The hole is punched: the peer is at this address.
    Done(SocketAddr),
    /// The hole punch failed.
    Failed(HolePunchError),
}

/// A hole punch in progress.
#[derive(Debug, Clone, Copy, PartialEq, Eq, Structural)]
pub struct HolePunch {
    /// Where packets are sent to.
    pub dst: SocketAddr,
    pub deadline: Instant,
    pub got_punch: bool,
    pub got_ack: bool,
    pub phase: PunchPhase,
}

impl HolePunch {
    /// Whether both kinds of packets were received.
    pub open spec fn both(self) -> bool {
        self.got_punch && self.got_ack
    }

    /// The hole punch after a packet came in, and the answer to it.
    pub open spec fn after_packet(self, from: SocketAddr, msg: Seq<u8>) -> (
        HolePunch,
        Option<(SocketAddr, Seq<u8>)>,
    ) {
        if self.phase != PunchPhase::Exchange {
            (self, None)
        } else if msg == punch_packet() {
            (HolePunch { dst: from, got_punch: true, ..self }, Some((from, ack_packet())))
        } else if msg == ack_packet() {
            (HolePunch { got_ack: true, ..self }, None)
        } else {
            (self, None)
        }
    }

    /// The hole punch at the time `now`, and what to do next.
    pub open spec fn at(self, now: Instant) -> (HolePunch, PunchAction) {
        match self.phase {
            PunchPhase::Exchange => if self.both() {
                let until = (now + DRAIN_DURATION) as u64;
                (HolePunch { phase: PunchPhase::Drain { until }, ..self }, PunchAction::Drain { until })
            } else if now >= self.deadline {
                (
                    self,
                    PunchAction::Failed(
                        HolePunchError { got_punch: self.got_punch, got_ack: self.got_ack },
                    ),
                )
            } else {
                (self, PunchAction::Exchange { until: self.deadline })
            },
            PunchPhase::Drain { until } => if now < until {
                (self, PunchAction::Drain { until })
            } else {
                (
                    HolePunch { phase: PunchPhase::Settle, ..self },
                    PunchAction::Settle { millis: SETTLE_MS },
                )
            },
            PunchPhase::Settle => (self, PunchAction::Done(self.dst)),
        }
    }

    /// Starts to punch a hole towards the address that was reported for the peer.
    pub fn new(peer: SocketAddr, now: Instant) -> (r: HolePunch)
        requires
            now + PUNCH_TIMEOUT <= u64::MAX,
        ensures
            r == started(peer, now),
    {
        HolePunch {
            dst: peer,
            deadline: now + PUNCH_TIMEOUT,
            got_punch: false,
            got_ack: false,
            phase: PunchPhase::Exchange,
        }
    }

    /// The packet to send at each interval while packets are exchanged, and where to.
    pub fn on_tick(&self) -> (r: (SocketAddr, Vec<u8>))
        ensures
            r.0 == self.dst,
            r.1@ == punch_packet(),
    {
        (self.dst, make_punch())
    }

    /// Takes in a packet. Returns the answer and where it goes.
    pub fn on_packet(&mut self, from: SocketAddr, msg: &[u8]) -> (r: Option<(SocketAddr, Vec<u8>)>)
        ensures
            *final(self) == old(self).after_packet(from, msg@).0,
            match r {
                Some((to, bytes)) => old(self).after_packet(from, msg@).1 == Some((to, bytes@)),
                None => old(self).after_packet(from, msg@).1 is None,
            },
    {
        match self.phase {
            PunchPhase::Exchange => {},
            _ => {
                return None;
            },
        }
        if bytes_equal(msg, make_punch().as_slice()) {
            self.dst = from;
            self.got_punch = true;
            Some((from, make_ack()))
        } else if bytes_equal(msg, make_ack().as_slice()) {
            self.got_ack = true;
            None
        } else {
            None
        }
    }

    /// Decides what to do next.
    pub fn poll(&mut self, now: Instant) -> (r: PunchAction)
        requires
            now + DRAIN_DURATION <= u64::MAX,
        ensures
            (*final(self), r) == old(self).at(now),
    {
        match self.phase {
            PunchPhase::Exchange => {
                if self.got_punch && self.got_ack {
                    let until: u64 = now + DRAIN_DURATION;
                    self.phase = PunchPhase::Drain { until };
                    PunchAction::Drain { until }
                } else if now >= self.deadline {
                    PunchAction::Failed(
                        HolePunchError { got_punch: self.got_punch, got_ack: self.got_ack },
                    )
                } else {
                    PunchAction::Exchange { until: self.deadline }
                }
            },
            PunchPhase::Drain { until } => {
                if now < until {
                    PunchAction::Drain { until }
                } else {
                    self.phase = PunchPhase::Settle;
                    PunchAction::Settle { millis: SETTLE_MS }
                }
            },
            PunchPhase::Settle => PunchAction::Done(self.dst),
        }
    }
}

/// What a hole punch goes through: a packet, or a look at the clock.
pub enum PunchEvent {
    Packet { from: SocketAddr, msg: Seq<u8> },
    Poll { now: Instant },
}

/// The hole punch after a number of events.
pub open spec fn after_events(h: HolePunch, events: Seq<PunchEvent>) -> HolePunch
    decreases events.len(),
{
    if events.len() == 0 {
        h
    } else {
        let before = after_events(h, events.drop_last());
        match events.last() {
            PunchEvent::Packet { from, msg } => before.after_packet(from, msg).0,
            PunchEvent::Poll { now } => before.at(now).0,
        }
    }
}

/// Whether a packet with the content `msg` is among the events.
pub open spec fn received(events: Seq<PunchEvent>, msg: Seq<u8>) -> bool {
    exists|i: int| 0 <= i < events.len() && has_content(#[trigger] events[i], msg)
}

/// Whether an event is a packet with the content `msg`.
pub open spec fn has_content(event: PunchEvent, msg: Seq<u8>) -> bool {
    event matches PunchEvent::Packet { msg: m, .. } && m == msg
}

/// The start of a hole punch.
pub open spec fn started(peer: SocketAddr, start: Instant) -> HolePunch {
    HolePunch {
        dst: peer,
        deadline: (start + PUNCH_TIMEOUT) as u64,
        got_punch: false,
        got_ack: false,
        phase: PunchPhase::Exchange,
    }
}

/// Whether the `i`-th event is a punch packet that came in while packets were exchanged.
pub open spec fn is_punch(h: HolePunch, events: Seq<PunchEvent>, i: int) -> bool {
    &&& 0 <= i < events.len()
    &&& has_content(events[i], punch_packet())
    &&& after_events(h, events.take(i)).phase == PunchPhase::Exchange
}

/// Whether the last punch packet that came in while packets were exchanged came from `from`.
pub open spec fn last_punch_from(h: HolePunch, events: Seq<PunchEvent>, from: SocketAddr) -> bool {
    exists|i: int| #[trigger]
        is_punch(h, events, i) && events[i]->from == from && forall|j: int|
            j > i ==> !#[trigger] is_punch(h, events, j)
}

/// A hole punch has seen a kind of packet exactly if one came in. It leaves the exchange only after
/// both kinds came in. It sends to where it started while it has seen no punch packet, and after
/// that to where the last one came from in the exchange, and it ends there.
pub proof fn punch_needs_both_packets(peer: SocketAddr, start: Instant, events: Seq<PunchEvent>)
    ensures
        ({
            let h = after_events(started(peer, start), events);
            &&& h.deadline == started(peer, start).deadline
            &&& h.got_punch <==> received(events, punch_packet())
            &&& h.got_ack <==> received(events, ack_packet())
            &&& h.got_punch ==> last_punch_from(started(peer, start), events, h.dst)
            &&& !h.got_punch ==> h.dst == peer
            &&& h.phase != PunchPhase::Exchange ==> h.both()
        }),
    decreases events.len(),
{
    if events.len() > 0 {
        let front = events.drop_last();
        let begin = started(peer, start);
        punch_needs_both_packets(peer, start, front);
        let before = after_events(begin, front);
        let h = after_events(begin, events);
        let n = events.len() - 1;
        packets_differ();
        received_by_the_last(events, punch_packet());
        received_by_the_last(events, ack_packet());
        assert(events.take(n) =~= front);
        assert forall|i: int| i != n implies is_punch(begin, events, i) == #[trigger] is_punch(
            begin,
            front,
            i,
        ) by {
            if 0 <= i < n {
                assert(events.take(i) =~= front.take(i));
            }
        }
        if is_punch(begin, events, n) {
            assert(events[n]->from == h.dst);
            assert(last_punch_from(begin, events, h.dst));
        } else if before.got_punch {
            let i = choose|i: int| #[trigger]
                is_punch(begin, front, i) && front[i]->from == before.dst && forall|j: int|
                    j > i ==> !#[trigger] is_punch(begin, front, j);
            assert(is_punch(begin, events, i));
            assert forall|j: int| j > i implies !#[trigger] is_punch(begin, events, j) by {
                if j != n {
                    assert(!is_punch(begin, front, j));
                }
            }
            assert(h.dst == before.dst);
        }
    }
}

/// A hole punch is done only after packets of both kinds came in, and then the peer's address is
/// where its last punch packet came from in the exchange.
pub proof fn punched_peer_was_heard(
    peer: SocketAddr,
    start: Instant,
    events: Seq<PunchEvent>,
    addr: SocketAddr,
    now: Instant,
)
    requires
        after_events(started(peer, start), events).at(now).1 == PunchAction::Done(addr),
    ensures
        received(events, punch_packet()),
        received(events, ack_packet()),
        last_punch_from(started(peer, start), events, addr),
{
    punch_needs_both_packets(peer, start, events);
}

/// A packet came in either as the last event or before.
proof fn received_by_the_last(events: Seq<PunchEvent>, msg: Seq<u8>)
    requires
        events.len() > 0,
    ensures
        received(events, msg) <==> received(events.drop_last(), msg) || has_content(
            events.last(),
            msg,
        ),
{
    let front = events.drop_last();
    if received(events, msg) {
        let i = choose|i: int| 0 <= i < events.len() && has_content(#[trigger] events[i], msg);
        if i < front.len() {
            assert(has_content(front[i], msg));
        }
    }
    if received(front, msg) {
        let i = choose|i: int| 0 <= i < front.len() && has_content(#[trigger] front[i], msg);
        assert(has_content(events[i], msg));
    }
    if has_content(events.last(), msg) {
        assert(has_content(events[events.len() - 1], msg));
    }
}

/// Once both kinds of packets came in, a hole punch does not fail any more, however late it is
/// polled. As long as one is missing, it fails from the deadline on, and tells which.
pub proof fn punch_fails_only_for_missing_packets(
    peer: SocketAddr,
    start: Instant,
    events: Seq<PunchEvent>,
    now: Instant,
)
    requires
        start + PUNCH_TIMEOUT <= u64::MAX,
    ensures
        ({
            let punch = received(events, punch_packet());
            let ack = received(events, ack_packet());
            let action = after_events(started(peer, start), events).at(now).1;
            &&& punch && ack ==> !(action is Failed)
            &&& !(punch && ack) ==> action == if now >= start + PUNCH_TIMEOUT {
                PunchAction::Failed(HolePunchError { got_punch: punch, got_ack: ack })
            } else {
                PunchAction::Exchange { until: (start + PUNCH_TIMEOUT) as u64 }
            }
        }),
{
    punch_needs_both_packets(peer, start, events);
}

/// From the moment when both kinds of packets came in, a hole punch is done after two pauses of
/// 200 ms, and ends where the last punch packet came from.
pub proof fn punch_is_done_after_pauses(h: HolePunch, now: Instant, later: Instant, end: Instant)
    requires
        h.phase == PunchPhase::Exchange,
        h.both(),
        now + DRAIN_DURATION <= later,
    ensures
        ({
            let (h1, first) = h.at(now);
            let (h2, second) = h1.at(later);
            let (h3, third) = h2.at(end);
            &&& first == (PunchAction::Drain { until: (now + DRAIN_DURATION) as u64 })
            &&& second == (PunchAction::Settle { millis: SETTLE_MS })
            &&& third == PunchAction::Done(h.dst)
        }),
{
}

/// The two kinds of packets are different.
proof fn packets_differ()
    ensures
        punch_packet() != ack_packet(),
{
    assert(punch_packet().len() != ack_packet().len());
}

/// While packets are exchanged, every packet with the bytes of `punch`, from any address and however
/// many came before, is answered to that address with the bytes of `punch ack`, and packets go to
/// that address from then on. No other packet is answered or changes where packets go, and later
/// no packet does anything.
pub proof fn every_punch_is_answered(
    h: &mut HolePunch,
    from: SocketAddr,
    msg: &[u8],
    r: Option<(SocketAddr, Vec<u8>)>,
)
    requires
        call_ensures(HolePunch::on_packet, (h, from, msg), r),
    ensures
        old(h).phase is Exchange && msg@ == seq![112u8, 117, 110, 99, 104] ==> {
            &&& r matches Some((to, bytes)) && to == from && bytes@ == seq![
                112u8, 117, 110, 99, 104, 32, 97, 99, 107,
            ]
            &&& final(h).dst == from
            &&& final(h).got_punch
            &&& final(h).got_ack == old(h).got_ack
        },
        msg@ != seq![112u8, 117, 110, 99, 104] ==> {
            &&& r is None
            &&& final(h).dst == old(h).dst
            &&& final(h).got_punch == old(h).got_punch
            &&& final(h).got_ack == (old(h).got_ack || (old(h).phase is Exchange && msg@ == seq![
                112u8, 117, 110, 99, 104, 32, 97, 99, 107,
            ]))
        },
        !(old(h).phase is Exchange) ==> r is None && *final(h) == *old(h),
        final(h).phase == old(h).phase,
        final(h).deadline == old(h).deadline,
{
    assert(punch_packet() =~= seq![112u8, 117, 110, 99, 104]);
    assert(ack_packet() =~= seq![112u8, 117, 110, 99, 104, 32, 97, 99, 107]);
    packets_differ();
}

/// A hole punch that starts at `start` sends punch packets to the given address, and if it has not
/// heard both kinds of packets by then, it fails 500 ms later and no sooner.
pub proof fn punch_lasts_half_a_second(
    peer: SocketAddr,
    start: Instant,
    first: HolePunch,
    packet: (SocketAddr, Vec<u8>),
    h: &mut HolePunch,
    now: Instant,
    r: PunchAction,
)
    requires
        call_ensures(HolePunch::new, (peer, start), first),
        call_ensures(HolePunch::on_tick, (&first,), packet),
        start + 500_000_000 <= u64::MAX,
        call_ensures(HolePunch::poll, (h, now), r),
    ensures
        packet.0 == peer,
        packet.1@ == seq![112u8, 117, 110, 99, 104],
        first.phase is Exchange && !first.got_punch && !first.got_ack,
        first.deadline == start + 500_000_000,
        old(h).phase is Exchange && !(old(h).got_punch && old(h).got_ack) ==> {
            &&& *final(h) == *old(h)
            &&& now < old(h).deadline ==> r == (PunchAction::Exchange { until: old(h).deadline })
            &&& now >= old(h).deadline ==> (r matches PunchAction::Failed(e) && e.got_punch == old(h).got_punch && e.got_ack == old(h).got_ack)
        },
{
    assert(punch_packet() =~= seq![112u8, 117, 110, 99, 104]);
}

/// Once both kinds of packets were heard, packets are dropped for 200 ms, then the connection
/// settles for 200 ms, and then the hole punch is done at the address that packets went to last.
/// No poll changes that address or what was heard.
pub proof fn punch_is_drained_and_settled(h: &mut HolePunch, now: Instant, r: PunchAction)
    requires
        call_ensures(HolePunch::poll, (h, now), r),
        now + 200_000_000 <= u64::MAX,
    ensures
        old(h).phase is Exchange && old(h).got_punch && old(h).got_ack ==> {
            &&& r matches PunchAction::Drain { until } && until == now + 200_000_000
            &&& final(h).phase matches PunchPhase::Drain { until } && until == now + 200_000_000
        },
        old(h).phase matches PunchPhase::Drain { until } ==> if now < until {
            r == (PunchAction::Drain { until }) && final(h).phase == old(h).phase
        } else {
            r == (PunchAction::Settle { millis: 200 }) && final(h).phase is Settle
        },
        old(h).phase is Settle ==> r == PunchAction::Done(old(h).dst) && final(h).phase is Settle,
        final(h).dst == old(h).dst,
        final(h).got_punch == old(h).got_punch,
        final(h).got_ack == old(h).got_ack,
        final(h).deadline == old(h).deadline,
{
}

/// A failed hole punch is put into words by what was missing.
pub proof fn missing_packets_are_named(e: HolePunchError, r: String)
    requires
        call_ensures(HolePunchError::message, (&e,), r),
    ensures
        !e.got_ack && !e.got_punch ==> r@ == "Did not receive packets from client at all!"@,
        e.got_ack ==> r@ == "We got ack from client, but missed punch packet (strange)"@,
        !e.got_ack && e.got_punch ==> r@ == "We got punch but did not receive ack"@,
{
}

/// In the time in which packets are exchanged, 25 of them are sent.
pub proof fn punch_packets_are_sent_all_along()
    ensures
        25 * PUNCH_INTERVAL_MS * 1_000_000 == PUNCH_TIMEOUT,
        PUNCH_INTERVAL_MS == 20,
{
}

/// Punch packets always go to where packets are sent to.
pub proof fn punches_go_where_packets_go(h: HolePunch, packet: (SocketAddr, Vec<u8>))
    requires
        call_ensures(HolePunch::on_tick, (&h,), packet),
    ensures
        packet.0 == h.dst,
        packet.1@ == seq![112u8, 117, 110, 99, 104],
{
    assert(punch_packet() =~= seq![112u8, 117, 110, 99, 104]);
}

} // verus!
