//! The choice of the network interface for connections to peers.
use vstd::prelude::*;
use vstd::string::StrSliceExecFns;
use crate::net::{ipv4_value_injective, Ipv4Addr};

verus! {

/// The address of an interface.
#[derive(Debug, Clone, Copy, PartialEq, Eq, Structural)]
pub enum InterfaceAddr {
    V4 { ip: Ipv4Addr, prefixlen: u8 },
    V6,
}

/// A network interface.
#[derive(Debug)]
pub struct Interface {
    pub name: String,
    pub is_p2p: bool,
    pub addr: InterfaceAddr,
}

/// Whether `name` starts with `prefix`.
pub open spec fn starts_with(name: Seq<char>, prefix: Seq<char>) -> bool {
    prefix.len() <= name.len() && name.take(prefix.len() as int) == prefix
}

/// Whether `name` starts with `prefix`.
pub fn has_prefix(name: &str, prefix: &str) -> (r: bool)
    ensures
        r == starts_with(name@, prefix@),
{
    let n: usize = prefix.unicode_len();
    if name.unicode_len() < n {
        return false;
    }
    let mut i: usize = 0;
    while i < n
        invariant
            i <= n,
            n == prefix@.len(),
            n <= name@.len(),
            forall|j: int| 0 <= j < i ==> name@[j] == prefix@[j],
        decreases n - i,
    {
        if name.get_char(i) != prefix.get_char(i) {
            assert(name@.take(n as int)[i as int] != prefix@[i as int]);
            return false;
        }
        i = i + 1;
    }
    assert(name@.take(n as int) =~= prefix@);
    true
}

/// Whether a name is that of a virtual interface: loopback, containers, tunnels or VPNs.
pub open spec fn is_virtual(name: Seq<char>) -> bool {
    ||| starts_with(name, "lo"@)
    ||| starts_with(name, "docker"@)
    ||| starts_with(name, "br-"@)
    ||| starts_with(name, "veth"@)
    ||| starts_with(name, "tun"@)
    ||| starts_with(name, "tap"@)
    ||| starts_with(name, "wg"@)
    ||| starts_with(name, "tailscale"@)
    ||| starts_with(name, "amn"@)
    ||| starts_with(name, "AmneziaVPN"@)
    ||| starts_with(name, "Tailscale"@)
    ||| starts_with(name, "ZeroTier"@)
    ||| starts_with(name, "outline"@)
}

/// How much an interface is preferred by its name: wired before wireless before unknown.
pub open spec fn priority_of(name: Seq<char>) -> int {
    if starts_with(name, "en"@) || starts_with(name, "eth"@) || starts_with(name, "Ethernet"@) {
        3
    } else if starts_with(name, "wl"@) || starts_with(name, "Wireless"@) {
        2
    } else {
        1
    }
}

/// Whether an interface can be chosen: not a point-to-point or virtual one, with an IPv4 address
/// that is not the only one of its network.
pub open spec fn is_eligible(i: Interface) -> bool {
    !i.is_p2p && (i.addr matches InterfaceAddr::V4 { prefixlen, .. } && prefixlen != 32)
        && !is_virtual(i.name@)
}

/// The IPv4 address of an interface as a number.
pub open spec fn ip_value(i: Interface) -> int {
    match i.addr {
        InterfaceAddr::V4 { ip, .. } => ip.value(),
        InterfaceAddr::V6 => -1,
    }
}

/// Whether `a` is preferred to `b`: by its name, and then by the greater address.
pub open spec fn is_preferred(a: Interface, b: Interface) -> bool {
    priority_of(a.name@) > priority_of(b.name@) || (priority_of(a.name@) == priority_of(b.name@)
        && ip_value(a) > ip_value(b))
}

impl Interface {
    fn is_virtual(&self) -> (r: bool)
        ensures
            r == is_virtual(self.name@),
    {
        let name = self.name.as_str();
        has_prefix(name, "lo") || has_prefix(name, "docker") || has_prefix(name, "br-")
            || has_prefix(name, "veth") || has_prefix(name, "tun") || has_prefix(name, "tap")
            || has_prefix(name, "wg") || has_prefix(name, "tailscale") || has_prefix(name, "amn")
            || has_prefix(name, "AmneziaVPN") || has_prefix(name, "Tailscale")
            || has_prefix(name, "ZeroTier") || has_prefix(name, "outline")
    }

    /// Whether this interface can be chosen.
    pub fn eligible(&self) -> (r: bool)
        ensures
            r == is_eligible(*self),
    {
        if self.is_p2p {
            return false;
        }
        match self.addr {
            InterfaceAddr::V4 { ip, prefixlen } => prefixlen != 32 && !self.is_virtual(),
            InterfaceAddr::V6 => false,
        }
    }

    /// How much this interface is preferred by its name.
    pub fn priority(&self) -> (r: u8)
        ensures
            r == priority_of(self.name@),
    {
        let name = self.name.as_str();
        if has_prefix(name, "en") || has_prefix(name, "eth") || has_prefix(name, "Ethernet") {
            3
        } else if has_prefix(name, "wl") || has_prefix(name, "Wireless") {
            2
        } else {
            1
        }
    }

    /// Whether the address of this interface is the greater one.
    fn is_above(&self, other: &Interface) -> (r: bool)
        ensures
            r == (ip_value(*self) > ip_value(*other)),
    {
        match self.addr {
            InterfaceAddr::V4 { ip, prefixlen } => match other.addr {
                InterfaceAddr::V4 { ip: other_ip, prefixlen: p } => ip.is_above(&other_ip),
                InterfaceAddr::V6 => true,
            },
            InterfaceAddr::V6 => false,
        }
    }

    /// Whether this interface is preferred to `other`.
    pub fn preferred_to(&self, other: &Interface) -> (r: bool)
        ensures
            r == is_preferred(*self, *other),
    {
        let mine: u8 = self.priority();
        let theirs: u8 = other.priority();
        mine > theirs || (mine == theirs && self.is_above(other))
    }
}

/// Whether `best` is the choice of the tracker from `list`: the first of those eligible interfaces
/// to which no eligible one is preferred.
pub open spec fn is_best(list: Seq<Interface>, best: Option<int>) -> bool {
    match best {
        Some(b) => {
            &&& 0 <= b < list.len()
            &&& is_eligible(list[b])
            &&& forall|j: int|
                0 <= j < list.len() && is_eligible(#[trigger] list[j]) ==> !is_preferred(
                    list[j],
                    list[b],
                )
            &&& forall|j: int|
                0 <= j < b && is_eligible(#[trigger] list[j]) ==> is_preferred(list[b], list[j])
        },
        None => forall|j: int| 0 <= j < list.len() ==> !is_eligible(#[trigger] list[j]),
    }
}

/// Whether `first` is the first of those eligible interfaces in `list` whose names are preferred
/// most.
pub open spec fn is_first_of_highest(list: Seq<Interface>, first: Option<int>) -> bool {
    match first {
        Some(b) => {
            &&& 0 <= b < list.len()
            &&& is_eligible(list[b])
            &&& forall|j: int|
                0 <= j < list.len() && is_eligible(#[trigger] list[j]) ==> priority_of(
                    list[j].name@,
                ) <= priority_of(list[b].name@)
            &&& forall|j: int|
                0 <= j < b && is_eligible(#[trigger] list[j]) ==> priority_of(list[j].name@)
                    < priority_of(list[b].name@)
        },
        None => forall|j: int| 0 <= j < list.len() ==> !is_eligible(#[trigger] list[j]),
    }
}

/// An optional index as an integer.
pub open spec fn index_of(r: Option<usize>) -> Option<int> {
    match r {
        Some(i) => Some(i as int),
        None => None,
    }
}

/// The interface for UDP sockets: of the eligible ones the most preferred, by name and then by
/// address.
pub fn best_interface(list: &Vec<Interface>) -> (r: Option<usize>)
    ensures
        is_best(list@, index_of(r)),
{
    let mut best: Option<usize> = None;
    let mut i: usize = 0;
    while i < list.len()
        invariant
            i <= list@.len(),
            is_best(list@.take(i as int), index_of(best)),
        decreases list@.len() - i,
    {
        let ghost seen = list@.take(i as int);
        if list[i].eligible() {
            match best {
                Some(b) => {
                    assert(seen[b as int] == list@[b as int]);
                    if list[i].preferred_to(&list[b]) {
                        best = Some(i);
                    }
                },
                None => {
                    best = Some(i);
                },
            }
        }
        proof {
            let longer = list@.take(i + 1);
            assert forall|j: int| 0 <= j < i implies longer[j] == #[trigger] seen[j] by {}
            assert forall|j: int| 0 <= j < i + 1 && is_eligible(#[trigger] longer[j]) implies !(
            index_of(best) is Some && is_preferred(longer[j], longer[index_of(best)->0])) by {
                if j < i {
                    assert(longer[j] == seen[j]);
                }
            }
            if let Some(b) = index_of(best) {
                assert forall|j: int| 0 <= j < b && is_eligible(#[trigger] longer[j]) implies is_preferred(
                    longer[b],
                    longer[j],
                ) by {
                    assert(longer[j] == seen[j]);
                }
            } else {
                assert forall|j: int| 0 <= j < longer.len() implies !is_eligible(
                    #[trigger] longer[j],
                ) by {
                    if j < i {
                        assert(longer[j] == seen[j]);
                    }
                }
            }
        }
        i = i + 1;
    }
    assert(list@.take(i as int) =~= list@);
    best
}

/// The interface for TCP sockets: the first of the eligible ones whose names are preferred most.
pub fn first_interface(list: &Vec<Interface>) -> (r: Option<usize>)
    ensures
        is_first_of_highest(list@, index_of(r)),
{
    let mut best: Option<usize> = None;
    let mut highest_priority: u8 = 0;
    let mut i: usize = 0;
    while i < list.len()
        invariant
            i <= list@.len(),
            best is None ==> highest_priority == 0,
            best matches Some(b) ==> b < i && is_eligible(list@[b as int]) && highest_priority
                == priority_of(list@[b as int].name@) && forall|j: int|
                0 <= j < b && is_eligible(#[trigger] list@[j]) ==> priority_of(list@[j].name@)
                    < highest_priority,
            forall|j: int|
                0 <= j < i && is_eligible(#[trigger] list@[j]) ==> priority_of(list@[j].name@)
                    <= highest_priority,
        decreases list@.len() - i,
    {
        if list[i].eligible() {
            let current_priority: u8 = list[i].priority();
            if current_priority > highest_priority {
                highest_priority = current_priority;
                best = Some(i);
            }
        }
        i = i + 1;
    }
    best
}

/// The address that a socket is bound to: that of the chosen interface on Windows, where a socket
/// cannot be bound to a device, and any address elsewhere.
pub fn bind_address(windows: bool, chosen: Option<&Interface>) -> (r: Ipv4Addr)
    requires
        chosen matches Some(i) ==> i.addr is V4,
    ensures
        r == match chosen {
            Some(i) => if windows {
                i.addr->ip
            } else {
                Ipv4Addr { a: 0, b: 0, c: 0, d: 0 }
            },
            None => Ipv4Addr { a: 0, b: 0, c: 0, d: 0 },
        },
{
    if windows {
        if let Some(i) = chosen {
            if let InterfaceAddr::V4 { ip, prefixlen } = i.addr {
                return ip;
            }
        }
    }
    Ipv4Addr::new(0, 0, 0, 0)
}

/// How a choice differs from the one before.
#[derive(Debug, Clone, Copy, PartialEq, Eq, Structural)]
pub enum InterfaceChange {
    /// No other interface, or none at all.
    Same,
    /// The first choice.
    Selected,
    /// Another interface than before.
    Changed,
}

/// Remembers which interface was chosen last.
#[derive(Debug)]
pub struct P2pInterfaceTracker {
    prev_interface: String,
}

impl P2pInterfaceTracker {
    /// The name of the interface that was chosen last, which is empty at first.
    pub closed spec fn prev(&self) -> Seq<char> {
        self.prev_interface@
    }

    /// A tracker that has chosen no interface.
    pub fn new() -> (r: Self)
        ensures
            r.prev() == Seq::<char>::empty(),
    {
        P2pInterfaceTracker { prev_interface: String::new() }
    }

    /// Remembers `chosen` as the interface in use. Returns how it differs from the one before.
    fn remember(&mut self, chosen: &String) -> (r: InterfaceChange)
        ensures
            final(self).prev() == chosen@,
            r == change(old(self).prev(), chosen@),
    {
        let had_none = self.prev_interface.as_str().unicode_len() == 0;
        let differs = self.prev_interface != *chosen;
        let is_empty = chosen.as_str().unicode_len() == 0;
        self.prev_interface = chosen.clone();
        if had_none && !is_empty {
            InterfaceChange::Selected
        } else if differs {
            InterfaceChange::Changed
        } else {
            InterfaceChange::Same
        }
    }

    /// Chooses the interface for UDP sockets from those that are there now, and remembers it.
    pub fn current_interface(&mut self, list: &Vec<Interface>) -> (r: (Option<usize>, InterfaceChange))
        ensures
            is_best(list@, index_of(r.0)),
            match r.0 {
                Some(i) => final(self).prev() == list@[i as int].name@ && r.1 == change(
                    old(self).prev(),
                    list@[i as int].name@,
                ),
                None => final(self).prev() == old(self).prev() && r.1 == InterfaceChange::Same,
            },
    {
        match best_interface(list) {
            Some(i) => {
                let c = self.remember(&list[i].name);
                (Some(i), c)
            },
            None => (None, InterfaceChange::Same),
        }
    }

    /// Chooses the interface for TCP sockets from those that are there now, and remembers it.
    pub fn current_tcp_interface(&mut self, list: &Vec<Interface>) -> (r: (
        Option<usize>,
        InterfaceChange,
    ))
        ensures
            is_first_of_highest(list@, index_of(r.0)),
            match r.0 {
                Some(i) => final(self).prev() == list@[i as int].name@ && r.1 == change(
                    old(self).prev(),
                    list@[i as int].name@,
                ),
                None => final(self).prev() == old(self).prev() && r.1 == InterfaceChange::Same,
            },
    {
        match first_interface(list) {
            Some(i) => {
                let c = self.remember(&list[i].name);
                (Some(i), c)
            },
            None => (None, InterfaceChange::Same),
        }
    }
}

/// How the choice of `chosen` differs from that of `prev`, where no choice is the empty name.
pub open spec fn change(prev: Seq<char>, chosen: Seq<char>) -> InterfaceChange {
    if prev.len() == 0 && chosen.len() > 0 {
        InterfaceChange::Selected
    } else if prev != chosen {
        InterfaceChange::Changed
    } else {
        InterfaceChange::Same
    }
}

/// The choice for UDP sockets does not depend on the order in which interfaces are listed, if no
/// two of them have the same address.
pub proof fn choice_ignores_order(x: Seq<Interface>, y: Seq<Interface>, bx: Option<int>, by: Option<int>)
    requires
        is_best(x, bx),
        is_best(y, by),
        forall|i: Interface| x.contains(i) <==> #[trigger] y.contains(i),
        forall|i: Interface, j: Interface|
            #![trigger x.contains(i), x.contains(j)]
            x.contains(i) && x.contains(j) && is_eligible(i) && is_eligible(j) && i.addr->ip
                == j.addr->ip ==> i == j,
    ensures
        bx is Some <==> by is Some,
        bx matches Some(i) ==> x[i] == y[by->0],
{
    if let Some(i) = bx {
        assert(x.contains(x[i]));
        assert(y.contains(x[i]));
        let j = choose|j: int| 0 <= j < y.len() && y[j] == x[i];
        assert(is_eligible(y[j]));
    }
    if let Some(i) = by {
        assert(y.contains(y[i]));
        assert(x.contains(y[i]));
        let j = choose|j: int| 0 <= j < x.len() && x[j] == y[i];
        assert(is_eligible(x[j]));
    }
    if bx is Some && by is Some {
        let a = x[bx->0];
        let b = y[by->0];
        assert(ip_value(a) == ip_value(b));
        ipv4_value_injective(a.addr->ip, b.addr->ip);
    }
}

/// The choice from a list is unique.
pub proof fn choice_is_unique(list: Seq<Interface>, a: Option<int>, b: Option<int>)
    requires
        is_best(list, a),
        is_best(list, b),
    ensures
        a == b,
{
    if a is Some && b is Some {
        let i = a->0;
        let j = b->0;
        if i < j {
            assert(is_preferred(list[j], list[i]));
        } else if j < i {
            assert(is_preferred(list[i], list[j]));
        }
    } else if a is Some {
        assert(is_eligible(list[a->0]));
    } else if b is Some {
        assert(is_eligible(list[b->0]));
    }
}

/// A name starts with a prefix exactly if it is the prefix followed by the rest of it.
pub proof fn prefixes_stand_first(name: Seq<char>, prefix: Seq<char>, rest: Seq<char>)
    ensures
        starts_with(prefix + rest, prefix),
        starts_with(name, prefix) <==> prefix.len() <= name.len() && name == prefix + name.skip(
            prefix.len() as int,
        ),
{
    assert((prefix + rest).take(prefix.len() as int) =~= prefix);
    if prefix.len() <= name.len() {
        assert(name =~= name.take(prefix.len() as int) + name.skip(prefix.len() as int));
        assert((prefix + name.skip(prefix.len() as int)).take(prefix.len() as int) =~= prefix);
    }
}

/// Prefixes are found by comparing characters.
pub proof fn prefixes_are_found(name: &str, prefix: &str, r: bool)
    requires
        call_ensures(has_prefix, (name, prefix), r),
    ensures
        r <==> prefix@.len() <= name@.len() && forall|i: int|
            0 <= i < prefix@.len() ==> name@[i] == #[trigger] prefix@[i],
{
    if prefix@.len() <= name@.len() {
        let front = name@.take(prefix@.len() as int);
        if front == prefix@ {
            assert forall|i: int| 0 <= i < prefix@.len() implies name@[i] == #[trigger] prefix@[i] by {
                assert(front[i] == name@[i]);
            }
        } else if forall|i: int| 0 <= i < prefix@.len() ==> name@[i] == #[trigger] prefix@[i] {
            assert(front =~= prefix@);
        }
    }
}

/// No interface is chosen that is a point-to-point one, has no IPv4 address, is alone in its
/// network, or whose name is that of a loopback, a container, a tunnel or a VPN.
pub proof fn unfit_interfaces_are_left_out(i: Interface, r: bool, rest: Seq<char>)
    requires
        call_ensures(Interface::eligible, (&i,), r),
    ensures
        i.is_p2p ==> !r,
        i.addr is V6 ==> !r,
        i.addr matches InterfaceAddr::V4 { prefixlen, .. } && prefixlen == 32 ==> !r,
        i.name@ == "lo"@ + rest ==> !r,
        i.name@ == "docker"@ + rest ==> !r,
        i.name@ == "br-"@ + rest ==> !r,
        i.name@ == "veth"@ + rest ==> !r,
        i.name@ == "tun"@ + rest ==> !r,
        i.name@ == "tap"@ + rest ==> !r,
        i.name@ == "wg"@ + rest ==> !r,
        i.name@ == "tailscale"@ + rest ==> !r,
        i.name@ == "amn"@ + rest ==> !r,
        i.name@ == "AmneziaVPN"@ + rest ==> !r,
        i.name@ == "Tailscale"@ + rest ==> !r,
        i.name@ == "ZeroTier"@ + rest ==> !r,
        i.name@ == "outline"@ + rest ==> !r,
{
    prefixes_stand_first(i.name@, "lo"@, rest);
    prefixes_stand_first(i.name@, "docker"@, rest);
    prefixes_stand_first(i.name@, "br-"@, rest);
    prefixes_stand_first(i.name@, "veth"@, rest);
    prefixes_stand_first(i.name@, "tun"@, rest);
    prefixes_stand_first(i.name@, "tap"@, rest);
    prefixes_stand_first(i.name@, "wg"@, rest);
    prefixes_stand_first(i.name@, "tailscale"@, rest);
    prefixes_stand_first(i.name@, "amn"@, rest);
    prefixes_stand_first(i.name@, "AmneziaVPN"@, rest);
    prefixes_stand_first(i.name@, "Tailscale"@, rest);
    prefixes_stand_first(i.name@, "ZeroTier"@, rest);
    prefixes_stand_first(i.name@, "outline"@, rest);
}

/// Every other interface can be chosen.
pub proof fn fit_interfaces_are_let_in(i: Interface, r: bool)
    requires
        call_ensures(Interface::eligible, (&i,), r),
        !i.is_p2p,
        i.addr matches InterfaceAddr::V4 { prefixlen, .. } && prefixlen != 32,
        !starts_with(i.name@, "lo"@),
        !starts_with(i.name@, "docker"@),
        !starts_with(i.name@, "br-"@),
        !starts_with(i.name@, "veth"@),
        !starts_with(i.name@, "tun"@),
        !starts_with(i.name@, "tap"@),
        !starts_with(i.name@, "wg"@),
        !starts_with(i.name@, "tailscale"@),
        !starts_with(i.name@, "amn"@),
        !starts_with(i.name@, "AmneziaVPN"@),
        !starts_with(i.name@, "Tailscale"@),
        !starts_with(i.name@, "ZeroTier"@),
        !starts_with(i.name@, "outline"@),
    ensures
        r,
{
}

/// Wired interfaces are preferred to wireless ones, and those to all others, by how their names
/// start.
pub proof fn wired_comes_before_wireless(i: Interface, r: u8, rest: Seq<char>)
    requires
        call_ensures(Interface::priority, (&i,), r),
    ensures
        i.name@ == "en"@ + rest || i.name@ == "eth"@ + rest || i.name@ == "Ethernet"@ + rest ==> r
            == 3,
        i.name@ == "wl"@ + rest || i.name@ == "Wireless"@ + rest ==> r == 2,
        !starts_with(i.name@, "en"@) && !starts_with(i.name@, "eth"@) && !starts_with(
            i.name@,
            "Ethernet"@,
        ) && !starts_with(i.name@, "wl"@) && !starts_with(i.name@, "Wireless"@) ==> r == 1,
        r == 3 ==> starts_with(i.name@, "en"@) || starts_with(i.name@, "eth"@) || starts_with(
            i.name@,
            "Ethernet"@,
        ),
{
    reveal_strlit("en");
    reveal_strlit("eth");
    reveal_strlit("Ethernet");
    reveal_strlit("wl");
    reveal_strlit("Wireless");
    prefixes_stand_first(i.name@, "en"@, rest);
    prefixes_stand_first(i.name@, "eth"@, rest);
    prefixes_stand_first(i.name@, "Ethernet"@, rest);
    prefixes_stand_first(i.name@, "wl"@, rest);
    prefixes_stand_first(i.name@, "Wireless"@, rest);
    if i.name@ == "wl"@ + rest {
        assert(i.name@[0] == 'w');
    }
    if i.name@ == "Wireless"@ + rest {
        assert(i.name@[0] == 'W');
    }
    if starts_with(i.name@, "en"@) {
        assert(i.name@.take(2)[0] == 'e');
    }
    if starts_with(i.name@, "eth"@) {
        assert(i.name@.take(3)[0] == 'e');
    }
    if starts_with(i.name@, "Ethernet"@) {
        assert(i.name@.take(8)[0] == 'E');
    }
}

/// An interface is preferred to another exactly if its name is, or if their names are alike and its
/// IPv4 address is the greater one.
pub proof fn names_decide_before_addresses(
    x: Interface,
    y: Interface,
    r: bool,
    px: u8,
    py: u8,
    above: bool,
)
    requires
        call_ensures(Interface::preferred_to, (&x, &y), r),
        call_ensures(Interface::priority, (&x,), px),
        call_ensures(Interface::priority, (&y,), py),
        x.addr is V4 && y.addr is V4,
        call_ensures(Ipv4Addr::is_above, (&x.addr->ip, &y.addr->ip), above),
    ensures
        px > py ==> r,
        px < py ==> !r,
        px == py ==> r == above,
{
}

/// The interface for UDP sockets is one that can be chosen and to which no other such interface is
/// preferred, and the one for TCP sockets is the first among those with the most preferred names.
/// There is none exactly if no interface can be chosen.
pub proof fn best_interfaces_are_chosen(
    list: Vec<Interface>,
    udp: Option<usize>,
    tcp: Option<usize>,
    j: int,
)
    requires
        call_ensures(best_interface, (&list,), udp),
        call_ensures(first_interface, (&list,), tcp),
    ensures
        0 <= j < list@.len() && is_eligible(list@[j]) ==> udp is Some && tcp is Some,
        udp matches Some(b) ==> {
            &&& b < list@.len()
            &&& is_eligible(list@[b as int])
            &&& 0 <= j < list@.len() && is_eligible(list@[j]) ==> !is_preferred(list@[j], list@[b as int])
            &&& 0 <= j < list@.len() && is_eligible(list@[j]) && j < b ==> is_preferred(list@[b as int], list@[j])
        },
        tcp matches Some(b) ==> {
            &&& b < list@.len()
            &&& is_eligible(list@[b as int])
            &&& 0 <= j < list@.len() && is_eligible(list@[j]) ==> priority_of(list@[j].name@) <= priority_of(
                list@[b as int].name@,
            )
            &&& 0 <= j < list@.len() && is_eligible(list@[j]) && j < b ==> priority_of(list@[j].name@) < priority_of(
                list@[b as int].name@,
            )
        },
{
}

/// The fitness, the preference and the rank by name that choices go by are those that an interface
/// gives of itself.
pub proof fn choices_go_by_the_interfaces(
    x: Interface,
    y: Interface,
    fit: bool,
    preferred: bool,
    rank: u8,
)
    requires
        call_ensures(Interface::eligible, (&x,), fit),
        call_ensures(Interface::preferred_to, (&x, &y), preferred),
        call_ensures(Interface::priority, (&x,), rank),
    ensures
        fit == is_eligible(x),
        preferred == is_preferred(x, y),
        rank == priority_of(x.name@),
{
}

/// On Windows a socket is bound to the address of the chosen interface, and everywhere else, or
/// without one, to any address.
pub proof fn windows_binds_to_the_address(
    chosen: Interface,
    on_windows: Ipv4Addr,
    elsewhere: Ipv4Addr,
    without: Ipv4Addr,
    windows: bool,
)
    requires
        chosen.addr is V4,
        call_ensures(bind_address, (true, Some(&chosen)), on_windows),
        call_ensures(bind_address, (false, Some(&chosen)), elsewhere),
        call_ensures(bind_address, (windows, None), without),
    ensures
        on_windows == chosen.addr->ip,
        elsewhere == (Ipv4Addr { a: 0, b: 0, c: 0, d: 0 }),
        without == (Ipv4Addr { a: 0, b: 0, c: 0, d: 0 }),
{
}

/// A tracker remembers the name of the interface that it chose last, and tells whether that is the
/// first choice, another one, or the same. Where there is none to choose, it keeps what it had.
pub proof fn tracker_reports_changes(
    t: &mut P2pInterfaceTracker,
    list: Vec<Interface>,
    r: (Option<usize>, InterfaceChange),
    u: &mut P2pInterfaceTracker,
    s: (Option<usize>, InterfaceChange),
    fresh: P2pInterfaceTracker,
)
    requires
        call_ensures(P2pInterfaceTracker::current_interface, (t, &list), r),
        call_ensures(P2pInterfaceTracker::current_tcp_interface, (u, &list), s),
        call_ensures(P2pInterfaceTracker::new, (), fresh),
    ensures
        fresh.prev().len() == 0,
        r.0 matches Some(i) ==> {
            let name = list@[i as int].name@;
            &&& final(t).prev() == name
            &&& name == old(t).prev() ==> r.1 is Same
            &&& name != old(t).prev() && old(t).prev().len() == 0 ==> r.1 is Selected
            &&& name != old(t).prev() && old(t).prev().len() > 0 ==> r.1 is Changed
        },
        r.0 is None ==> final(t).prev() == old(t).prev() && r.1 is Same,
        s.0 matches Some(i) ==> {
            let name = list@[i as int].name@;
            &&& final(u).prev() == name
            &&& name == old(u).prev() ==> s.1 is Same
            &&& name != old(u).prev() && old(u).prev().len() == 0 ==> s.1 is Selected
            &&& name != old(u).prev() && old(u).prev().len() > 0 ==> s.1 is Changed
        },
        s.0 is None ==> final(u).prev() == old(u).prev() && s.1 is Same,
        is_best(list@, index_of(r.0)),
        is_first_of_highest(list@, index_of(s.0)),
{
    if let Some(i) = r.0 {
        let name = list@[i as int].name@;
        if name != old(t).prev() && old(t).prev().len() == 0 {
            assert(name.len() > 0) by {
                if name.len() == 0 {
                    assert(name =~= old(t).prev());
                }
            }
        }
    }
    if let Some(i) = s.0 {
        let name = list@[i as int].name@;
        if name != old(u).prev() && old(u).prev().len() == 0 {
            assert(name.len() > 0) by {
                if name.len() == 0 {
                    assert(name =~= old(u).prev());
                }
            }
        }
    }
}

} // verus!
