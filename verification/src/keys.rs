//! Public keys of peers, and a map that is ordered by them.
use vstd::prelude::*;

verus! {

/// The Ed25519 public key by which a peer is known.
pub type PublicKey = [u8; 32];

/// Whether `a` and `b` agree before `i`, and `a` has the smaller byte at `i`.
pub open spec fn differs_below(a: Seq<u8>, b: Seq<u8>, i: int) -> bool {
    &&& 0 <= i < a.len()
    &&& i < b.len()
    &&& a[i] < b[i]
    &&& forall|j: int| 0 <= j < i ==> a[j] == b[j]
}

/// The lexicographic order of keys.
pub open spec fn key_lt(a: Seq<u8>, b: Seq<u8>) -> bool {
    exists|i: int| differs_below(a, b, i)
}

/// The order is transitive.
pub proof fn key_lt_transitive(a: Seq<u8>, b: Seq<u8>, c: Seq<u8>)
    requires
        a.len() == b.len() == c.len(),
        key_lt(a, b),
        key_lt(b, c),
    ensures
        key_lt(a, c),
{
    let i = choose|i: int| differs_below(a, b, i);
    let j = choose|j: int| differs_below(b, c, j);
    let k = if i < j {
        i
    } else {
        j
    };
    assert(differs_below(a, c, k));
}

/// Of two keys, at most one is below the other, and no key is below itself.
pub proof fn key_lt_asymmetric(a: Seq<u8>, b: Seq<u8>)
    requires
        key_lt(a, b),
    ensures
        !key_lt(b, a),
        a != b,
{
    let i = choose|i: int| differs_below(a, b, i);
    if key_lt(b, a) {
        let j = choose|j: int| differs_below(b, a, j);
        if i <= j {
            assert(a[i] < b[i]);
        } else {
            assert(b[j] < a[j]);
        }
    }
}

/// How one key stands to another.
#[derive(Debug, Clone, Copy, PartialEq, Eq, Structural)]
pub enum KeyOrder {
    Below,
    Same,
    Above,
}

/// Compares two keys.
pub fn key_order(a: &PublicKey, b: &PublicKey) -> (r: KeyOrder)
    ensures
        r == KeyOrder::Below <==> key_lt(a@, b@),
        r == KeyOrder::Same <==> a@ == b@,
        r == KeyOrder::Above <==> key_lt(b@, a@),
{
    let mut i: usize = 0;
    while i < 32
        invariant
            i <= 32,
            forall|j: int| 0 <= j < i ==> a@[j] == b@[j],
        decreases 32 - i,
    {
        if a[i] < b[i] {
            proof {
                assert(differs_below(a@, b@, i as int));
                key_lt_asymmetric(a@, b@);
            }
            return KeyOrder::Below;
        }
        if b[i] < a[i] {
            proof {
                assert(differs_below(b@, a@, i as int));
                key_lt_asymmetric(b@, a@);
            }
            return KeyOrder::Above;
        }
        i = i + 1;
    }
    assert(a@ =~= b@);
    KeyOrder::Same
}

/// Whether two keys are the same.
pub fn key_equal(a: &PublicKey, b: &PublicKey) -> (r: bool)
    ensures
        r == (a@ == b@),
{
    match key_order(a, b) {
        KeyOrder::Same => true,
        _ => false,
    }
}

/// Keys with the same bytes are the same key.
pub proof fn key_ext(a: PublicKey, b: PublicKey)
    requires
        a@ == b@,
    ensures
        a == b,
{
    assert forall|i: int| 0 <= i < 32 implies a[i] == b[i] by {
        assert(a@[i] == b@[i]);
    }
    assert(a =~= b);
}

/// The bytes of each key of a list.
pub open spec fn key_views(keys: Seq<PublicKey>) -> Seq<Seq<u8>> {
    keys.map_values(|k: PublicKey| k@)
}

/// Whether `keys` holds `k`.
pub fn contains_key(keys: &Vec<PublicKey>, k: &PublicKey) -> (r: bool)
    ensures
        r == key_views(keys@).contains(k@),
{
    let mut i: usize = 0;
    while i < keys.len()
        invariant
            i <= keys@.len(),
            forall|j: int| 0 <= j < i ==> (#[trigger] keys@[j])@ != k@,
        decreases keys@.len() - i,
    {
        if key_equal(&keys[i], k) {
            assert(key_views(keys@)[i as int] == k@);
            return true;
        }
        i = i + 1;
    }
    assert forall|j: int| 0 <= j < key_views(keys@).len() implies key_views(keys@)[j] != k@ by {
        assert(keys@[j]@ != k@);
    }
    false
}

/// A map from public keys to values, which are held in the order of their keys.
pub struct KeyMap<V> {
    entries: Vec<(PublicKey, V)>,
}

impl<V> KeyMap<V> {
    /// Whether the entries stand in strictly ascending order of their keys, so that no key occurs
    /// twice.
    pub closed spec fn wf(&self) -> bool {
        forall|i: int, j: int|
            0 <= i < j < self.entries@.len() ==> key_lt(
                (#[trigger] self.entries@[i]).0@,
                (#[trigger] self.entries@[j]).0@,
            )
    }

    /// The keys in ascending order.
    pub closed spec fn keys(&self) -> Seq<Seq<u8>> {
        Seq::new(self.entries@.len(), |i: int| self.entries@[i].0@)
    }

    spec fn holds(&self, k: Seq<u8>, i: int) -> bool {
        0 <= i < self.entries@.len() && self.entries@[i].0@ == k
    }
}

impl<V> View for KeyMap<V> {
    type V = Map<Seq<u8>, V>;

    closed spec fn view(&self) -> Map<Seq<u8>, V> {
        Map::new(
            |k: Seq<u8>| exists|i: int| self.holds(k, i),
            |k: Seq<u8>| self.entries@[choose|i: int| self.holds(k, i)].1,
        )
    }
}

impl<V> KeyMap<V> {
    proof fn holds_once(&self, k: Seq<u8>, i: int, j: int)
        requires
            self.wf(),
            self.holds(k, i),
            self.holds(k, j),
        ensures
            i == j,
    {
        if i < j {
            key_lt_asymmetric(self.entries@[i].0@, self.entries@[j].0@);
        } else if j < i {
            key_lt_asymmetric(self.entries@[j].0@, self.entries@[i].0@);
        }
    }

    proof fn entry_is_mapped(&self, i: int)
        requires
            self.wf(),
            0 <= i < self.entries@.len(),
        ensures
            self@.contains_key(self.entries@[i].0@),
            self@[self.entries@[i].0@] == self.entries@[i].1,
    {
        let k = self.entries@[i].0@;
        assert(self.holds(k, i));
        let j = choose|j: int| self.holds(k, j);
        self.holds_once(k, i, j);
    }

    /// The keys of the list are those of the map, each once and in ascending order.
    pub proof fn keys_are_domain(&self)
        requires
            self.wf(),
        ensures
            forall|k: Seq<u8>| self@.contains_key(k) <==> self.keys().contains(k),
            forall|i: int, j: int|
                0 <= i < j < self.keys().len() ==> key_lt(
                    #[trigger] self.keys()[i],
                    #[trigger] self.keys()[j],
                ),
            self.keys().no_duplicates(),
            forall|k: Seq<u8>| self@.contains_key(k) ==> k.len() == 32,
    {
        assert forall|k: Seq<u8>| self@.contains_key(k) <==> self.keys().contains(k) by {
            if self@.contains_key(k) {
                let i = choose|i: int| self.holds(k, i);
                assert(self.keys()[i] == k);
            }
            if self.keys().contains(k) {
                let i = choose|i: int| 0 <= i < self.keys().len() && self.keys()[i] == k;
                assert(self.holds(k, i));
            }
        }
        assert forall|i: int, j: int|
            0 <= i < j < self.keys().len() implies key_lt(
            #[trigger] self.keys()[i],
            #[trigger] self.keys()[j],
        ) by {
            assert(self.entries@[i].0@ == self.keys()[i]);
            assert(self.entries@[j].0@ == self.keys()[j]);
        }
        assert forall|i: int, j: int|
            0 <= i < self.keys().len() && 0 <= j < self.keys().len() && i != j implies
            self.keys()[i] != self.keys()[j] by {
            if i < j {
                key_lt_asymmetric(self.keys()[i], self.keys()[j]);
            } else {
                key_lt_asymmetric(self.keys()[j], self.keys()[i]);
            }
        }
        assert forall|k: Seq<u8>| self@.contains_key(k) implies k.len() == 32 by {
            let i = choose|i: int| self.holds(k, i);
            assert(self.entries@[i].0@.len() == 32);
        }
    }

    /// An empty map.
    pub fn new() -> (r: Self)
        ensures
            r.wf(),
            r@ == Map::<Seq<u8>, V>::empty(),
            r.keys() == Seq::<Seq<u8>>::empty(),
    {
        let r = KeyMap { entries: Vec::new() };
        proof {
            assert(r@ =~= Map::<Seq<u8>, V>::empty());
            assert(r.keys() =~= Seq::<Seq<u8>>::empty());
        }
        r
    }

    /// The number of entries.
    pub fn len(&self) -> (n: usize)
        ensures
            n == self.keys().len(),
    {
        self.entries.len()
    }

    /// The `i`-th key in ascending order.
    pub fn key_at(&self, i: usize) -> (k: PublicKey)
        requires
            i < self.keys().len(),
        ensures
            k@ == self.keys()[i as int],
    {
        self.entries[i].0
    }

    /// The value of the `i`-th key.
    pub fn value_at(&self, i: usize) -> (v: &V)
        requires
            self.wf(),
            i < self.keys().len(),
        ensures
            self@.contains_key(self.keys()[i as int]),
            *v == self@[self.keys()[i as int]],
    {
        proof {
            self.entry_is_mapped(i as int);
        }
        &self.entries[i].1
    }

    /// The number of keys below `k`, and whether `k` itself comes next.
    fn find(&self, k: &PublicKey) -> (r: (usize, bool))
        requires
            self.wf(),
        ensures
            r.0 <= self.entries@.len(),
            forall|j: int| 0 <= j < r.0 ==> key_lt((#[trigger] self.entries@[j]).0@, k@),
            r.1 ==> self.holds(k@, r.0 as int),
            !r.1 ==> forall|j: int|
                r.0 <= j < self.entries@.len() ==> key_lt(k@, (#[trigger] self.entries@[j]).0@),
            r.1 == self@.contains_key(k@),
    {
        let mut i: usize = 0;
        while i < self.entries.len()
            invariant
                self.wf(),
                i <= self.entries@.len(),
                forall|j: int| 0 <= j < i ==> key_lt((#[trigger] self.entries@[j]).0@, k@),
            decreases self.entries@.len() - i,
        {
            match key_order(&self.entries[i].0, k) {
                KeyOrder::Below => {
                    i = i + 1;
                },
                KeyOrder::Same => {
                    assert(self.holds(k@, i as int));
                    return (i, true);
                },
                KeyOrder::Above => {
                    proof {
                        assert forall|j: int| i <= j < self.entries@.len() implies key_lt(
                            k@,
                            (#[trigger] self.entries@[j]).0@,
                        ) by {
                            if i < j {
                                key_lt_transitive(k@, self.entries@[i as int].0@, self.entries@[j].0@);
                            }
                        }
                        self.absent(k@, i as int);
                    }
                    return (i, false);
                },
            }
        }
        proof {
            self.absent(k@, i as int);
        }
        (i, false)
    }

    proof fn absent(&self, k: Seq<u8>, at: int)
        requires
            0 <= at <= self.entries@.len(),
            forall|j: int| 0 <= j < at ==> key_lt((#[trigger] self.entries@[j]).0@, k),
            forall|j: int|
                at <= j < self.entries@.len() ==> key_lt(k, (#[trigger] self.entries@[j]).0@),
        ensures
            !self@.contains_key(k),
    {
        if self@.contains_key(k) {
            let i = choose|i: int| self.holds(k, i);
            if i < at {
                key_lt_asymmetric(self.entries@[i].0@, k);
            } else {
                key_lt_asymmetric(k, self.entries@[i].0@);
            }
        }
    }

    /// The value of `k`, if there is one.
    pub fn get(&self, k: &PublicKey) -> (r: Option<&V>)
        requires
            self.wf(),
        ensures
            r is Some <==> self@.contains_key(k@),
            r matches Some(v) ==> *v == self@[k@],
    {
        let (i, found) = self.find(k);
        if found {
            proof {
                self.entry_is_mapped(i as int);
            }
            Some(&self.entries[i].1)
        } else {
            None
        }
    }

    /// Whether `k` has a value.
    pub fn contains(&self, k: &PublicKey) -> (r: bool)
        requires
            self.wf(),
        ensures
            r == self@.contains_key(k@),
    {
        let (i, found) = self.find(k);
        found
    }

    /// Takes out the `i`-th entry and returns its value.
    pub fn remove_at(&mut self, i: usize) -> (v: V)
        requires
            old(self).wf(),
            i < old(self).keys().len(),
        ensures
            final(self).wf(),
            old(self)@.contains_key(old(self).keys()[i as int]),
            v == old(self)@[old(self).keys()[i as int]],
            final(self)@ == old(self)@.remove(old(self).keys()[i as int]),
            final(self).keys() == old(self).keys().remove(i as int),
    {
        let ghost before = *self;
        let (k, v) = self.entries.remove(i);
        proof {
            before.entry_is_mapped(i as int);
            let n = before.entries@.len();
            assert(self.entries@.len() == n - 1);
            assert forall|j: int| 0 <= j < n - 1 implies #[trigger] self.entries@[j]
                == before.entries@[if j < i {
                j
            } else {
                j + 1
            }] by {}
            assert(self.wf());
            assert(self.keys() =~= before.keys().remove(i as int));
            assert forall|q: Seq<u8>| self@.contains_key(q) == before@.remove(k@).contains_key(q) by {
                if self@.contains_key(q) {
                    let j = choose|j: int| self.holds(q, j);
                    let j2 = if j < i {
                        j
                    } else {
                        j + 1
                    };
                    assert(before.holds(q, j2));
                    before.entry_is_mapped(j2);
                    if q == k@ {
                        before.holds_once(q, i as int, j2);
                    }
                }
                if before@.remove(k@).contains_key(q) {
                    let j = choose|j: int| before.holds(q, j);
                    let j2 = if j < i {
                        j
                    } else {
                        j - 1
                    };
                    assert(before.entries@[i as int].0@ == k@);
                    assert(self.holds(q, j2));
                }
            }
            assert forall|q: Seq<u8>| self@.contains_key(q) implies self@[q] == before@.remove(k@)[q] by {
                let j = choose|j: int| self.holds(q, j);
                self.entry_is_mapped(j);
                let j2 = if j < i {
                    j
                } else {
                    j + 1
                };
                before.entry_is_mapped(j2);
            }
            assert(self@ =~= before@.remove(k@));
        }
        v
    }

    /// Takes out `k` and returns its value, if there is one.
    pub fn remove(&mut self, k: &PublicKey) -> (r: Option<V>)
        requires
            old(self).wf(),
        ensures
            final(self).wf(),
            r is Some <==> old(self)@.contains_key(k@),
            r matches Some(v) ==> v == old(self)@[k@],
            final(self)@ == old(self)@.remove(k@),
            !old(self)@.contains_key(k@) ==> final(self).keys() == old(self).keys(),
    {
        let (i, found) = self.find(k);
        if found {
            assert(self.keys()[i as int] == k@);
            Some(self.remove_at(i))
        } else {
            assert(self@ =~= self@.remove(k@));
            None
        }
    }

    /// Gives `k` the value `v`, in place of the value that it had.
    pub fn insert(&mut self, k: PublicKey, v: V)
        requires
            old(self).wf(),
        ensures
            final(self).wf(),
            final(self)@ == old(self)@.insert(k@, v),
            old(self)@.contains_key(k@) ==> final(self).keys() == old(self).keys(),
    {
        let (at, found) = self.find(&k);
        let ghost before = *self;
        if found {
            proof {
                assert(self.keys()[at as int] == k@);
            }
            self.entries[at] = (k, v);
            proof {
                assert forall|j: int| 0 <= j < self.entries@.len() && j != at implies #[trigger] self.entries@[j]
                    == before.entries@[j] by {}
                assert(self.entries@[at as int].0@ == before.entries@[at as int].0@);
                assert forall|i: int, j: int| 0 <= i < j < self.entries@.len() implies key_lt(
                    (#[trigger] self.entries@[i]).0@,
                    (#[trigger] self.entries@[j]).0@,
                ) by {
                    assert(self.entries@[i].0@ == before.entries@[i].0@);
                    assert(self.entries@[j].0@ == before.entries@[j].0@);
                }
                assert(self.keys() =~= before.keys());
                assert forall|q: Seq<u8>| self@.contains_key(q) == before@.insert(k@, v).contains_key(q) by {
                    if self@.contains_key(q) {
                        let j = choose|j: int| self.holds(q, j);
                        assert(before.holds(q, j));
                    }
                    if before@.insert(k@, v).contains_key(q) {
                        if q == k@ {
                            assert(self.holds(q, at as int));
                        } else {
                            let j = choose|j: int| before.holds(q, j);
                            assert(self.holds(q, j));
                        }
                    }
                }
                assert forall|q: Seq<u8>| self@.contains_key(q) implies self@[q] == before@.insert(k@, v)[q] by {
                    let j = choose|j: int| self.holds(q, j);
                    self.entry_is_mapped(j);
                    if j != at {
                        before.entry_is_mapped(j);
                        if q == k@ {
                            before.holds_once(q, j, at as int);
                        }
                    }
                }
                assert(self@ =~= before@.insert(k@, v));
            }
        } else {
            self.entries.insert(at, (k, v));
            proof {
                let n = before.entries@.len();
                assert forall|j: int| 0 <= j < n + 1 implies #[trigger] self.entries@[j] == if j < at {
                    before.entries@[j]
                } else if j == at {
                    (k, v)
                } else {
                    before.entries@[j - 1]
                } by {}
                assert(self.wf());
                assert forall|q: Seq<u8>| self@.contains_key(q) == before@.insert(k@, v).contains_key(q) by {
                    if self@.contains_key(q) {
                        let j = choose|j: int| self.holds(q, j);
                        if j < at {
                            assert(before.holds(q, j));
                        } else if j > at {
                            assert(before.holds(q, j - 1));
                        }
                    }
                    if before@.insert(k@, v).contains_key(q) {
                        if q == k@ {
                            assert(self.holds(q, at as int));
                        } else {
                            let j = choose|j: int| before.holds(q, j);
                            if j < at {
                                assert(self.holds(q, j));
                            } else {
                                assert(self.holds(q, j + 1));
                            }
                        }
                    }
                }
                assert forall|q: Seq<u8>| self@.contains_key(q) implies self@[q] == before@.insert(k@, v)[q] by {
                    let j = choose|j: int| self.holds(q, j);
                    self.entry_is_mapped(j);
                    if j < at {
                        before.entry_is_mapped(j);
                    } else if j > at {
                        before.entry_is_mapped(j - 1);
                    }
                }
                assert(self@ =~= before@.insert(k@, v));
            }
        }
    }
}

/// Keys are ordered by the first byte in which they differ, and are the same if there is none.
pub proof fn first_difference_decides(a: PublicKey, b: PublicKey, r: KeyOrder, same: bool, i: int)
    requires
        call_ensures(key_order, (&a, &b), r),
        call_ensures(key_equal, (&a, &b), same),
        0 <= i < 32,
    ensures
        a@.take(i) == b@.take(i) && a@[i] < b@[i] ==> r is Below,
        a@.take(i) == b@.take(i) && a@[i] > b@[i] ==> r is Above,
        r is Same ==> a@[i] == b@[i],
        same <==> r is Same,
        same <==> a@ == b@,
{
    if a@.take(i) == b@.take(i) && a@[i] != b@[i] {
        assert forall|j: int| 0 <= j < i implies a@[j] == b@[j] by {
            assert(a@.take(i)[j] == b@.take(i)[j]);
        }
        if a@[i] < b@[i] {
            assert(differs_below(a@, b@, i));
        } else {
            assert(differs_below(b@, a@, i));
        }
    }
}

/// A list holds a key exactly if one of its keys has the same bytes.
pub proof fn listed_keys_are_found(keys: Vec<PublicKey>, k: PublicKey, r: bool)
    requires
        call_ensures(contains_key, (&keys, &k), r),
    ensures
        r <==> exists|i: int| 0 <= i < keys@.len() && (#[trigger] keys@[i])@ == k@,
        key_views(keys@).len() == keys@.len(),
        forall|i: int| 0 <= i < keys@.len() ==> key_views(keys@)[i] == (#[trigger] keys@[i])@,
{
    let views = key_views(keys@);
    if views.contains(k@) {
        let i = choose|i: int| 0 <= i < views.len() && views[i] == k@;
        assert(keys@[i]@ == k@);
    }
    assert forall|i: int| 0 <= i < keys@.len() && (#[trigger] keys@[i])@ == k@ implies views.contains(
        k@,
    ) by {
        assert(views[i] == k@);
    }
}

/// A map gives for each key the value that was put in last and not taken out since, and nothing for
/// any other key. What is done for one key does not touch another.
pub proof fn map_keeps_what_is_put_in<V>(
    m: &mut KeyMap<V>,
    k: PublicKey,
    v: V,
    after: KeyMap<V>,
    got: Option<&V>,
    n: &mut KeyMap<V>,
    taken: Option<V>,
    has: bool,
    other: Seq<u8>,
)
    requires
        call_ensures(KeyMap::<V>::insert, (m, k, v), ()),
        after@ == final(m)@,
        call_ensures(KeyMap::<V>::get, (&after, &k), got),
        call_ensures(KeyMap::<V>::remove, (n, &k), taken),
        call_ensures(KeyMap::<V>::contains, (&after, &k), has),
    ensures
        got matches Some(x) && *x == v,
        has,
        other != k@ ==> {
            &&& final(m)@.contains_key(other) <==> old(m)@.contains_key(other)
            &&& final(m)@[other] == old(m)@[other]
            &&& final(n)@.contains_key(other) <==> old(n)@.contains_key(other)
            &&& final(n)@[other] == old(n)@[other]
        },
        !final(n)@.contains_key(k@),
        taken is Some <==> old(n)@.contains_key(k@),
        taken matches Some(x) ==> x == old(n)@[k@],
{
}

} // verus!
