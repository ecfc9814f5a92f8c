use vstd::prelude::*;

use crate::netcore::L4Addr;

verus! {

/// Where a datagram from `from` goes: the registered entry, or nowhere.
pub open spec fn route<V>(m: Map<L4Addr, V>, from: L4Addr) -> Option<V> {
    if m.contains_key(from) {
        Some(m[from])
    } else {
        None
    }
}

/// The connection registry: for each peer address, the one entry (the
/// sender of that connection's inbound channel) that its datagrams go to.
pub struct Registry<V> {
    entries: Vec<(L4Addr, V)>,
    contents: Ghost<Map<L4Addr, V>>,
}

impl<V> View for Registry<V> {
    type V = Map<L4Addr, V>;

    closed spec fn view(&self) -> Map<L4Addr, V> {
        self.contents@
    }
}

impl<V> Registry<V> {
    /// Each address appears in one entry at most, and the entries are
    /// exactly the contents.
    pub closed spec fn wf(&self) -> bool {
        &&& forall|j: int, k: int|
            0 <= j < self.entries@.len() && 0 <= k < self.entries@.len() && #[trigger] self.entries@[j].0
                == #[trigger] self.entries@[k].0 ==> j == k
        &&& forall|j: int|
            0 <= j < self.entries@.len() ==> self.contents@.contains_key(#[trigger] self.entries@[j].0)
                && self.contents@[self.entries@[j].0] == self.entries@[j].1
        &&& forall|a: L4Addr|
            #[trigger] self.contents@.contains_key(a) ==> exists|j: int|
                0 <= j < self.entries@.len() && #[trigger] self.entries@[j].0 == a
    }

    /// An empty registry.
    pub fn new() -> (r: Self)
        ensures
            r.wf(),
            r@ == Map::<L4Addr, V>::empty(),
    {
        Registry { entries: Vec::new(), contents: Ghost(Map::empty()) }
    }

    /// The position of the entry for `addr`, if there is one.
    fn find(&self, addr: &L4Addr) -> (r: Option<usize>)
        requires
            self.wf(),
        ensures
            r matches Some(i) ==> i < self.entries@.len() && self.entries@[i as int].0 == *addr,
            r is None ==> !self@.contains_key(*addr),
    {
        let mut i: usize = 0;
        while i < self.entries.len()
            invariant
                0 <= i <= self.entries@.len(),
                forall|j: int| 0 <= j < i ==> self.entries@[j].0 != *addr,
            decreases self.entries@.len() - i,
        {
            if self.entries[i].0 == *addr {
                return Some(i);
            }
            i = i + 1;
        }
        None
    }

    /// The number of registered addresses.
    pub fn len(&self) -> (r: usize)
        requires
            self.wf(),
        ensures
            r == self@.dom().len(),
    {
        proof {
            self.lemma_len();
        }
        self.entries.len()
    }

    proof fn lemma_len(&self)
        requires
            self.wf(),
        ensures
            self@.dom().len() == self.entries@.len(),
    {
        let keys = Seq::new(self.entries@.len(), |j: int| self.entries@[j].0);
        assert(keys.no_duplicates()) by {
            assert forall|j: int, k: int|
                0 <= j < keys.len() && 0 <= k < keys.len() && j != k implies keys[j]
                != keys[k] by {
                assert(keys[j] == self.entries@[j].0);
                assert(keys[k] == self.entries@[k].0);
            }
        }
        assert(keys.to_set() =~= self@.dom()) by {
            assert forall|a: L4Addr| keys.to_set().contains(a) implies self@.dom().contains(a) by {
                let j = choose|j: int| 0 <= j < keys.len() && keys[j] == a;
                assert(self.entries@[j].0 == a);
            }
            assert forall|a: L4Addr| self@.dom().contains(a) implies keys.to_set().contains(a) by {
                let j = choose|j: int| 0 <= j < self.entries@.len() && #[trigger] self.entries@[j].0 == a;
                assert(keys[j] == a);
            }
        }
        keys.unique_seq_to_set();
    }

    /// Whether `addr` has an entry.
    pub fn contains(&self, addr: &L4Addr) -> (r: bool)
        requires
            self.wf(),
        ensures
            r == self@.contains_key(*addr),
    {
        match self.find(addr) {
            Some(_) => true,
            None => false,
        }
    }

    /// The entry that a datagram from `addr` is delivered to; `None` when the
    /// address is not registered, and the datagram is dropped.
    pub fn get(&self, addr: &L4Addr) -> (r: Option<&V>)
        requires
            self.wf(),
        ensures
            r matches Some(v) ==> *v == self@[*addr],
            r is Some == self@.contains_key(*addr),
            r matches Some(v) ==> route(self@, *addr) == Some(*v),
    {
        match self.find(addr) {
            Some(i) => Some(&self.entries[i].1),
            None => None,
        }
    }

    /// Registers `value` for `addr`. An entry that was there for the same
    /// address is replaced, and handed back.
    pub fn insert(&mut self, addr: L4Addr, value: V) -> (r: Option<V>)
        requires
            old(self).wf(),
        ensures
            final(self).wf(),
            final(self)@ == old(self)@.insert(addr, value),
            r is Some == old(self)@.contains_key(addr),
            r matches Some(v) ==> v == old(self)@[addr],
    {
        match self.find(&addr) {
            Some(i) => {
                let ghost old_entries = self.entries@;
                let (_, previous) = self.entries.remove(i);
                self.entries.insert(i, (addr, value));
                proof {
                    assert(self.entries@ =~= old_entries.update(i as int, (addr, value)));
                    self.contents@ = self.contents@.insert(addr, value);
                    assert forall|a: L4Addr|
                        #[trigger] self.contents@.contains_key(a) implies exists|j: int|
                            0 <= j < self.entries@.len() && #[trigger] self.entries@[j].0 == a by {
                        if a != addr {
                            let j = choose|j: int|
                                0 <= j < old_entries.len() && #[trigger] old_entries[j].0 == a;
                            assert(self.entries@[j].0 == a);
                        } else {
                            assert(self.entries@[i as int].0 == a);
                        }
                    }
                }
                Some(previous)
            },
            None => {
                let ghost old_entries = self.entries@;
                self.entries.push((addr, value));
                proof {
                    self.contents@ = self.contents@.insert(addr, value);
                    assert forall|a: L4Addr|
                        #[trigger] self.contents@.contains_key(a) implies exists|j: int|
                            0 <= j < self.entries@.len() && #[trigger] self.entries@[j].0 == a by {
                        if a != addr {
                            let j = choose|j: int|
                                0 <= j < old_entries.len() && #[trigger] old_entries[j].0 == a;
                            assert(self.entries@[j].0 == a);
                        } else {
                            assert(self.entries@[old_entries.len() as int].0 == a);
                        }
                    }
                }
                None
            },
        }
    }

    /// Removes the entry for `addr`, handing it back; the other entries stay.
    pub fn remove(&mut self, addr: &L4Addr) -> (r: Option<V>)
        requires
            old(self).wf(),
        ensures
            final(self).wf(),
            final(self)@ == old(self)@.remove(*addr),
            r is Some == old(self)@.contains_key(*addr),
            r matches Some(v) ==> v == old(self)@[*addr],
    {
        match self.find(addr) {
            None => {
                proof {
                    assert(self@.remove(*addr) =~= self@);
                }
                None
            },
            Some(i) => {
                let ghost old_entries = self.entries@;
                let ghost old_contents = self.contents@;
                let ghost last = old_entries.len() - 1;
                let (_, value) = self.entries.swap_remove(i);
                proof {
                    self.contents@ = old_contents.remove(*addr);
                    assert forall|j: int| 0 <= j < self.entries@.len() implies #[trigger] self.entries@[j]
                        == (if j == i {
                        old_entries[last]
                    } else {
                        old_entries[j]
                    }) by {}
                    assert forall|j: int, k: int|
                        0 <= j < self.entries@.len() && 0 <= k < self.entries@.len()
                            && #[trigger] self.entries@[j].0 == #[trigger] self.entries@[k].0 implies j
                        == k by {
                        let oj = if j == i { last } else { j };
                        let ok = if k == i { last } else { k };
                        assert(old_entries[oj].0 == old_entries[ok].0);
                    }
                    assert forall|j: int| 0 <= j < self.entries@.len() implies self.contents@.contains_key(
                        #[trigger] self.entries@[j].0,
                    ) && self.contents@[self.entries@[j].0] == self.entries@[j].1 by {
                        let oj = if j == i { last } else { j };
                        assert(old_entries[oj] == self.entries@[j]);
                        assert(oj != i as int);
                        assert(old_entries[oj].0 != *addr);
                    }
                    assert forall|a: L4Addr| #[trigger] self.contents@.contains_key(a) implies exists|j: int|
                        0 <= j < self.entries@.len() && #[trigger] self.entries@[j].0 == a by {
                        let j = choose|j: int|
                            0 <= j < old_entries.len() && #[trigger] old_entries[j].0 == a;
                        assert(j != i as int);
                        if j == last {
                            assert(self.entries@[i as int].0 == a);
                        } else {
                            assert(self.entries@[j].0 == a);
                        }
                    }
                }
                Some(value)
            },
        }
    }
}

/// A second registration for an address replaces the first: the registry
/// then holds the second entry alone for that address, and the other
/// addresses keep theirs.
pub proof fn lemma_insert_replaces<V>(m: Map<L4Addr, V>, addr: L4Addr, first: V, second: V)
    ensures
        m.insert(addr, first).insert(addr, second) == m.insert(addr, second),
        route(m.insert(addr, first).insert(addr, second), addr) == Some(second),
        forall|b: L4Addr|
            b != addr ==> route(m.insert(addr, first).insert(addr, second), b) == route(m, b),
{
    assert(m.insert(addr, first).insert(addr, second) =~= m.insert(addr, second));
}

/// A datagram from an address with no entry goes nowhere, and registering
/// or routing for one address leaves where every other address's datagrams
/// go as it was.
pub proof fn lemma_unregistered_dropped<V>(m: Map<L4Addr, V>, stray: L4Addr, addr: L4Addr, value: V)
    requires
        !m.contains_key(stray),
    ensures
        route(m, stray) is None,
        stray != addr ==> route(m.insert(addr, value), stray) is None,
        forall|b: L4Addr| b != addr ==> route(m.insert(addr, value), b) == route(m, b),
{
}

/// The payloads that reach the connection registered for `a` when the
/// datagrams `dgs` (source and bytes) arrive one after another: each is
/// routed by its source alone.
pub open spec fn delivered<V>(m: Map<L4Addr, V>, dgs: Seq<(L4Addr, Seq<u8>)>, a: L4Addr) -> Seq<
    Seq<u8>,
>
    decreases dgs.len(),
{
    if dgs.len() == 0 {
        Seq::empty()
    } else {
        let rest = delivered(m, dgs.drop_last(), a);
        let d = dgs.last();
        if route(m, d.0) is Some && d.0 == a {
            rest.push(d.1)
        } else {
            rest
        }
    }
}

/// The payloads among `dgs` that came from `a`, in arrival order.
pub open spec fn sent_from(dgs: Seq<(L4Addr, Seq<u8>)>, a: L4Addr) -> Seq<Seq<u8>>
    decreases dgs.len(),
{
    if dgs.len() == 0 {
        Seq::empty()
    } else {
        let rest = sent_from(dgs.drop_last(), a);
        if dgs.last().0 == a {
            rest.push(dgs.last().1)
        } else {
            rest
        }
    }
}

/// A registered connection receives exactly the datagrams that came from
/// its address, unchanged and in arrival order; an unregistered address
/// receives nothing.
pub proof fn lemma_delivery_in_order<V>(m: Map<L4Addr, V>, dgs: Seq<(L4Addr, Seq<u8>)>, a: L4Addr)
    ensures
        m.contains_key(a) ==> delivered(m, dgs, a) == sent_from(dgs, a),
        !m.contains_key(a) ==> delivered(m, dgs, a) == Seq::<Seq<u8>>::empty(),
    decreases dgs.len(),
{
    if dgs.len() > 0 {
        lemma_delivery_in_order(m, dgs.drop_last(), a);
    }
}

/// A datagram from an address with no entry changes what no connection
/// receives.
pub proof fn lemma_stray_datagram_ignored<V>(
    m: Map<L4Addr, V>,
    dgs: Seq<(L4Addr, Seq<u8>)>,
    stray: (L4Addr, Seq<u8>),
    b: L4Addr,
)
    requires
        !m.contains_key(stray.0),
    ensures
        delivered(m, dgs.push(stray), b) == delivered(m, dgs, b),
{
    assert(dgs.push(stray).drop_last() =~= dgs);
}

} // verus!
