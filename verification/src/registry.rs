//! The keyed registry of descriptor records, and its mathematical model.
use std::collections::HashMap;
use vstd::prelude::*;
use vstd::std_specs::cmp::PartialEqSpec;
use crate::descriptor::{Descriptor, Event, RawFd};
use crate::events::{read_mask, Events, READ};

verus! {

broadcast use vstd::std_specs::hash::group_hash_axioms;

/// What a registry holds: the keys and the records, position by position,
/// and the reader of each slot that a waker made.
pub struct Registry<K> {
    /// The keys, in registry order.
    pub keys: Seq<K>,
    /// The records, in registry order.
    pub records: Seq<Descriptor>,
    /// The waker slots, each with the reader that is drained for it.
    pub wakers: Map<usize, RawFd>,
}

/// One change to a registry.
pub enum Change<K> {
    /// A record is appended under a key.
    Insert(K, Descriptor),
    /// A waker's reader is appended under a key.
    Waker(K, RawFd),
    /// The first record under a key is removed.
    Unregister(K),
    /// The first record under a key gets another interest mask.
    Interest(K, Events),
    /// The record at a position loses flags of its interest mask.
    Narrow(usize, Events),
    /// A polling round reports one result mask for each record.
    Results(Seq<Events>),
}

impl<K> Registry<K> {
    /// The registry that holds nothing.
    pub open spec fn empty() -> Self {
        Registry { keys: Seq::empty(), records: Seq::empty(), wakers: Map::empty() }
    }

    /// Keys and records are of one length, so that position `i` of the one
    /// and position `i` of the other describe the same registration.
    pub open spec fn aligned(self) -> bool {
        self.keys.len() == self.records.len()
    }

    /// The number of registrations.
    pub open spec fn len(self) -> nat {
        self.records.len()
    }

    /// The registry with one more registration at its end.
    pub open spec fn insert(self, key: K, descriptor: Descriptor) -> Self {
        Registry {
            keys: self.keys.push(key),
            records: self.records.push(descriptor),
            wakers: self.wakers,
        }
    }

    /// The registry with a waker's reader registered at its end, with read
    /// interest, and the new slot noted as a waker slot.
    pub open spec fn insert_waker(self, key: K, reader: RawFd) -> Self
        recommends
            self.records.len() <= usize::MAX,
    {
        Registry {
            keys: self.keys.push(key),
            records: self.records.push(Descriptor { fd: reader, events: READ, revents: 0 }),
            wakers: self.wakers.insert(self.records.len() as usize, reader),
        }
    }

    /// The registry without position `ix`: the last registration takes its
    /// place. The table of waker slots stays as it is.
    pub open spec fn remove_at(self, ix: int) -> Self
        recommends
            self.aligned(),
            0 <= ix < self.len(),
    {
        Registry {
            keys: self.keys.update(ix, self.keys.last()).drop_last(),
            records: self.records.update(ix, self.records.last()).drop_last(),
            wakers: self.wakers,
        }
    }

    /// The registry with the interest mask at position `ix` replaced.
    pub open spec fn set_at(self, ix: int, events: Events) -> Self
        recommends
            0 <= ix < self.len(),
    {
        Registry {
            keys: self.keys,
            records: self.records.update(ix, Descriptor { events, ..self.records[ix] }),
            wakers: self.wakers,
        }
    }

    /// The registry with the flags `events` dropped from the interest mask at
    /// position `slot`; unchanged where there is no such position.
    pub open spec fn narrow(self, slot: usize, events: Events) -> Self {
        if slot < self.len() {
            self.set_at(slot as int, self.records[slot as int].events & !events)
        } else {
            self
        }
    }

    /// The registry after a polling round that reported `results`: each
    /// record carries its result mask. A report of another length than the
    /// registry changes nothing.
    pub open spec fn with_results(self, results: Seq<Events>) -> Self {
        if results.len() == self.records.len() {
            Registry {
                keys: self.keys,
                records: Seq::new(
                    self.records.len(),
                    |i: int| Descriptor { revents: results[i], ..self.records[i] },
                ),
                wakers: self.wakers,
            }
        } else {
            self
        }
    }

    /// The reader noted for `slot`, if it is a waker slot.
    pub open spec fn reader(self, slot: usize) -> Option<RawFd> {
        if self.wakers.contains_key(slot) {
            Some(self.wakers[slot])
        } else {
            None
        }
    }

    /// The key and the event of position `i`.
    pub open spec fn event_at(self, i: int) -> (K, Event)
        recommends
            self.aligned(),
            0 <= i < self.len(),
    {
        (self.keys[i], Event::interpret(self.records[i], i as usize, self.reader(i as usize)))
    }

    /// The events of the first `n` positions: one for each record with a
    /// result mask other than zero, in registry order.
    pub open spec fn ready_upto(self, n: int) -> Seq<(K, Event)>
        recommends
            self.aligned(),
            0 <= n <= self.len(),
        decreases n,
    {
        if n <= 0 {
            Seq::empty()
        } else if self.records[n - 1].revents != 0 {
            self.ready_upto(n - 1).push(self.event_at(n - 1))
        } else {
            self.ready_upto(n - 1)
        }
    }

    /// The events of the whole registry.
    pub open spec fn ready(self) -> Seq<(K, Event)> {
        self.ready_upto(self.len() as int)
    }
}

impl<K: PartialEq> Registry<K> {
    /// Position `ix` holds the first key that equals `key`.
    pub open spec fn is_first(self, key: K, ix: int) -> bool {
        &&& 0 <= ix < self.keys.len()
        &&& self.keys[ix].eq_spec(&key)
        &&& forall|j: int| 0 <= j < ix ==> !(#[trigger] self.keys[j]).eq_spec(&key)
    }

    /// No key equals `key`.
    pub open spec fn absent(self, key: K) -> bool {
        forall|j: int| 0 <= j < self.keys.len() ==> !(#[trigger] self.keys[j]).eq_spec(&key)
    }

    /// The position of the first key that equals `key`, if there is one.
    pub open spec fn position(self, key: K) -> Option<int> {
        if exists|ix: int| self.is_first(key, ix) {
            Some(choose|ix: int| self.is_first(key, ix))
        } else {
            None
        }
    }

    /// The registry without the first registration under `key`.
    pub open spec fn unregister(self, key: K) -> Self {
        match self.position(key) {
            Some(ix) => self.remove_at(ix),
            None => self,
        }
    }

    /// The registry with the interest mask of the first registration under
    /// `key` replaced.
    pub open spec fn set(self, key: K, events: Events) -> Self {
        match self.position(key) {
            Some(ix) => self.set_at(ix, events),
            None => self,
        }
    }

    /// The registry after one change.
    pub open spec fn apply(self, change: Change<K>) -> Self {
        match change {
            Change::Insert(key, descriptor) => self.insert(key, descriptor),
            Change::Waker(key, reader) => self.insert_waker(key, reader),
            Change::Unregister(key) => self.unregister(key),
            Change::Interest(key, events) => self.set(key, events),
            Change::Narrow(slot, events) => self.narrow(slot, events),
            Change::Results(results) => self.with_results(results),
        }
    }

    /// The registry after a sequence of changes, the first one first.
    pub open spec fn apply_all(self, changes: Seq<Change<K>>) -> Self
        decreases changes.len(),
    {
        if changes.len() == 0 {
            self
        } else {
            self.apply_all(changes.drop_last()).apply(changes.last())
        }
    }

    /// The first match is unique, so `position` is the one place that
    /// `is_first` holds of.
    pub proof fn lemma_position(self, key: K, ix: int)
        requires
            self.is_first(key, ix),
        ensures
            self.position(key) == Some(ix),
    {
        let other = choose|i: int| self.is_first(key, i);
        assert(self.is_first(key, other));
        if other < ix {
            assert(!self.keys[other].eq_spec(&key));
        }
        if ix < other {
            assert(!self.keys[ix].eq_spec(&key));
        }
    }

    /// Where no key matches there is no position, and the other way round.
    pub proof fn lemma_absent(self, key: K)
        ensures
            self.absent(key) <==> self.position(key) is None,
            self.position(key) matches Some(ix) ==> self.is_first(key, ix),
    {
        if self.position(key) is None {
            assert forall|j: int| 0 <= j < self.keys.len() implies !(#[trigger] self.keys[j]).eq_spec(
                &key,
            ) by {
                if self.keys[j].eq_spec(&key) {
                    self.lemma_first_exists(key, j);
                }
            }
        } else {
            let ix = choose|i: int| self.is_first(key, i);
            assert(self.is_first(key, ix));
            assert(self.keys[ix].eq_spec(&key));
        }
    }

    /// Below any match there is a first one.
    pub proof fn lemma_first_exists(self, key: K, j: int)
        requires
            0 <= j < self.keys.len(),
            self.keys[j].eq_spec(&key),
        ensures
            exists|ix: int| self.is_first(key, ix),
        decreases j,
    {
        if exists|i: int| 0 <= i < j && (#[trigger] self.keys[i]).eq_spec(&key) {
            let i = choose|i: int| 0 <= i < j && (#[trigger] self.keys[i]).eq_spec(&key);
            self.lemma_first_exists(key, i);
        } else {
            assert(self.is_first(key, j));
        }
    }
}

/// A keyed registry of descriptor records.
///
/// Keys are not checked for uniqueness: a key registered twice has two
/// independent registrations, and `unregister` and `set` act on the first.
/// Removal moves the last registration into the freed position, so positions
/// are not stable across removals.
pub struct Descriptors<K> {
    wakers: HashMap<usize, RawFd>,
    index: Vec<K>,
    list: Vec<Descriptor>,
}

impl<K> View for Descriptors<K> {
    type V = Registry<K>;

    closed spec fn view(&self) -> Registry<K> {
        Registry { keys: self.index@, records: self.list@, wakers: self.wakers@ }
    }
}

impl<K: Eq + Copy + Clone> Descriptors<K> {
    /// The registry's invariant: keys and records are aligned.
    pub open spec fn wf(&self) -> bool {
        self@.aligned()
    }

    /// An empty registry.
    pub fn new() -> (fds: Self)
        ensures
            fds.wf(),
            fds@ == Registry::<K>::empty(),
    {
        let wakers: HashMap<usize, RawFd> = HashMap::new();
        Self { wakers, index: Vec::new(), list: Vec::new() }
    }

    /// An empty registry with room for `cap` registrations.
    pub fn with_capacity(cap: usize) -> (fds: Self)
        ensures
            fds.wf(),
            fds@ == Registry::<K>::empty(),
    {
        let wakers: HashMap<usize, RawFd> = HashMap::new();
        Self { wakers, index: Vec::with_capacity(cap), list: Vec::with_capacity(cap) }
    }

    /// The number of registrations.
    pub fn len(&self) -> (n: usize)
        requires
            self.wf(),
        ensures
            n == self@.len(),
            n == self@.keys.len(),
    {
        self.list.len()
    }

    /// The keys, in registry order.
    pub fn keys(&self) -> (keys: &Vec<K>)
        ensures
            keys@ == self@.keys,
    {
        &self.index
    }

    /// The records, in registry order: what a polling round is run over.
    pub fn records(&self) -> (records: &Vec<Descriptor>)
        ensures
            records@ == self@.records,
    {
        &self.list
    }

    /// The reader noted for `slot`, if it is a waker slot.
    pub fn reader(&self, slot: usize) -> (reader: Option<RawFd>)
        ensures
            reader == self@.reader(slot),
    {
        match self.wakers.get(&slot) {
            Some(fd) => Some(*fd),
            None => None,
        }
    }

    /// Registers the descriptor `fd` under `key` with the interest mask
    /// `events`. The key is not compared with those already there.
    pub fn register(&mut self, key: K, fd: RawFd, events: Events)
        requires
            old(self).wf(),
        ensures
            final(self).wf(),
            final(self)@ == old(self)@.insert(key, Descriptor { fd, events, revents: 0 }),
    {
        self.insert(key, Descriptor::new(fd, events));
    }

    /// Appends the record `descriptor` under `key`.
    pub fn insert(&mut self, key: K, descriptor: Descriptor)
        requires
            old(self).wf(),
        ensures
            final(self).wf(),
            final(self)@ == old(self)@.insert(key, descriptor),
    {
        self.index.push(key);
        self.list.push(descriptor);
    }

    /// Registers the reader of a waker under `key`, with read interest, and
    /// notes its slot as a waker slot. A reader noted earlier for that slot
    /// is replaced.
    pub fn register_waker(&mut self, key: K, reader: RawFd)
        requires
            old(self).wf(),
        ensures
            final(self).wf(),
            final(self)@ == old(self)@.insert_waker(key, reader),
    {
        let slot: usize = self.list.len();
        self.wakers.insert(slot, reader);
        self.insert(key, Descriptor::new(reader, read_mask()));
    }

    /// The position of the first key that `==` finds equal to `key`.
    fn find(&self, key: K) -> (found: Option<usize>)
        requires
            self.wf(),
        ensures
            found matches Some(ix) ==> ix < self@.len(),
            K::obeys_eq_spec() ==> match found {
                Some(ix) => self@.position(key) == Some(ix as int),
                None => self@.position(key) is None,
            },
    {
        let mut i: usize = 0;
        while i < self.index.len()
            invariant
                self.wf(),
                i <= self.index@.len(),
                self.index@ == self@.keys,
                K::obeys_eq_spec() ==> forall|j: int|
                    0 <= j < i ==> !(#[trigger] self@.keys[j]).eq_spec(&key),
            decreases self.index@.len() - i,
        {
            if self.index[i] == key {
                proof {
                    if K::obeys_eq_spec() {
                        assert(self@.is_first(key, i as int));
                        self@.lemma_position(key, i as int);
                    }
                }
                return Some(i);
            }
            i = i + 1;
        }
        proof {
            if K::obeys_eq_spec() {
                assert(self@.absent(key));
                self@.lemma_absent(key);
            }
        }
        None
    }

    /// Removes the first registration under `key`; the last registration
    /// takes its place. Without such a registration nothing changes.
    pub fn unregister(&mut self, key: K)
        requires
            old(self).wf(),
        ensures
            final(self).wf(),
            final(self)@.wakers == old(self)@.wakers,
            final(self)@ == old(self)@ || exists|ix: int|
                0 <= ix < old(self)@.len() && final(self)@ == old(self)@.remove_at(ix),
            K::obeys_eq_spec() ==> final(self)@ == old(self)@.unregister(key),
    {
        if let Some(ix) = self.find(key) {
            self.index.swap_remove(ix);
            self.list.swap_remove(ix);
            assert(self@ == old(self)@.remove_at(ix as int));
        }
    }

    /// Replaces the interest mask of the first registration under `key`, and
    /// says whether there was one. No other record and no result mask changes.
    pub fn set(&mut self, key: K, events: Events) -> (found: bool)
        requires
            old(self).wf(),
        ensures
            final(self).wf(),
            !found ==> final(self)@ == old(self)@,
            found ==> exists|ix: int|
                0 <= ix < old(self)@.len() && final(self)@ == old(self)@.set_at(ix, events),
            K::obeys_eq_spec() ==> found == (old(self)@.position(key) is Some),
            K::obeys_eq_spec() ==> final(self)@ == old(self)@.set(key, events),
    {
        if let Some(ix) = self.find(key) {
            let d: Descriptor = self.list[ix];
            self.list.set(ix, Descriptor { fd: d.fd, events, revents: d.revents });
            assert(self@ == old(self)@.set_at(ix as int, events));
            return true;
        }
        false
    }

    /// Drops the flags `events` from the interest mask of the record at
    /// position `slot`, and says whether there is such a position.
    pub fn narrow(&mut self, slot: usize, events: Events) -> (found: bool)
        requires
            old(self).wf(),
        ensures
            final(self).wf(),
            found == (slot < old(self)@.len()),
            final(self)@ == old(self)@.narrow(slot, events),
    {
        if slot < self.list.len() {
            let mut d: Descriptor = self.list[slot];
            d.unset(events);
            self.list.set(slot, d);
            return true;
        }
        false
    }

    /// Writes the result masks of a polling round into the records, one for
    /// each, and says whether it did: a report of another length than the
    /// registry is not taken.
    pub fn record(&mut self, results: &Vec<Events>) -> (taken: bool)
        requires
            old(self).wf(),
        ensures
            final(self).wf(),
            taken == (results@.len() == old(self)@.len()),
            final(self)@ == old(self)@.with_results(results@),
    {
        if results.len() != self.list.len() {
            return false;
        }
        let n: usize = self.list.len();
        let mut i: usize = 0;
        while i < n
            invariant
                i <= n,
                n == self.list@.len(),
                n == results@.len(),
                n == old(self).list@.len(),
                self.index == old(self).index,
                self.wakers == old(self).wakers,
                forall|j: int|
                    0 <= j < i ==> self.list@[j] == (Descriptor {
                        revents: results@[j],
                        ..old(self).list@[j]
                    }),
                forall|j: int| i <= j < n ==> self.list@[j] == old(self).list@[j],
            decreases n - i,
        {
            let d: Descriptor = self.list[i];
            self.list.set(i, Descriptor { fd: d.fd, events: d.events, revents: results[i] });
            i = i + 1;
        }
        assert(self@.records =~= old(self)@.with_results(results@).records);
        true
    }

    /// The events of the registry as it stands: one for each record whose
    /// result mask is not zero, in registry order, each with its key.
    pub fn ready(&self) -> (events: Vec<(K, Event)>)
        requires
            self.wf(),
        ensures
            events@ == self@.ready(),
    {
        let mut events: Vec<(K, Event)> = Vec::new();
        let n: usize = self.list.len();
        let mut i: usize = 0;
        while i < n
            invariant
                self.wf(),
                i <= n,
                n == self@.len(),
                self.index@ == self@.keys,
                self.list@ == self@.records,
                events@ == self@.ready_upto(i as int),
            decreases n - i,
        {
            let d: Descriptor = self.list[i];
            if d.revents != 0 {
                let key: K = self.index[i];
                events.push((key, Event::new(d, i, self.reader(i))));
            }
            i = i + 1;
        }
        events
    }
}

} // verus!
