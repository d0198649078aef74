//! What holds of the registry whatever is done to it.
use vstd::prelude::*;
use vstd::std_specs::cmp::PartialEqSpec;
use crate::descriptor::{Descriptor, Event, RawFd};
use crate::events::{lemma_masks, Events, POLLERR, POLLHUP, POLLIN, POLLNVAL, POLLOUT, POLLPRI};
use crate::poll::after_round;
use crate::registry::{Change, Registry};

verus! {

/// The three classes of an event go by the flags of the result mask, and
/// they overlap: an error condition makes an event readable, writable and
/// errored at once, a hang up makes it readable, an invalid descriptor makes
/// it errored only.
pub proof fn lemma_event_classes(descriptor: Descriptor, slot: usize, reader: Option<RawFd>)
    ensures
        ({
            let event = Event::interpret(descriptor, slot, reader);
            let revents = descriptor.revents;
            &&& event.readable <==> (revents & POLLIN != 0 || revents & POLLHUP != 0 || revents
                & POLLERR != 0 || revents & POLLPRI != 0)
            &&& event.writable <==> (revents & POLLOUT != 0 || revents & POLLERR != 0)
            &&& event.errored <==> (revents & POLLERR != 0 || revents & POLLNVAL != 0)
            &&& event.descriptor == descriptor
            &&& event.slot == slot
        }),
{
    lemma_masks(descriptor.revents);
}

/// One change keeps keys and records aligned.
pub proof fn lemma_change_keeps_alignment<K: PartialEq>(reg: Registry<K>, change: Change<K>)
    requires
        reg.aligned(),
    ensures
        reg.apply(change).aligned(),
{
    match change {
        Change::Unregister(key) => {
            reg.lemma_absent(key);
        },
        Change::Interest(key, events) => {
            reg.lemma_absent(key);
        },
        _ => {},
    }
}

/// Whatever sequence of registrations, removals, changes of interest and
/// polling rounds a registry goes through, its keys and its records stay of
/// one length: position `i` of the keys belongs to position `i` of the records.
pub proof fn lemma_changes_keep_alignment<K: PartialEq>(reg: Registry<K>, changes: Seq<Change<K>>)
    requires
        reg.aligned(),
    ensures
        reg.apply_all(changes).aligned(),
    decreases changes.len(),
{
    if changes.len() > 0 {
        lemma_changes_keep_alignment(reg, changes.drop_last());
        lemma_change_keeps_alignment(reg.apply_all(changes.drop_last()), changes.last());
    }
}

/// Removing a key that is not there changes nothing: every registration
/// stays where it was.
pub proof fn lemma_unregister_absent<K: PartialEq>(reg: Registry<K>, key: K)
    requires
        reg.absent(key),
    ensures
        reg.unregister(key) == reg,
{
    reg.lemma_absent(key);
}

/// Removing a key that is there takes out its first registration and moves
/// the last one into its place; all others stay where they were.
pub proof fn lemma_unregister_present<K: PartialEq>(reg: Registry<K>, key: K, ix: int)
    requires
        reg.aligned(),
        reg.is_first(key, ix),
    ensures
        reg.unregister(key).aligned(),
        reg.unregister(key).len() == reg.len() - 1,
        reg.unregister(key).wakers == reg.wakers,
        forall|j: int|
            0 <= j < reg.len() - 1 && j != ix ==> {
                &&& #[trigger] reg.unregister(key).keys[j] == reg.keys[j]
                &&& reg.unregister(key).records[j] == reg.records[j]
            },
        ix < reg.len() - 1 ==> {
            &&& reg.unregister(key).keys[ix] == reg.keys.last()
            &&& reg.unregister(key).records[ix] == reg.records.last()
        },
{
    reg.lemma_position(key, ix);
}

/// Setting the interest of a key that is not there changes nothing.
pub proof fn lemma_set_absent<K: PartialEq>(reg: Registry<K>, key: K, events: Events)
    requires
        reg.absent(key),
    ensures
        reg.set(key, events) == reg,
{
    reg.lemma_absent(key);
}

/// Setting the interest of a key that is there changes the interest mask of
/// its first registration and nothing else: not its descriptor, not its
/// result mask, no key, no other record, no waker slot.
pub proof fn lemma_set_present<K: PartialEq>(reg: Registry<K>, key: K, events: Events, ix: int)
    requires
        reg.aligned(),
        reg.is_first(key, ix),
    ensures
        reg.set(key, events).keys == reg.keys,
        reg.set(key, events).wakers == reg.wakers,
        reg.set(key, events).records.len() == reg.records.len(),
        reg.set(key, events).records[ix] == (Descriptor { events, ..reg.records[ix] }),
        forall|j: int|
            0 <= j < reg.len() && j != ix ==> #[trigger] reg.set(key, events).records[j]
                == reg.records[j],
{
    reg.lemma_position(key, ix);
}

/// Setting the same interest twice is the same as setting it once.
pub proof fn lemma_set_idempotent<K: PartialEq>(reg: Registry<K>, key: K, events: Events)
    requires
        reg.aligned(),
    ensures
        reg.set(key, events).set(key, events) == reg.set(key, events),
{
    reg.lemma_absent(key);
    match reg.position(key) {
        Some(ix) => {
            let once = reg.set(key, events);
            assert(once.keys == reg.keys);
            assert(once.is_first(key, ix));
            once.lemma_position(key, ix);
            assert(once.set(key, events).records =~= once.records);
        },
        None => {},
    }
}

/// A key that equals itself is found once it is registered: the first
/// registration under it exists.
pub proof fn lemma_registered_is_found<K: PartialEq>(
    reg: Registry<K>,
    key: K,
    descriptor: Descriptor,
)
    requires
        reg.aligned(),
        key.eq_spec(&key),
    ensures
        reg.insert(key, descriptor).position(key) is Some,
{
    let after = reg.insert(key, descriptor);
    assert(after.keys[reg.len() as int] == key);
    after.lemma_first_exists(key, reg.len() as int);
}

/// Registering a descriptor under a new key with an interest mask and then
/// setting that same mask under that key finds the registration, at the end
/// of the registry, and changes nothing.
pub proof fn lemma_register_then_set<K: PartialEq>(
    reg: Registry<K>,
    key: K,
    fd: RawFd,
    events: Events,
)
    requires
        reg.aligned(),
        key.eq_spec(&key),
        reg.absent(key),
    ensures
        reg.insert(key, Descriptor { fd, events, revents: 0 }).position(key) == Some(
            reg.len() as int,
        ),
        reg.insert(key, Descriptor { fd, events, revents: 0 }).set(key, events) == reg.insert(
            key,
            Descriptor { fd, events, revents: 0 },
        ),
{
    let after = reg.insert(key, Descriptor { fd, events, revents: 0 });
    let ix = reg.len() as int;
    assert(after.keys[ix] == key);
    assert forall|j: int| 0 <= j < ix implies !(#[trigger] after.keys[j]).eq_spec(&key) by {
        assert(after.keys[j] == reg.keys[j]);
    }
    assert(after.is_first(key, ix));
    after.lemma_position(key, ix);
    assert(after.set(key, events).records =~= after.records);
}

/// A failed polling round changes no record: every result mask is the one of
/// the round before.
pub proof fn lemma_failed_round<K>(reg: Registry<K>, code: int, results: Seq<Events>)
    requires
        code < 0,
    ensures
        after_round(reg, code, results) == reg,
{
}

/// A polling round touches nothing but the result masks: keys, descriptors,
/// interest masks and waker slots are as before, and the registry is as long.
pub proof fn lemma_round_keeps_interest<K>(reg: Registry<K>, code: int, results: Seq<Events>)
    requires
        reg.aligned(),
    ensures
        after_round(reg, code, results).keys == reg.keys,
        after_round(reg, code, results).wakers == reg.wakers,
        after_round(reg, code, results).records.len() == reg.records.len(),
        forall|i: int|
            0 <= i < reg.len() ==> {
                &&& (#[trigger] after_round(reg, code, results).records[i]).fd == reg.records[i].fd
                &&& after_round(reg, code, results).records[i].events == reg.records[i].events
            },
{
}

/// The events of a registry are those of its ready records and no others,
/// in registry order: each event stands for a position with a result mask
/// other than zero, later events stand for later positions, and every such
/// position has its event.
pub proof fn lemma_ready<K>(reg: Registry<K>, n: int)
    requires
        reg.aligned(),
        0 <= n <= reg.len() <= usize::MAX,
    ensures
        reg.ready_upto(n).len() <= n,
        forall|j: int|
            0 <= j < reg.ready_upto(n).len() ==> {
                let slot = (#[trigger] reg.ready_upto(n)[j]).1.slot as int;
                &&& 0 <= slot < n
                &&& reg.records[slot].revents != 0
                &&& reg.ready_upto(n)[j] == reg.event_at(slot)
            },
        forall|j: int, k: int|
            0 <= j < k < reg.ready_upto(n).len() ==> (#[trigger] reg.ready_upto(n)[j]).1.slot < (
            #[trigger] reg.ready_upto(n)[k]).1.slot,
        forall|slot: int|
            0 <= slot < n && (#[trigger] reg.records[slot]).revents != 0 ==> exists|j: int|
                0 <= j < reg.ready_upto(n).len() && (#[trigger] reg.ready_upto(n)[j]).1.slot
                    == slot,
    decreases n,
{
    if n > 0 {
        lemma_ready(reg, n - 1);
        let before = reg.ready_upto(n - 1);
        let now = reg.ready_upto(n);
        if reg.records[n - 1].revents != 0 {
            assert(now == before.push(reg.event_at(n - 1)));
            assert(now[before.len() as int].1.slot == n - 1);
            assert forall|slot: int|
                0 <= slot < n && (#[trigger] reg.records[slot]).revents != 0 implies exists|j: int|
                0 <= j < now.len() && (#[trigger] now[j]).1.slot == slot by {
                if slot < n - 1 {
                    let j = choose|j: int|
                        0 <= j < before.len() && (#[trigger] before[j]).1.slot == slot;
                    assert(now[j] == before[j]);
                } else {
                    assert(now[before.len() as int].1.slot == slot);
                }
            }
        } else {
            assert(now == before);
        }
    }
}

/// A round in which exactly one record is ready gives exactly one event: the
/// one of that record, under its key.
pub proof fn lemma_single_ready<K>(reg: Registry<K>, slot: int)
    requires
        reg.aligned(),
        reg.len() <= usize::MAX,
        0 <= slot < reg.len(),
        forall|i: int| 0 <= i < reg.len() ==> ((#[trigger] reg.records[i]).revents != 0 <==> i == slot),
    ensures
        reg.ready() == seq![reg.event_at(slot)],
{
    lemma_ready(reg, reg.len() as int);
    let v = reg.ready();
    assert(reg.records[slot].revents != 0);
    assert(v.len() >= 1);
    if v.len() > 1 {
        assert(v[0].1.slot < v[1].1.slot);
        assert(reg.records[v[0].1.slot as int].revents != 0);
        assert(reg.records[v[1].1.slot as int].revents != 0);
    }
    assert(v[0].1.slot == slot);
    assert(v =~= seq![reg.event_at(slot)]);
}

/// A round in which no record is ready gives no event.
pub proof fn lemma_none_ready<K>(reg: Registry<K>)
    requires
        reg.aligned(),
        reg.len() <= usize::MAX,
        forall|i: int| 0 <= i < reg.len() ==> (#[trigger] reg.records[i]).revents == 0,
    ensures
        reg.ready() == Seq::<(K, Event)>::empty(),
{
    lemma_ready(reg, reg.len() as int);
    let v = reg.ready();
    if v.len() > 0 {
        assert(reg.records[v[0].1.slot as int].revents != 0);
    }
    assert(v =~= Seq::empty());
}

} // verus!
