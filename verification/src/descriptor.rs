//! The descriptor record and the event derived from its result mask.
use vstd::prelude::*;
use crate::events::{
    failed_mask, host_pollout, read_mask, write_mask, Events, FAILED, POLLOUT, READ, WRITE,
};

verus! {

/// A raw descriptor handle of the host.
pub type RawFd = libc::c_int;

/// One polling record: a descriptor, the flags asked for, the flags reported.
#[derive(Debug, Clone, Copy)]
pub struct Descriptor {
    /// The raw descriptor handle.
    pub fd: RawFd,
    /// The interest mask.
    pub events: Events,
    /// The result mask of the last polling round.
    pub revents: Events,
}

impl Descriptor {
    /// A record for `fd` with the interest mask `events` and nothing reported.
    pub fn new(fd: RawFd, events: Events) -> (d: Self)
        ensures
            d == (Descriptor { fd, events, revents: 0 }),
    {
        Self { fd, events, revents: 0 }
    }

    /// Replaces the interest mask.
    pub fn set(&mut self, events: Events)
        ensures
            *final(self) == (Descriptor { events, ..*old(self) }),
    {
        self.events = events;
    }

    /// Narrows the interest mask: the flags in `events` are dropped from it.
    pub fn unset(&mut self, events: Events)
        ensures
            *final(self) == (Descriptor { events: old(self).events & !events, ..*old(self) }),
    {
        self.events = self.events & !events;
    }
}

/// What the caller owes a ready record before it uses the event.
#[derive(Debug, Clone, Copy, PartialEq, Eq, Structural)]
pub enum Wakeup {
    /// The record's slot belongs to no waker: nothing to do.
    Idle,
    /// The slot belongs to a waker and the result mask is of the readable
    /// class: exactly one byte is to be read from this reader.
    Drain(RawFd),
    /// The slot belongs to a waker but the result mask is not one a wakeup
    /// can produce: the wakeup protocol was broken.
    Broken,
}

impl Wakeup {
    /// The duty that a result mask `revents` brings for a slot whose waker
    /// reader, if it has one, is `reader`.
    pub open spec fn duty(reader: Option<RawFd>, revents: Events) -> Wakeup {
        match reader {
            None => Wakeup::Idle,
            Some(fd) => if revents & READ != 0 && revents & POLLOUT == 0 {
                Wakeup::Drain(fd)
            } else {
                Wakeup::Broken
            },
        }
    }

    /// Computes [`Wakeup::duty`].
    pub fn of(reader: Option<RawFd>, revents: Events) -> (w: Wakeup)
        ensures
            w == Wakeup::duty(reader, revents),
    {
        match reader {
            None => Wakeup::Idle,
            Some(fd) => if revents & read_mask() != 0 && revents & host_pollout() == 0 {
                Wakeup::Drain(fd)
            } else {
                Wakeup::Broken
            },
        }
    }
}

/// A ready record as the caller sees it.
#[derive(Debug, Clone, Copy)]
pub struct Event {
    /// The file is writable.
    pub writable: bool,
    /// The file is readable.
    pub readable: bool,
    /// An error has occured on the file.
    pub errored: bool,
    /// The record as it stood when the round ended.
    pub descriptor: Descriptor,
    /// The record's position in the registry at that time.
    pub slot: usize,
    /// What is owed to the waker of this slot, if it has one.
    pub wakeup: Wakeup,
}

impl Event {
    /// The event that the record `descriptor` at position `slot` stands for.
    pub open spec fn interpret(descriptor: Descriptor, slot: usize, reader: Option<RawFd>) -> Event {
        Event {
            writable: descriptor.revents & WRITE != 0,
            readable: descriptor.revents & READ != 0,
            errored: descriptor.revents & FAILED != 0,
            descriptor,
            slot,
            wakeup: Wakeup::duty(reader, descriptor.revents),
        }
    }

    /// Computes [`Event::interpret`].
    pub fn new(descriptor: Descriptor, slot: usize, reader: Option<RawFd>) -> (e: Event)
        ensures
            e == Event::interpret(descriptor, slot, reader),
    {
        let revents: Events = descriptor.revents;
        Event {
            writable: revents & write_mask() != 0,
            readable: revents & read_mask() != 0,
            errored: revents & failed_mask() != 0,
            descriptor,
            slot,
            wakeup: Wakeup::of(reader, revents),
        }
    }
}

} // verus!
