//! Wakers: the bookkeeping of the endpoint pair that interrupts a wait.
use vstd::prelude::*;
use crate::descriptor::RawFd;
use crate::registry::Descriptors;

verus! {

/// The byte that a wakeup writes.
pub const SENTINEL: u8 = 0x1;

/// The writing half of a waker. The reading half is registered in the
/// registry that the waker was made for.
#[derive(Debug)]
pub struct Waker {
    writer: RawFd,
}

impl Waker {
    /// The descriptor that wakeups are written to.
    pub closed spec fn writer(&self) -> RawFd {
        self.writer
    }

    /// Makes a waker from a connected pair of endpoints: `reader` is
    /// registered under `key` with read interest and its slot is noted as a
    /// waker slot; the waker keeps `writer`.
    pub fn new<K: Eq + Copy + Clone>(
        descriptors: &mut Descriptors<K>,
        key: K,
        reader: RawFd,
        writer: RawFd,
    ) -> (waker: Waker)
        requires
            old(descriptors).wf(),
        ensures
            final(descriptors).wf(),
            final(descriptors)@ == old(descriptors)@.insert_waker(key, reader),
            waker.writer() == writer,
    {
        descriptors.register_waker(key, reader);
        Waker { writer }
    }

    /// What a wakeup writes, and where: the sentinel byte, once, to the
    /// waker's writer.
    ///
    /// Wakeups are not merged. Each one queues a byte of its own and each
    /// round drains one byte, so two wakeups before a round leave the slot
    /// ready for the round after it as well.
    pub fn wake(&mut self) -> (write: (RawFd, u8))
        ensures
            write == (old(self).writer(), SENTINEL),
            final(self).writer() == old(self).writer(),
    {
        (self.writer, SENTINEL)
    }

    /// Whether a drain that read `read` bytes kept to the protocol: it has to
    /// read exactly the one byte of one wakeup.
    pub fn snooze(read: usize) -> (kept: bool)
        ensures
            kept == (read == 1),
    {
        read == 1
    }
}

} // verus!
