//! One polling round: the timeout handed to the host, and what its return
//! code and result masks mean for the registry.
use vstd::prelude::*;
use crate::descriptor::Event;
use crate::events::Events;
use crate::registry::{Descriptors, Registry};

verus! {

/// The outcome of a polling round that did not fail.
pub enum Poll<K> {
    /// No descriptor became ready before the timeout ran out.
    Timeout,
    /// The ready records, each with its key, in registry order.
    Ready(Vec<(K, Event)>),
}

/// Why a polling round gave no outcome.
#[derive(Debug, Clone, Copy, PartialEq, Eq, Structural)]
pub enum WaitError {
    /// The host's polling call failed: its return code was negative. The
    /// host's last error says why.
    Syscall,
    /// The round reported another number of result masks than the registry
    /// has records.
    Malformed,
}

impl<K> Poll<K> {
    /// The events of an outcome: none after a timeout.
    pub open spec fn events(self) -> Seq<(K, Event)> {
        match self {
            Poll::Timeout => Seq::empty(),
            Poll::Ready(events) => events@,
        }
    }

    /// The events of this outcome, in registry order; none after a timeout.
    pub fn iter(self) -> (events: Vec<(K, Event)>)
        ensures
            events@ == self.events(),
    {
        match self {
            Poll::Ready(events) => events,
            Poll::Timeout => Vec::new(),
        }
    }

    /// Whether the round timed out.
    pub fn is_empty(&self) -> (timed_out: bool)
        ensures
            timed_out == (self is Timeout),
    {
        match self {
            Poll::Timeout => true,
            Poll::Ready(_) => false,
        }
    }
}

/// A count of milliseconds cut down to the host's 32-bit signed timeout:
/// the low 32 bits, read as a two's complement number.
pub open spec fn truncated(millis: u128) -> int {
    let low = millis as int % 0x1_0000_0000;
    if low < 0x8000_0000 {
        low
    } else {
        low - 0x1_0000_0000
    }
}

/// The timeout that the host's polling call is given for a wait of `millis`
/// whole milliseconds. Up to `i32::MAX` it is `millis` itself, so zero stays
/// zero and the call does not block; beyond that it is cut to 32 bits.
pub fn timeout_millis(millis: u128) -> (timeout: libc::c_int)
    ensures
        timeout == truncated(millis),
        millis <= i32::MAX ==> timeout == millis,
{
    let low: u128 = millis % 0x1_0000_0000;
    if low < 0x8000_0000 {
        low as i32
    } else {
        let wrapped: i64 = low as i64 - 0x1_0000_0000i64;
        wrapped as i32
    }
}

/// The registry after a polling round that returned `code` and reported
/// `results`: a failed round leaves it as it was.
pub open spec fn after_round<K>(before: Registry<K>, code: int, results: Seq<Events>) -> Registry<
    K,
> {
    if code < 0 {
        before
    } else {
        before.with_results(results)
    }
}

/// Takes in one polling round over the records of `fds`, of which `code` is
/// the host's return code and `results` the result masks, one for each record.
///
/// A negative code is a failure and changes nothing. Otherwise the result
/// masks are written into the records; a code of zero is a timeout, and a
/// positive one gives the events of all records with a result mask other than
/// zero, in registry order.
pub fn wait<K: Eq + Copy + Clone>(
    fds: &mut Descriptors<K>,
    code: libc::c_int,
    results: &Vec<Events>,
) -> (outcome: Result<Poll<K>, WaitError>)
    requires
        old(fds).wf(),
    ensures
        final(fds).wf(),
        final(fds)@ == after_round(old(fds)@, code as int, results@),
        code < 0 ==> outcome == Err::<Poll<K>, WaitError>(WaitError::Syscall),
        code >= 0 && results@.len() != old(fds)@.len() ==> outcome == Err::<Poll<K>, WaitError>(
            WaitError::Malformed,
        ),
        code == 0 && results@.len() == old(fds)@.len() ==> outcome == Ok::<Poll<K>, WaitError>(
            Poll::Timeout,
        ),
        code > 0 && results@.len() == old(fds)@.len() ==> (outcome matches Ok(Poll::Ready(events))
            && events@ == final(fds)@.ready()),
{
    if code < 0 {
        return Err(WaitError::Syscall);
    }
    if !fds.record(results) {
        return Err(WaitError::Malformed);
    }
    if code == 0 {
        Ok(Poll::Timeout)
    } else {
        Ok(Poll::Ready(fds.ready()))
    }
}

} // verus!
