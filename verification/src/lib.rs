//! A small readiness-polling core: a keyed registry of descriptor records,
//! the interpretation of one polling round, and the bookkeeping of wakers.
//!
//! The library holds the rules and proves them. The system calls themselves
//! (the polling call, creating the endpoint pair, reading and writing the
//! wakeup byte) are made by the program around it, which hands over plain
//! values: descriptor numbers, return codes and result masks.
use vstd::prelude::*;

pub mod events;
pub mod descriptor;
pub mod registry;
pub mod poll;
pub mod waker;
pub mod laws;

pub use descriptor::{Descriptor, Event, RawFd, Wakeup};
pub use events::Events;
pub use poll::{timeout_millis, wait, Poll, WaitError};
pub use registry::{Descriptors, Registry};
pub use waker::Waker;

verus! {

} // verus!
