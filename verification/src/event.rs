//! The record that the kernel hands back for a descriptor that is ready.

use crate::flags::{lemma_all_flags, EventType, EPOLLIN};
use vstd::prelude::*;

verus! {

/// What happened, and to which registration.
///
/// `events` holds the conditions that occurred. `data` is the tag that the
/// caller chose when the descriptor was registered, handed back as it was.
/// The type is `Copy`, so that a buffer can be filled with `Event::default()`
/// before the kernel writes to it.
#[derive(Clone, Copy, Debug, PartialEq, Eq, Structural)]
pub struct Event {
    pub events: EventType,
    pub data: u64,
}

impl Event {
    /// The record that a buffer is filled with before a wait: readable, tag 0.
    pub open spec fn blank() -> Event {
        Event { events: EventType::of(EPOLLIN), data: 0 }
    }
}

impl Default for Event {
    fn default() -> (r: Event)
        ensures
            r == Event::blank(),
            r.events@ == EPOLLIN,
            r.data == 0,
    {
        proof {
            lemma_all_flags();
        }
        Event { events: EventType::from_bits_truncate(EPOLLIN), data: 0 }
    }
}

} // verus!
