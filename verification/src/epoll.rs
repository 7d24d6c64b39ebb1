//! The multiplexer: one epoll instance of the kernel, and what can be asked
//! of it.

use crate::event::Event;
use crate::flags::EventType;
use crate::kernel::{
    ctl_add, ctl_del, ctl_mod, Answer, OsError, Syscall, EPOLL_CTL_ADD, EPOLL_CTL_DEL,
    EPOLL_CTL_MOD,
};
use crate::timeout::Timeout;
use vstd::prelude::*;

verus! {

/// The value that the handle holds once it has been released. The kernel
/// never gives out this descriptor.
pub const POISON: i32 = -1;

/// An object used to poll for many events at once.
///
/// It owns one epoll instance of the kernel. Its view is the descriptor of
/// that instance, or `POISON` once the instance has been released.
#[derive(Debug)]
pub struct EPoll {
    fd: i32,
}

impl View for EPoll {
    type V = i32;

    closed spec fn view(&self) -> i32 {
        self.fd
    }
}

/// The call that waits on the instance `epfd` for `timeout`, with room for
/// `capacity` events. The kernel takes the room as a 32-bit number: a
/// capacity beyond that is cut down to its low 32 bits.
pub open spec fn wait_call(epfd: i32, capacity: usize, timeout: Timeout) -> Syscall {
    Syscall::Wait { epfd, max_events: capacity as i32, timeout: timeout.millis() }
}

/// Waiting for more milliseconds than the kernel can count is waiting for as
/// many as it can count: the two calls are the same.
pub proof fn lemma_wait_capped(epfd: i32, capacity: usize, amount: usize)
    requires
        amount >= i32::MAX,
    ensures
        wait_call(epfd, capacity, Timeout::Milliseconds(amount)) == wait_call(
            epfd,
            capacity,
            Timeout::Milliseconds(i32::MAX as usize),
        ),
{
}

impl EPoll {
    #[verifier::type_invariant]
    spec fn well_formed(self) -> bool {
        self.fd >= POISON
    }

    /// The call that creates an epoll instance.
    pub fn create() -> (r: Syscall)
        ensures
            r == (Syscall::Create { flags: 0 }),
    {
        Syscall::Create { flags: 0 }
    }

    /// Takes the kernel's answer to `create()`. Where the call succeeded, the
    /// object owns the new instance; where it failed there is no instance, and
    /// no object.
    pub fn new(created: &Answer) -> (r: Result<EPoll, OsError>)
        ensures
            created.failed() ==> r == Err::<EPoll, OsError>(created.error()),
            !created.failed() ==> r is Ok && r.unwrap()@ == created.rc,
    {
        match created.value() {
            Ok(fd) => Ok(EPoll { fd }),
            Err(e) => Err(e),
        }
    }

    /// The call that registers the descriptor `fd` for the conditions in
    /// `events`.
    ///
    /// `data` is the caller's tag for the registration: an index into an
    /// array, the descriptor itself, or whatever else identifies the object.
    /// The kernel hands it back with each event of the descriptor.
    pub fn add(&self, fd: i32, events: EventType, data: u64) -> (r: Syscall)
        ensures
            r == (Syscall::Control {
                epfd: self@,
                op: EPOLL_CTL_ADD,
                fd,
                event: Event { events, data },
            }),
    {
        Syscall::Control { epfd: self.fd, op: ctl_add(), fd, event: Event { events, data } }
    }

    /// The call that takes the registration of the descriptor `fd` away.
    ///
    /// The kernel does not read the event of this call, but early versions
    /// of it want one: the call carries a blank one.
    pub fn remove(&self, fd: i32) -> (r: Syscall)
        ensures
            r == (Syscall::Control {
                epfd: self@,
                op: EPOLL_CTL_DEL,
                fd,
                event: Event::blank(),
            }),
    {
        Syscall::Control { epfd: self.fd, op: ctl_del(), fd, event: Event::default() }
    }

    /// The call that replaces the conditions and the tag of the registration
    /// of the descriptor `fd`.
    pub fn modify(&self, fd: i32, events: EventType, data: u64) -> (r: Syscall)
        ensures
            r == (Syscall::Control {
                epfd: self@,
                op: EPOLL_CTL_MOD,
                fd,
                event: Event { events, data },
            }),
    {
        Syscall::Control { epfd: self.fd, op: ctl_mod(), fd, event: Event { events, data } }
    }

    /// The call that waits for events, for `timeout`, with room for
    /// `capacity` of them.
    pub fn wait(&self, capacity: usize, timeout: Timeout) -> (r: Syscall)
        ensures
            r == wait_call(self@, capacity, timeout),
            capacity <= i32::MAX ==> r->max_events == capacity,
    {
        let max_events: i32 = #[verifier::truncate]
        (capacity as i32);
        Syscall::Wait { epfd: self.fd, max_events, timeout: timeout.millis() }
    }

    /// Takes the kernel's answer to a `wait(..)` call for which `buffer` was
    /// the room, and `buffer` as the kernel left it.
    ///
    /// Where the call failed, `events` is as it was. Where it succeeded, the
    /// result is the number of events that are ready, and the first slots of
    /// `events` hold them, in the kernel's order.
    pub fn complete_wait(&self, events: &mut [Event], waited: &Answer, buffer: &[Event]) -> (r:
        Result<usize, OsError>)
        requires
            !waited.failed() ==> waited.rc <= buffer.len() && waited.rc <= old(events).len(),
        ensures
            waited.failed() ==> r == Err::<usize, OsError>(waited.error()) && final(events)@ == old(
                events,
            )@,
            !waited.failed() ==> r == Ok::<usize, OsError>(waited.rc as usize) && final(events)@
                == buffer@.take(waited.rc as int) + old(events)@.skip(waited.rc as int),
    {
        match waited.value() {
            Ok(rc) => {
                let amount = rc as usize;
                let mut i: usize = 0;
                while i < amount
                    invariant
                        i <= amount <= buffer.len(),
                        amount <= events.len(),
                        events.len() == old(events).len(),
                        events@ == buffer@.take(i as int) + old(events)@.skip(i as int),
                    decreases amount - i,
                {
                    events[i] = buffer[i];
                    i += 1;
                }
                Ok(amount)
            },
            Err(e) => Err(e),
        }
    }

    /// The descriptor of the epoll instance, or `POISON` once it has been
    /// released.
    pub fn as_raw_fd(&self) -> (r: i32)
        ensures
            r == self@,
            r >= POISON,
    {
        proof {
            use_type_invariant(self);
        }
        self.fd
    }

    /// The call that releases the epoll instance. The handle is poisoned: no
    /// later call that this object gives names the instance.
    pub fn close(&mut self) -> (r: Syscall)
        ensures
            r == (Syscall::Close { fd: old(self)@ }),
            final(self)@ == POISON,
    {
        let fd = self.fd;
        self.fd = POISON;
        Syscall::Close { fd }
    }
}

} // verus!
