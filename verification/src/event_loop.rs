//! An event loop on top of the multiplexer.
//!
//! The loop keeps the descriptors that it has registered, each with what the
//! caller wants back when that descriptor is ready. Every descriptor is
//! registered for readability, and tagged with its own number: from the tag
//! of a ready event the loop finds the descriptor again.

use crate::epoll::{wait_call, EPoll, POISON};
use crate::event::Event;
use crate::flags::{EventType, EPOLLIN};
use crate::kernel::{Answer, OsError, Syscall, EPOLL_CTL_ADD, EPOLL_CTL_DEL};
use crate::timeout::Timeout;
use vstd::prelude::*;

verus! {

/// The tag under which the loop registers the descriptor `fd`: the number of
/// the descriptor, widened as a signed number is.
pub open spec fn tag_of(fd: i32) -> u64 {
    fd as u64
}

/// The descriptor that a tag stands for: its low 32 bits, as a signed number.
pub open spec fn fd_of(tag: u64) -> i32 {
    tag as i32
}

/// The tag of a descriptor stands for that descriptor, and the tag of a
/// descriptor that is not negative is its number.
pub proof fn lemma_tag_round_trip(fd: i32)
    ensures
        fd_of(tag_of(fd)) == fd,
        fd >= 0 ==> tag_of(fd) == fd,
{
    assert((fd as u64) as i32 == fd) by (bit_vector);
}

fn tag(fd: i32) -> (r: u64)
    ensures
        r == tag_of(fd),
{
    fd as u64
}

fn descriptor(tag: u64) -> (r: i32)
    ensures
        r == fd_of(tag),
{
    #[verifier::truncate]
    (tag as i32)
}

/// The index of the first of `files` whose descriptor is `fd`.
pub open spec fn first_match<T>(files: Seq<(i32, T)>, fd: i32) -> Option<int>
    decreases files.len(),
{
    if files.len() == 0 {
        None
    } else if files[0].0 == fd {
        Some(0)
    } else {
        match first_match(files.drop_first(), fd) {
            Some(i) => Some(i + 1),
            None => None,
        }
    }
}

/// `first_match` gives the least index at which the descriptor is `fd`, and
/// none where no descriptor is.
pub proof fn lemma_first_match<T>(files: Seq<(i32, T)>, fd: i32)
    ensures
        match first_match(files, fd) {
            Some(i) => 0 <= i < files.len() && files[i].0 == fd && forall|j: int|
                0 <= j < i ==> files[j].0 != fd,
            None => forall|j: int| 0 <= j < files.len() ==> files[j].0 != fd,
        },
    decreases files.len(),
{
    if files.len() > 0 && files[0].0 != fd {
        let rest = files.drop_first();
        lemma_first_match(rest, fd);
        match first_match(rest, fd) {
            Some(i) => {
                assert forall|j: int| 0 <= j < i + 1 implies files[j].0 != fd by {
                    if j > 0 {
                        assert(rest[j - 1] == files[j]);
                    }
                }
            },
            None => {
                assert forall|j: int| 0 <= j < files.len() implies files[j].0 != fd by {
                    if j > 0 {
                        assert(rest[j - 1] == files[j]);
                    }
                }
            },
        }
    }
}

/// What an event loop is: its epoll instance, the descriptors that it
/// tracks, each with the caller's value for it, in the order in which they
/// were added, and the buffer that the kernel reports events into.
pub struct LoopView<T> {
    pub epoll: i32,
    pub files: Seq<(i32, T)>,
    pub events: Seq<Event>,
}

impl<T> LoopView<T> {
    /// The buffer has room for an event of each tracked descriptor.
    pub open spec fn wf(self) -> bool {
        self.files.len() <= self.events.len()
    }

    /// The loop after `fd` was registered: it is tracked, last, and the
    /// buffer has grown by one blank slot if it was too small.
    pub open spec fn added(self, fd: i32, file: T) -> LoopView<T> {
        LoopView {
            epoll: self.epoll,
            files: self.files.push((fd, file)),
            events: if self.events.len() < self.files.len() + 1 {
                self.events.push(Event::blank())
            } else {
                self.events
            },
        }
    }

    /// The loop after the registration of `fd` was taken away: the first
    /// tracked descriptor with that number is gone. The buffer never shrinks.
    pub open spec fn removed(self, fd: i32) -> LoopView<T> {
        LoopView {
            epoll: self.epoll,
            files: match first_match(self.files, fd) {
                Some(i) => self.files.remove(i),
                None => self.files,
            },
            events: self.events,
        }
    }

    /// The loop after the kernel reported `ready` into the first slots of
    /// the buffer.
    pub open spec fn filled(self, ready: Seq<Event>) -> LoopView<T> {
        LoopView {
            epoll: self.epoll,
            files: self.files,
            events: ready + self.events.skip(ready.len() as int),
        }
    }

    /// What the events `ready` resolve to: for each of them in turn whose
    /// tag stands for a tracked descriptor, the caller's value for the first
    /// tracked descriptor with that number. An event whose tag stands for no
    /// tracked descriptor gives nothing.
    pub open spec fn resolve(self, ready: Seq<Event>) -> Seq<T>
        decreases ready.len(),
    {
        if ready.len() == 0 {
            Seq::empty()
        } else {
            let rest = self.resolve(ready.drop_first());
            match first_match(self.files, fd_of(ready[0].data)) {
                Some(i) => seq![self.files[i].1] + rest,
                None => rest,
            }
        }
    }
}

/// One completed operation on the set of tracked descriptors: what was asked
/// for, and the kernel's answer to the call.
pub enum Operation<T> {
    Add { fd: i32, file: T, answer: Answer },
    Remove { fd: i32, answer: Answer },
}

impl<T> LoopView<T> {
    /// The loop after one completed operation: as `complete_add` and
    /// `complete_remove` leave it.
    pub open spec fn after(self, op: Operation<T>) -> LoopView<T> {
        match op {
            Operation::Add { fd, file, answer } => if answer.failed() {
                self
            } else {
                self.added(fd, file)
            },
            Operation::Remove { fd, answer } => if answer.failed() {
                self
            } else {
                self.removed(fd)
            },
        }
    }

    /// The loop after the operations `ops`, one after the other.
    pub open spec fn after_all(self, ops: Seq<Operation<T>>) -> LoopView<T>
        decreases ops.len(),
    {
        if ops.len() == 0 {
            self
        } else {
            self.after_all(ops.drop_last()).after(ops.last())
        }
    }

    /// Whether every removal among `ops` that the kernel accepted is of a
    /// descriptor that the loop tracks at that moment.
    pub open spec fn removals_tracked(self, ops: Seq<Operation<T>>) -> bool
        decreases ops.len(),
    {
        if ops.len() == 0 {
            true
        } else {
            &&& self.removals_tracked(ops.drop_last())
            &&& ops.last() matches Operation::Remove { fd, answer } ==> answer.failed()
                || first_match(self.after_all(ops.drop_last()).files, fd) is Some
        }
    }
}

/// The number of registrations among `ops` that the kernel accepted.
pub open spec fn accepted_adds<T>(ops: Seq<Operation<T>>) -> nat
    decreases ops.len(),
{
    if ops.len() == 0 {
        0
    } else {
        accepted_adds(ops.drop_last()) + if ops.last() matches Operation::Add { answer, .. }
            && !answer.failed() {
            1nat
        } else {
            0nat
        }
    }
}

/// The number of removals among `ops` that the kernel accepted.
pub open spec fn accepted_removes<T>(ops: Seq<Operation<T>>) -> nat
    decreases ops.len(),
{
    if ops.len() == 0 {
        0
    } else {
        accepted_removes(ops.drop_last()) + if ops.last() matches Operation::Remove { answer, .. }
            && !answer.failed() {
            1nat
        } else {
            0nat
        }
    }
}

/// After any sequence of additions and removals, the loop tracks as many
/// descriptors as it did before, plus the additions that the kernel
/// accepted, minus the removals that it accepted. This holds where each
/// accepted removal is of a tracked descriptor: the kernel accepts no other
/// as long as the descriptors were registered through the loop alone.
pub proof fn lemma_tracked_size<T>(start: LoopView<T>, ops: Seq<Operation<T>>)
    requires
        start.removals_tracked(ops),
    ensures
        start.after_all(ops).files.len() == start.files.len() + accepted_adds(ops)
            - accepted_removes(ops),
    decreases ops.len(),
{
    if ops.len() > 0 {
        let before = start.after_all(ops.drop_last());
        lemma_tracked_size(start, ops.drop_last());
        if let Operation::Remove { fd, answer } = ops.last() {
            lemma_first_match(before.files, fd);
        }
    }
}

/// After any sequence of additions and removals, the buffer has room for an
/// event of each tracked descriptor, and it is no smaller than it was.
pub proof fn lemma_capacity<T>(start: LoopView<T>, ops: Seq<Operation<T>>)
    requires
        start.wf(),
    ensures
        start.after_all(ops).wf(),
        start.after_all(ops).events.len() >= start.events.len(),
        start.after_all(ops).epoll == start.epoll,
    decreases ops.len(),
{
    if ops.len() > 0 {
        let before = start.after_all(ops.drop_last());
        lemma_capacity(start, ops.drop_last());
        if let Operation::Remove { fd, answer } = ops.last() {
            lemma_first_match(before.files, fd);
        }
    }
}

/// What the events `a` followed by `b` resolve to is what `a` resolves to,
/// followed by what `b` resolves to.
pub proof fn lemma_resolve_concat<T>(view: LoopView<T>, a: Seq<Event>, b: Seq<Event>)
    ensures
        view.resolve(a + b) == view.resolve(a) + view.resolve(b),
    decreases a.len(),
{
    if a.len() == 0 {
        assert(a + b == b);
    } else {
        assert((a + b).drop_first() == a.drop_first() + b);
        lemma_resolve_concat(view, a.drop_first(), b);
    }
}

/// One event resolves to the caller's value for the first tracked
/// descriptor that its tag stands for, and to nothing where there is none.
pub proof fn lemma_resolve_one<T>(view: LoopView<T>, event: Event)
    ensures
        view.resolve(seq![event]) == match first_match(view.files, fd_of(event.data)) {
            Some(i) => seq![view.files[i].1],
            None => Seq::<T>::empty(),
        },
{
    let ready = seq![event];
    assert(ready.drop_first() == Seq::<Event>::empty());
    assert(view.resolve(ready.drop_first()) == Seq::<T>::empty());
}

/// A ready event whose tag stands for no tracked descriptor is left out:
/// the events resolve to what they resolve to without it.
pub proof fn lemma_unmatched_omitted<T>(view: LoopView<T>, ready: Seq<Event>, k: int)
    requires
        0 <= k < ready.len(),
        first_match(view.files, fd_of(ready[k].data)) is None,
    ensures
        view.resolve(ready) == view.resolve(ready.remove(k)),
{
    let a = ready.take(k);
    let b = ready.skip(k + 1);
    assert(ready == a + seq![ready[k]] + b);
    assert(ready.remove(k) == a + b);
    lemma_resolve_one(view, ready[k]);
    lemma_resolve_concat(view, a + seq![ready[k]], b);
    lemma_resolve_concat(view, a, seq![ready[k]]);
    lemma_resolve_concat(view, a, b);
}

/// The events resolve to no more values than there are events, and to as
/// many where the tag of each stands for a tracked descriptor.
pub proof fn lemma_resolve_len<T>(view: LoopView<T>, ready: Seq<Event>)
    ensures
        view.resolve(ready).len() <= ready.len(),
        (forall|k: int|
            0 <= k < ready.len() ==> first_match(view.files, fd_of(#[trigger] ready[k].data))
                is Some) ==> view.resolve(ready).len() == ready.len(),
    decreases ready.len(),
{
    if ready.len() > 0 {
        let rest = ready.drop_first();
        lemma_resolve_len(view, rest);
        assert(forall|k: int| 0 <= k < rest.len() ==> rest[k] == ready[k + 1]);
    }
}

/// An event that carries the tag under which the loop registered a tracked
/// descriptor resolves to the caller's value for the first tracked
/// descriptor with that number.
pub proof fn lemma_resolve_registered<T>(view: LoopView<T>, fd: i32, event: Event)
    requires
        event.data == tag_of(fd),
        first_match(view.files, fd) is Some,
    ensures
        view.resolve(seq![event]) == seq![view.files[first_match(view.files, fd).unwrap()].1],
        view.files[first_match(view.files, fd).unwrap()].0 == fd,
{
    lemma_tag_round_trip(fd);
    lemma_resolve_one(view, event);
    lemma_first_match(view.files, fd);
}


/// An event loop on one epoll instance.
///
/// `T` is what the caller wants back for a descriptor that is ready: a
/// reference to the object that owns the descriptor, or an index into a
/// registry. The loop does not own the descriptors, and closes none.
pub struct EventLoop<T> {
    epoll: EPoll,
    files: Vec<(i32, T)>,
    events: Vec<Event>,
}

impl<T> View for EventLoop<T> {
    type V = LoopView<T>;

    closed spec fn view(&self) -> LoopView<T> {
        LoopView { epoll: self.epoll@, files: self.files@, events: self.events@ }
    }
}

impl<T: Copy> EventLoop<T> {
    /// Takes the kernel's answer to `EPoll::create()`. Where the call
    /// succeeded, the loop is on the new instance and tracks nothing.
    pub fn new(created: &Answer) -> (r: Result<EventLoop<T>, OsError>)
        ensures
            created.failed() ==> r is Err && r->Err_0 == created.error(),
            !created.failed() ==> r is Ok && r->Ok_0@ == (LoopView::<T> {
                epoll: created.rc,
                files: Seq::empty(),
                events: Seq::empty(),
            }) && r->Ok_0@.wf(),
    {
        Ok(EventLoop { epoll: EPoll::new(created)?, files: Vec::new(), events: Vec::new() })
    }

    /// The number of descriptors that the loop tracks.
    pub fn len(&self) -> (r: usize)
        ensures
            r == self@.files.len(),
    {
        self.files.len()
    }

    /// The number of events that the buffer has room for.
    pub fn capacity(&self) -> (r: usize)
        ensures
            r == self@.events.len(),
    {
        self.events.len()
    }

    /// The call that registers the descriptor `fd`: for readability, with
    /// the descriptor itself as the tag.
    pub fn add(&self, fd: i32) -> (r: Syscall)
        ensures
            r == (Syscall::Control {
                epfd: self@.epoll,
                op: EPOLL_CTL_ADD,
                fd,
                event: Event { events: EventType::of(EPOLLIN), data: tag_of(fd) },
            }),
    {
        self.epoll.add(fd, EventType::from_bits_truncate(EPOLLIN), tag(fd))
    }

    /// Takes the kernel's answer to `add(fd)`. Where the call succeeded, the
    /// loop tracks `fd`, with `file` to hand out for it; where it failed, the
    /// loop is as it was.
    pub fn complete_add(&mut self, fd: i32, file: T, registered: &Answer) -> (r: Result<
        (),
        OsError,
    >)
        ensures
            r == registered.status(),
            registered.failed() ==> final(self)@ == old(self)@,
            !registered.failed() ==> final(self)@ == old(self)@.added(fd, file),
            old(self)@.wf() ==> final(self)@.wf(),
    {
        registered.status()?;
        self.files.push((fd, file));
        if self.events.len() < self.files.len() {
            self.events.push(Event::default());
        }
        Ok(())
    }

    /// The call that takes the registration of the descriptor `fd` away.
    pub fn remove(&self, fd: i32) -> (r: Syscall)
        ensures
            r == (Syscall::Control {
                epfd: self@.epoll,
                op: EPOLL_CTL_DEL,
                fd,
                event: Event::blank(),
            }),
    {
        self.epoll.remove(fd)
    }

    /// Takes the kernel's answer to `remove(fd)`. Where the call succeeded,
    /// the loop has dropped the first descriptor that it tracked under that
    /// number; where it failed, the loop is as it was.
    pub fn complete_remove(&mut self, fd: i32, removed: &Answer) -> (r: Result<(), OsError>)
        ensures
            r == removed.status(),
            removed.failed() ==> final(self)@ == old(self)@,
            !removed.failed() ==> final(self)@ == old(self)@.removed(fd),
            old(self)@.wf() ==> final(self)@.wf(),
    {
        removed.status()?;
        if let Some(index) = self.find_file_index(fd) {
            proof {
                lemma_first_match(self.files@, fd);
            }
            self.files.remove(index);
        }
        Ok(())
    }

    /// The call that waits for events of the tracked descriptors, with the
    /// whole buffer as room.
    pub fn wait(&self, timeout: Timeout) -> (r: Syscall)
        ensures
            r == wait_call(self@.epoll, self@.events.len() as usize, timeout),
    {
        self.epoll.wait(self.events.len(), timeout)
    }

    /// Takes the kernel's answer to `wait(..)`, and `buffer` as the kernel
    /// left it. Where the call succeeded, the ready events are in the loop's
    /// buffer, and the result walks what they resolve to.
    pub fn complete_wait(&mut self, waited: &Answer, buffer: &[Event]) -> (r: Result<
        EventLoopIterator<'_, T>,
        OsError,
    >)
        requires
            !waited.failed() ==> waited.rc <= buffer.len() && waited.rc <= old(self)@.events.len(),
        ensures
            waited.failed() ==> r is Err && r->Err_0 == waited.error() && final(self)@ == old(
                self,
            )@,
            !waited.failed() ==> r is Ok && final(self)@ == old(self)@.filled(
                buffer@.take(waited.rc as int),
            ) && r->Ok_0@ == final(self)@.resolve(buffer@.take(waited.rc as int)),
            old(self)@.wf() ==> final(self)@.wf(),
    {
        let amount = self.epoll.complete_wait(self.events.as_mut_slice(), waited, buffer)?;
        proof {
            let ready = buffer@.take(waited.rc as int);
            assert(self.events@ == ready + old(self)@.events.skip(ready.len() as int));
            assert(self.events@.subrange(0, amount as int) == ready);
        }
        Ok(EventLoopIterator { event_loop: self, index: 0, amount })
    }

    /// The call that releases the epoll instance of the loop.
    pub fn close(&mut self) -> (r: Syscall)
        ensures
            r == (Syscall::Close { fd: old(self)@.epoll }),
            final(self)@ == (LoopView { epoll: POISON, ..old(self)@ }),
    {
        self.epoll.close()
    }

    /// The index of the first tracked descriptor with the number `fd`.
    fn find_file_index(&self, fd: i32) -> (r: Option<usize>)
        ensures
            match r {
                Some(i) => first_match(self@.files, fd) == Some(i as int),
                None => first_match(self@.files, fd) is None,
            },
    {
        let mut i: usize = 0;
        while i < self.files.len()
            invariant
                i <= self.files.len(),
                forall|j: int| 0 <= j < i ==> self.files[j].0 != fd,
            decreases self.files.len() - i,
        {
            if self.files[i].0 == fd {
                proof {
                    lemma_first_match(self.files@, fd);
                }
                return Some(i);
            }
            i += 1;
        }
        proof {
            lemma_first_match(self.files@, fd);
        }
        None
    }

    /// The index of the tracked descriptor that the event in the slot
    /// `event_index` of the buffer is about.
    fn find_file_index_by_event(&self, event_index: usize) -> (r: Option<usize>)
        requires
            event_index < self@.events.len(),
        ensures
            match r {
                Some(i) => first_match(self@.files, fd_of(self@.events[event_index as int].data))
                    == Some(i as int),
                None => first_match(self@.files, fd_of(self@.events[event_index as int].data))
                    is None,
            },
    {
        self.find_file_index(descriptor(self.events[event_index].data))
    }
}

/// A walk over what the ready events of one wait resolve to.
///
/// Its view is what it has yet to give. It borrows the loop: the loop
/// cannot change while the walk is alive.
pub struct EventLoopIterator<'a, T> {
    event_loop: &'a EventLoop<T>,
    index: usize,
    amount: usize,
}

impl<'a, T> View for EventLoopIterator<'a, T> {
    type V = Seq<T>;

    closed spec fn view(&self) -> Seq<T> {
        self.event_loop@.resolve(
            self.event_loop@.events.subrange(self.index as int, self.amount as int),
        )
    }
}

impl<'a, T> EventLoopIterator<'a, T> {
    #[verifier::type_invariant]
    spec fn well_formed(self) -> bool {
        self.index <= self.amount <= self.event_loop@.events.len()
    }
}

impl<'a, T: Copy> EventLoopIterator<'a, T> {
    /// Gives the next value, or `None` when the walk is over. An event whose
    /// tag stands for no tracked descriptor is passed over.
    pub fn next(&mut self) -> (r: Option<T>)
        ensures
            old(self)@.len() == 0 ==> r is None && final(self)@ == old(self)@,
            old(self)@.len() > 0 ==> r == Some(old(self)@[0]) && final(self)@ == old(
                self,
            )@.drop_first(),
    {
        proof {
            use_type_invariant(&*self);
        }
        while self.index < self.amount
            invariant
                self.index <= self.amount <= self.event_loop@.events.len(),
                self.event_loop == old(self).event_loop,
                self.amount == old(self).amount,
                self@ == old(self)@,
            decreases self.amount - self.index,
        {
            let idx = self.index;
            let ghost window = self.event_loop@.events.subrange(idx as int, self.amount as int);
            assert(window.drop_first() == self.event_loop@.events.subrange(
                idx + 1,
                self.amount as int,
            ));
            self.index += 1;
            if let Some(i) = self.event_loop.find_file_index_by_event(idx) {
                proof {
                    lemma_first_match(self.event_loop@.files, fd_of(window[0].data));
                }
                return Some(self.event_loop.files[i].1);
            }
        }
        None
    }
}

} // verus!
