//! The conditions that epoll reports, as a set of bit flags.

use vstd::prelude::*;

verus! {

/// The associated file is available for read operations.
pub const EPOLLIN: u32 = 0x001;

/// There is urgent data available for read operations.
pub const EPOLLPRI: u32 = 0x002;

/// The associated file is available for write operations.
pub const EPOLLOUT: u32 = 0x004;

/// An error condition happened on the associated descriptor. The kernel
/// reports it whether or not it was asked for.
pub const EPOLLERR: u32 = 0x008;

/// A hang-up happened on the associated descriptor. The kernel reports it
/// whether or not it was asked for.
pub const EPOLLHUP: u32 = 0x010;

/// Normal data may be read; in practice the same as `EPOLLIN`.
pub const EPOLLRDNORM: u32 = 0x040;

/// Priority band data may be read.
pub const EPOLLRDBAND: u32 = 0x080;

/// Normal data may be written; in practice the same as `EPOLLOUT`.
pub const EPOLLWRNORM: u32 = 0x100;

/// Priority band data may be written.
pub const EPOLLWRBAND: u32 = 0x200;

/// Unused by the kernel.
pub const EPOLLMSG: u32 = 0x400;

/// The peer of a stream socket closed the connection, or shut down its
/// writing half.
pub const EPOLLRDHUP: u32 = 0x2000;

/// Wake only one of the epoll instances that watch the descriptor
/// (since Linux 4.5).
pub const EPOLLEXCLUSIVE: u32 = 0x1000_0000;

/// Keep the system awake while the event is pending or being processed
/// (since Linux 3.5).
pub const EPOLLWAKEUP: u32 = 0x2000_0000;

/// Disable the descriptor after one event has been pulled out; it is armed
/// again by a modification.
pub const EPOLLONESHOT: u32 = 0x4000_0000;

/// Report edges, not levels.
pub const EPOLLET: u32 = 0x8000_0000;

/// The bits of all the flags above together.
pub const EPOLL_ALL: u32 = 0xF000_27DF;

/// Whether `bits` holds nothing but flags that have a name.
pub open spec fn named(bits: u32) -> bool {
    bits & !EPOLL_ALL == 0
}

/// A set of named flags: what a caller is interested in, or what happened.
///
/// The view of a set is its bits. A value of this type never holds a bit
/// that has no name.
#[derive(Clone, Copy, Debug, PartialEq, Eq, PartialOrd, Ord, Hash, Structural)]
pub struct EventType {
    bits: u32,
}

impl View for EventType {
    type V = u32;

    closed spec fn view(&self) -> u32 {
        self.bits
    }
}

/// `EPOLL_ALL` is the union of the named flags, and each of them is named.
pub proof fn lemma_all_flags()
    ensures
        EPOLL_ALL == EPOLLIN | EPOLLPRI | EPOLLOUT | EPOLLERR | EPOLLHUP | EPOLLRDNORM
            | EPOLLRDBAND | EPOLLWRNORM | EPOLLWRBAND | EPOLLMSG | EPOLLRDHUP | EPOLLEXCLUSIVE
            | EPOLLWAKEUP | EPOLLONESHOT | EPOLLET,
        named(EPOLLIN),
        named(EPOLLPRI),
        named(EPOLLOUT),
        named(EPOLLERR),
        named(EPOLLHUP),
        named(EPOLLRDNORM),
        named(EPOLLRDBAND),
        named(EPOLLWRNORM),
        named(EPOLLWRBAND),
        named(EPOLLMSG),
        named(EPOLLRDHUP),
        named(EPOLLEXCLUSIVE),
        named(EPOLLWAKEUP),
        named(EPOLLONESHOT),
        named(EPOLLET),
        named(EPOLL_ALL),
        named(0),
{
    assert(EPOLL_ALL == EPOLLIN | EPOLLPRI | EPOLLOUT | EPOLLERR | EPOLLHUP | EPOLLRDNORM
        | EPOLLRDBAND | EPOLLWRNORM | EPOLLWRBAND | EPOLLMSG | EPOLLRDHUP | EPOLLEXCLUSIVE
        | EPOLLWAKEUP | EPOLLONESHOT | EPOLLET) by (bit_vector);
    assert(named(EPOLLIN) && named(EPOLLPRI) && named(EPOLLOUT) && named(EPOLLERR) && named(
        EPOLLHUP,
    ) && named(EPOLLRDNORM) && named(EPOLLRDBAND) && named(EPOLLWRNORM) && named(EPOLLWRBAND)
        && named(EPOLLMSG) && named(EPOLLRDHUP) && named(EPOLLEXCLUSIVE) && named(EPOLLWAKEUP)
        && named(EPOLLONESHOT) && named(EPOLLET) && named(EPOLL_ALL) && named(0))
        by (bit_vector);
}

/// The set operations keep to the named flags.
pub proof fn lemma_named_closed(a: u32, b: u32)
    ensures
        named(a & EPOLL_ALL),
        named(a) ==> a & EPOLL_ALL == a,
        named(a) ==> named(a & b) && named(a & !b),
        named(a) && named(b) ==> named(a | b) && named(a ^ b),
{
    assert(named(a & EPOLL_ALL)) by (bit_vector);
    assert(named(a) ==> a & EPOLL_ALL == a) by (bit_vector);
    assert(named(a) ==> named(a & b) && named(a & !b)) by (bit_vector);
    assert(named(a) && named(b) ==> named(a | b) && named(a ^ b)) by (bit_vector);
}

impl EventType {
    #[verifier::type_invariant]
    spec fn well_formed(self) -> bool {
        named(self.bits)
    }

    /// The set that holds the flags of `bits` that have a name.
    pub closed spec fn of(bits: u32) -> EventType {
        EventType { bits: bits & EPOLL_ALL }
    }

    /// The set made of `bits` holds those of them that have a name: all of
    /// them where each has one.
    pub proof fn lemma_of(bits: u32)
        ensures
            Self::of(bits)@ == bits & EPOLL_ALL,
            named(Self::of(bits)@),
            named(bits) ==> Self::of(bits)@ == bits,
    {
        lemma_named_closed(bits, 0);
    }

    /// A set of named flags is known by its bits.
    pub proof fn lemma_by_bits(self)
        requires
            named(self@),
        ensures
            Self::of(self@) == self,
    {
        lemma_named_closed(self@, 0);
    }

    /// The empty set.
    pub fn empty() -> (r: EventType)
        ensures
            r@ == 0,
            r == Self::of(0),
    {
        proof {
            lemma_all_flags();
            lemma_named_closed(0, 0);
        }
        EventType { bits: 0 }
    }

    /// The set of all the named flags.
    pub fn all() -> (r: EventType)
        ensures
            r@ == EPOLL_ALL,
            r == Self::of(EPOLL_ALL),
    {
        proof {
            lemma_all_flags();
            lemma_named_closed(EPOLL_ALL, 0);
        }
        EventType { bits: EPOLL_ALL }
    }

    /// The bits of the set.
    pub fn bits(&self) -> (r: u32)
        ensures
            r == self@,
            named(r),
    {
        proof {
            use_type_invariant(self);
        }
        self.bits
    }

    /// The set with exactly the bits of `bits`, unless one of them has no name.
    pub fn from_bits(bits: u32) -> (r: Option<EventType>)
        ensures
            named(bits) ==> r == Some(Self::of(bits)) && r.unwrap()@ == bits,
            !named(bits) ==> r is None,
    {
        if bits & !EPOLL_ALL == 0 {
            proof {
                lemma_named_closed(bits, 0);
            }
            Some(EventType { bits })
        } else {
            None
        }
    }

    /// The set of the bits of `bits` that have a name; the others are dropped.
    pub fn from_bits_truncate(bits: u32) -> (r: EventType)
        ensures
            r == Self::of(bits),
            r@ == bits & EPOLL_ALL,
            named(bits) ==> r@ == bits,
    {
        proof {
            lemma_named_closed(bits, 0);
        }
        EventType { bits: bits & EPOLL_ALL }
    }

    /// Whether the set holds no flag.
    pub fn is_empty(&self) -> (r: bool)
        ensures
            r == (self@ == 0),
    {
        self.bits == 0
    }

    /// Whether the set holds every named flag.
    pub fn is_all(&self) -> (r: bool)
        ensures
            r == (self@ == EPOLL_ALL),
    {
        self.bits == EPOLL_ALL
    }

    /// Whether the two sets have a flag in common.
    pub fn intersects(&self, other: EventType) -> (r: bool)
        ensures
            r == (self@ & other@ != 0),
    {
        self.bits & other.bits != 0
    }

    /// Whether every flag of `other` is in the set.
    pub fn contains(&self, other: EventType) -> (r: bool)
        ensures
            r == (self@ & other@ == other@),
    {
        self.bits & other.bits == other.bits
    }

    /// Puts the flags of `other` into the set.
    pub fn insert(&mut self, other: EventType)
        ensures
            final(self)@ == old(self)@ | other@,
    {
        proof {
            use_type_invariant(&*self);
            use_type_invariant(&other);
            lemma_named_closed(self.bits, other.bits);
        }
        self.bits = self.bits | other.bits;
    }

    /// Takes the flags of `other` out of the set.
    pub fn remove(&mut self, other: EventType)
        ensures
            final(self)@ == old(self)@ & !other@,
    {
        proof {
            use_type_invariant(&*self);
            lemma_named_closed(self.bits, other.bits);
        }
        self.bits = self.bits & !other.bits;
    }

    /// Turns over, in the set, each flag of `other`.
    pub fn toggle(&mut self, other: EventType)
        ensures
            final(self)@ == old(self)@ ^ other@,
    {
        proof {
            use_type_invariant(&*self);
            use_type_invariant(&other);
            lemma_named_closed(self.bits, other.bits);
        }
        self.bits = self.bits ^ other.bits;
    }

    /// Puts the flags of `other` in where `value` holds, takes them out where
    /// it does not.
    pub fn set(&mut self, other: EventType, value: bool)
        ensures
            value ==> final(self)@ == old(self)@ | other@,
            !value ==> final(self)@ == old(self)@ & !other@,
    {
        if value {
            self.insert(other);
        } else {
            self.remove(other);
        }
    }
}

impl core::ops::BitOr for EventType {
    type Output = EventType;

    /// The union of the two sets.
    fn bitor(self, other: EventType) -> (r: EventType)
        ensures
            r@ == self@ | other@,
    {
        proof {
            use_type_invariant(&self);
            use_type_invariant(&other);
            lemma_named_closed(self.bits, other.bits);
            lemma_named_closed(self.bits | other.bits, 0);
        }
        EventType { bits: self.bits | other.bits }
    }
}

impl vstd::std_specs::ops::BitOrSpecImpl for EventType {
    open spec fn obeys_bitor_spec() -> bool {
        true
    }

    open spec fn bitor_req(self, other: EventType) -> bool {
        true
    }

    open spec fn bitor_spec(self, other: EventType) -> EventType {
        EventType::of(self@ | other@)
    }
}

impl core::ops::BitAnd for EventType {
    type Output = EventType;

    /// The flags that are in both sets.
    fn bitand(self, other: EventType) -> (r: EventType)
        ensures
            r@ == self@ & other@,
    {
        proof {
            use_type_invariant(&self);
            lemma_named_closed(self.bits, other.bits);
            lemma_named_closed(self.bits & other.bits, 0);
        }
        EventType { bits: self.bits & other.bits }
    }
}

impl vstd::std_specs::ops::BitAndSpecImpl for EventType {
    open spec fn obeys_bitand_spec() -> bool {
        true
    }

    open spec fn bitand_req(self, other: EventType) -> bool {
        true
    }

    open spec fn bitand_spec(self, other: EventType) -> EventType {
        EventType::of(self@ & other@)
    }
}

impl core::ops::BitXor for EventType {
    type Output = EventType;

    /// The flags that are in one of the two sets and not in the other.
    fn bitxor(self, other: EventType) -> (r: EventType)
        ensures
            r@ == self@ ^ other@,
    {
        proof {
            use_type_invariant(&self);
            use_type_invariant(&other);
            lemma_named_closed(self.bits, other.bits);
            lemma_named_closed(self.bits ^ other.bits, 0);
        }
        EventType { bits: self.bits ^ other.bits }
    }
}

impl vstd::std_specs::ops::BitXorSpecImpl for EventType {
    open spec fn obeys_bitxor_spec() -> bool {
        true
    }

    open spec fn bitxor_req(self, other: EventType) -> bool {
        true
    }

    open spec fn bitxor_spec(self, other: EventType) -> EventType {
        EventType::of(self@ ^ other@)
    }
}

impl core::ops::Sub for EventType {
    type Output = EventType;

    /// The flags of the first set that are not in the second.
    fn sub(self, other: EventType) -> (r: EventType)
        ensures
            r@ == self@ & !other@,
    {
        proof {
            use_type_invariant(&self);
            lemma_named_closed(self.bits, other.bits);
            lemma_named_closed(self.bits & !other.bits, 0);
        }
        EventType { bits: self.bits & !other.bits }
    }
}

impl vstd::std_specs::ops::SubSpecImpl for EventType {
    open spec fn obeys_sub_spec() -> bool {
        true
    }

    open spec fn sub_req(self, other: EventType) -> bool {
        true
    }

    open spec fn sub_spec(self, other: EventType) -> EventType {
        EventType::of(self@ & !other@)
    }
}

impl core::ops::Not for EventType {
    type Output = EventType;

    /// The named flags that are not in the set.
    fn not(self) -> (r: EventType)
        ensures
            r@ == !self@ & EPOLL_ALL,
    {
        proof {
            lemma_named_closed(!self.bits, 0);
        }
        EventType { bits: !self.bits & EPOLL_ALL }
    }
}

impl vstd::std_specs::ops::NotSpecImpl for EventType {
    open spec fn obeys_not_spec() -> bool {
        true
    }

    open spec fn not_req(self) -> bool {
        true
    }

    open spec fn not_spec(self) -> EventType {
        EventType::of(!self@)
    }
}

} // verus!
