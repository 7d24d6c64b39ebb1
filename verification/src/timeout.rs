//! How long a wait may last.

use vstd::prelude::*;

verus! {

/// The longest wait, in milliseconds, that the kernel can be asked for.
pub const MAX_MILLISECONDS: i32 = 0x7fff_ffff;

/// Describes how long a wait may last.
#[derive(Clone, Copy, Debug, PartialEq, Eq, Structural)]
pub enum Timeout {
    /// The wait lasts until an event is ready, or an error occurs.
    Indefinite,
    /// The wait returns at once, even if no event is ready.
    Immediate,
    /// The wait lasts that many milliseconds at most. A number above
    /// `MAX_MILLISECONDS` counts as `MAX_MILLISECONDS`.
    Milliseconds(usize),
}

impl Timeout {
    /// The number that stands for the timeout in a call of the kernel:
    /// -1 for no limit, 0 for no wait, else the milliseconds, capped.
    pub open spec fn spec_millis(self) -> i32 {
        match self {
            Timeout::Indefinite => -1i32,
            Timeout::Immediate => 0i32,
            Timeout::Milliseconds(amount) => if amount >= MAX_MILLISECONDS {
                MAX_MILLISECONDS
            } else {
                amount as i32
            },
        }
    }

    /// The number that stands for the timeout in a call of the kernel:
    /// -1 for no limit, 0 for no wait, else the milliseconds, capped.
    #[verifier::when_used_as_spec(spec_millis)]
    pub fn millis(self) -> (r: i32)
        ensures
            r == self.spec_millis(),
            self matches Timeout::Milliseconds(amount) ==> r == if amount >= MAX_MILLISECONDS {
                MAX_MILLISECONDS as int
            } else {
                amount as int
            },
    {
        match self {
            Timeout::Indefinite => -1,
            Timeout::Immediate => 0,
            Timeout::Milliseconds(amount) => {
                if amount >= MAX_MILLISECONDS as usize {
                    MAX_MILLISECONDS
                } else {
                    amount as i32
                }
            },
        }
    }

    /// A number of milliseconds above the maximum stands for the same wait
    /// as the maximum itself.
    pub proof fn lemma_capped(amount: usize)
        requires
            amount >= MAX_MILLISECONDS,
        ensures
            Timeout::Milliseconds(amount).millis() == Timeout::Milliseconds(
                MAX_MILLISECONDS as usize,
            ).millis(),
            Timeout::Milliseconds(amount).millis() == MAX_MILLISECONDS,
    {
    }
}

} // verus!
