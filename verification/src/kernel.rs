//! What is asked of the kernel, and what the kernel answers.
//!
//! The crate makes no system call. It describes each call as a value, and it
//! reads the outcome of a call from the number that the call returned and
//! from the error number that the thread held right after it.

use crate::event::Event;
use vstd::prelude::*;

verus! {

/// The operation of `epoll_ctl` that registers a descriptor.
pub const EPOLL_CTL_ADD: i32 = 1;

/// The operation of `epoll_ctl` that takes a registration away.
pub const EPOLL_CTL_DEL: i32 = 2;

/// The operation of `epoll_ctl` that changes a registration.
pub const EPOLL_CTL_MOD: i32 = 3;

/// Reads `libc::EPOLL_CTL_ADD`. Trusted: that libc gives it the value 1.
#[verifier::external_body]
pub(crate) fn ctl_add() -> (r: i32)
    ensures
        r == EPOLL_CTL_ADD,
{
    libc::EPOLL_CTL_ADD
}

/// Reads `libc::EPOLL_CTL_DEL`. Trusted: that libc gives it the value 2.
#[verifier::external_body]
pub(crate) fn ctl_del() -> (r: i32)
    ensures
        r == EPOLL_CTL_DEL,
{
    libc::EPOLL_CTL_DEL
}

/// Reads `libc::EPOLL_CTL_MOD`. Trusted: that libc gives it the value 3.
#[verifier::external_body]
pub(crate) fn ctl_mod() -> (r: i32)
    ensures
        r == EPOLL_CTL_MOD,
{
    libc::EPOLL_CTL_MOD
}

/// One call of the kernel, with its arguments.
#[derive(Clone, Copy, Debug, PartialEq, Eq, Structural)]
pub enum Syscall {
    /// `epoll_create1(flags)`.
    Create { flags: i32 },
    /// `epoll_ctl(epfd, op, fd, &mut event)`.
    Control { epfd: i32, op: i32, fd: i32, event: Event },
    /// `epoll_wait(epfd, buffer, max_events, timeout)`, on a buffer of
    /// `max_events` records.
    Wait { epfd: i32, max_events: i32, timeout: i32 },
    /// `close(fd)`.
    Close { fd: i32 },
}

/// The error of a call that failed: the error number of the operating system.
#[derive(Clone, Copy, Debug, PartialEq, Eq, Structural)]
pub struct OsError {
    pub code: i32,
}

/// What came back from a call: the number that it returned, and the error
/// number that the thread held right after it. The error number means
/// something only where the call failed.
#[derive(Clone, Copy, Debug, PartialEq, Eq, Structural)]
pub struct Answer {
    pub rc: i32,
    pub errno: i32,
}

impl Answer {
    /// A call failed where it returned a negative number.
    pub open spec fn failed(self) -> bool {
        self.rc < 0
    }

    /// The error that a failed call is reported with.
    pub open spec fn error(self) -> OsError {
        OsError { code: self.errno }
    }

    /// The number that the call returned, or the error it failed with.
    pub open spec fn spec_value(&self) -> Result<i32, OsError> {
        if self.failed() {
            Err(self.error())
        } else {
            Ok(self.rc)
        }
    }

    /// Whether the call succeeded, and the error if it did not.
    pub open spec fn spec_status(&self) -> Result<(), OsError> {
        if self.failed() {
            Err(self.error())
        } else {
            Ok(())
        }
    }

    /// The number that the call returned, or the error it failed with.
    #[verifier::when_used_as_spec(spec_value)]
    pub fn value(&self) -> (r: Result<i32, OsError>)
        ensures
            r == self.spec_value(),
    {
        if self.rc < 0 {
            Err(OsError { code: self.errno })
        } else {
            Ok(self.rc)
        }
    }

    /// Whether the call succeeded, and the error if it did not.
    #[verifier::when_used_as_spec(spec_status)]
    pub fn status(&self) -> (r: Result<(), OsError>)
        ensures
            r == self.spec_status(),
    {
        if self.rc < 0 {
            Err(OsError { code: self.errno })
        } else {
            Ok(())
        }
    }
}

} // verus!
