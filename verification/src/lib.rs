//! The logic of a wrapper around Linux's epoll, with the system calls left out.
//!
//! Every operation on the kernel is split in two. A first function says what
//! to ask of the kernel, as a [`Syscall`]; whoever owns the thread makes that
//! call and brings back the kernel's [`Answer`]; a second function says what
//! the answer means. Nothing in this crate blocks, and nothing in it touches a
//! descriptor.

pub mod epoll;
pub mod event;
pub mod event_loop;
pub mod flags;
pub mod kernel;
pub mod timeout;

pub use epoll::{EPoll, POISON};
pub use event::Event;
pub use event_loop::{EventLoop, EventLoopIterator, LoopView, Operation};
pub use flags::{
    EventType, EPOLLERR, EPOLLET, EPOLLEXCLUSIVE, EPOLLHUP, EPOLLIN, EPOLLMSG, EPOLLONESHOT,
    EPOLLOUT, EPOLLPRI, EPOLLRDBAND, EPOLLRDHUP, EPOLLRDNORM, EPOLLWAKEUP, EPOLLWRBAND,
    EPOLLWRNORM, EPOLL_ALL,
};
pub use kernel::{Answer, OsError, Syscall, EPOLL_CTL_ADD, EPOLL_CTL_DEL, EPOLL_CTL_MOD};
pub use timeout::{Timeout, MAX_MILLISECONDS};
