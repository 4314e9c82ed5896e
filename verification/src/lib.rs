//! A library for integrating native file descriptors into channel-based programs.
//!
//! A poll set watches file descriptors on a worker thread and sends a message over a
//! channel when some of them become ready, so that a program can wait for activity on
//! file descriptors and on channels at the same time.
//!
//! This crate holds every decision of a poll set and performs none of its system calls.
//! A method either answers at once or hands back the system call to make next, as plain
//! values; the caller makes the call and passes the reply to the method that continues.
//!
//! * [`monitor`] is what the user's side and the worker share: who may run when, how many
//!   waits are pending and which events are stored.
//! * [`epoll`] and [`kqueue`] are the poll sets of the two kernel interfaces.
//! * [`laws`], [`wire`], [`calls`] and [`kernel`] state what holds of whole runs, of what crosses
//!   the kernel boundary, of the calls that are handed out and of their replies, and of the
//!   descriptors that the kernel watches.
pub mod calls;
pub mod epoll;
pub mod errno;
pub mod kernel;
pub mod kqueue;
pub mod laws;
pub mod monitor;
pub mod types;
pub mod wire;

pub use crate::types::{Error, Type};
