//! The error numbers that decide how a failed system call is reported.
//!
//! Each number comes from the `libc` crate. It has the value stated here on Linux, Android,
//! macOS, iOS and FreeBSD, the systems that offer `epoll` or `kqueue` to this library.
use libc::c_int;
use vstd::prelude::*;

verus! {

/// Operation not permitted.
pub open spec fn not_permitted() -> c_int {
    1
}

/// No such entry.
pub open spec fn no_entry() -> c_int {
    2
}

/// Interrupted by a signal.
pub open spec fn interrupted() -> c_int {
    4
}

/// Bad file descriptor.
pub open spec fn bad_descriptor() -> c_int {
    9
}

/// Permission denied.
pub open spec fn access_denied() -> c_int {
    13
}

/// Entry exists.
pub open spec fn already_exists() -> c_int {
    17
}

/// Reads `libc::EPERM`, and claims that it is 1.
#[verifier::external_body]
pub(crate) fn eperm() -> (code: c_int)
    ensures
        code == not_permitted(),
{
    libc::EPERM
}

/// Reads `libc::ENOENT`, and claims that it is 2.
#[verifier::external_body]
pub(crate) fn enoent() -> (code: c_int)
    ensures
        code == no_entry(),
{
    libc::ENOENT
}

/// Reads `libc::EINTR`, and claims that it is 4.
#[verifier::external_body]
pub(crate) fn eintr() -> (code: c_int)
    ensures
        code == interrupted(),
{
    libc::EINTR
}

/// Reads `libc::EBADF`, and claims that it is 9.
#[verifier::external_body]
pub(crate) fn ebadf() -> (code: c_int)
    ensures
        code == bad_descriptor(),
{
    libc::EBADF
}

/// Reads `libc::EACCES`, and claims that it is 13.
#[verifier::external_body]
pub(crate) fn eacces() -> (code: c_int)
    ensures
        code == access_denied(),
{
    libc::EACCES
}

/// Reads `libc::EEXIST`, and claims that it is 17.
#[verifier::external_body]
pub(crate) fn eexist() -> (code: c_int)
    ensures
        code == already_exists(),
{
    libc::EEXIST
}

} // verus!
