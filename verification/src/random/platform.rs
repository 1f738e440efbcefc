//! The numbers by which the running platform names its errors, flags and
//! poll events.
//!
//! Their values differ between platforms. What is known of them is what
//! holds on every platform that has the kernel call at all; the logic that
//! reads them is verified for every table.

use vstd::prelude::*;

verus! {

/// What the Hurd adds to the number of each of its errors.
pub const HURD_ERRORS: i32 = 0x4000_0000;

/// The numbers that the fallback logic tells apart.
#[derive(Clone, Copy, Debug, PartialEq, Eq)]
pub struct Numbers {
    /// A call was interrupted before it did anything.
    pub interrupted: i32,
    /// An argument, such as a flag, was not understood.
    pub invalid_argument: i32,
    /// A non-blocking call would have had to wait.
    pub would_block: i32,
    /// The call does not exist on this kernel.
    pub not_implemented: i32,
    /// The call is forbidden to this process.
    pub permission_denied: i32,
    /// The flag bit that makes the kernel call fail rather than wait.
    pub nonblock_flag: u32,
    /// The flag bit that asks the kernel call for output even before the
    /// pool is seeded.
    pub insecure_flag: u32,
    /// The poll event "there is data to read".
    pub readable_event: i16,
}

/// `libc::EINTR`: 4 on Linux, Android and the BSDs, and 4 above
/// [`HURD_ERRORS`] on the Hurd.
#[verifier::external_body]
fn eintr() -> (code: i32)
    ensures
        code == 4 || code == HURD_ERRORS + 4,
{
    libc::EINTR
}

/// `libc::EINVAL`: 22 on Linux, Android and the BSDs, and 22 above
/// [`HURD_ERRORS`] on the Hurd.
#[verifier::external_body]
fn einval() -> (code: i32)
    ensures
        code == 22 || code == HURD_ERRORS + 22,
{
    libc::EINVAL
}

/// `libc::EAGAIN`: 11 on Linux and Android, 35 on the BSDs, and 35 above
/// [`HURD_ERRORS`] on the Hurd.
#[verifier::external_body]
fn eagain() -> (code: i32)
    ensures
        code == 11 || code == 35 || code == HURD_ERRORS + 35,
{
    libc::EAGAIN
}

/// `libc::ENOSYS`: on Linux 38, but 89 on MIPS and 90 on SPARC; 38 on
/// Android; 78 on the BSDs; and 78 above [`HURD_ERRORS`] on the Hurd.
#[verifier::external_body]
fn enosys() -> (code: i32)
    ensures
        code == 38 || code == 89 || code == 90 || code == 78 || code == HURD_ERRORS + 78,
{
    libc::ENOSYS
}

/// `libc::EPERM`: 1 on Linux, Android and the BSDs, and 1 above
/// [`HURD_ERRORS`] on the Hurd.
#[verifier::external_body]
fn eperm() -> (code: i32)
    ensures
        code == 1 || code == HURD_ERRORS + 1,
{
    libc::EPERM
}

/// `libc::GRND_NONBLOCK`, the flag bit that makes the kernel call fail
/// rather than wait: 2 on DragonFly and 1 everywhere else.
#[verifier::external_body]
fn grnd_nonblock() -> (bits: u32)
    ensures
        bits == 1 || bits == 2,
{
    libc::GRND_NONBLOCK
}

/// `libc::GRND_INSECURE`, the flag bit that asks the kernel call for output
/// even before the pool is seeded: 4 wherever there is one.
#[verifier::external_body]
fn grnd_insecure() -> (bits: u32)
    ensures
        bits == 4,
{
    libc::GRND_INSECURE
}

/// `libc::POLLIN`, the poll event "there is data to read": 1 on every
/// platform that has the kernel call.
#[verifier::external_body]
fn pollin() -> (events: i16)
    ensures
        events == 1,
{
    libc::POLLIN
}

impl Numbers {
    /// Whether each number of the table is one that its name stands for on
    /// some platform that has the kernel call: Linux, Android, FreeBSD,
    /// DragonFly, NetBSD or the Hurd.
    pub open spec fn known(self) -> bool {
        &&& self.interrupted == 4 || self.interrupted == HURD_ERRORS + 4
        &&& self.invalid_argument == 22 || self.invalid_argument == HURD_ERRORS + 22
        &&& self.would_block == 11 || self.would_block == 35 || self.would_block == HURD_ERRORS
            + 35
        &&& self.not_implemented == 38 || self.not_implemented == 89 || self.not_implemented
            == 90 || self.not_implemented == 78 || self.not_implemented == HURD_ERRORS + 78
        &&& self.permission_denied == 1 || self.permission_denied == HURD_ERRORS + 1
        &&& self.nonblock_flag == 1 || self.nonblock_flag == 2
        &&& self.insecure_flag == 4
        &&& self.readable_event == 1
    }

    /// Whether the table tells apart what the logic tells apart: no two of
    /// the five errors share a number, the two flags are two different
    /// arguments and neither is "no flag", and there is a readable event.
    pub open spec fn tells_apart(self) -> bool {
        &&& self.interrupted != self.invalid_argument
        &&& self.interrupted != self.would_block
        &&& self.interrupted != self.not_implemented
        &&& self.interrupted != self.permission_denied
        &&& self.invalid_argument != self.would_block
        &&& self.invalid_argument != self.not_implemented
        &&& self.invalid_argument != self.permission_denied
        &&& self.would_block != self.not_implemented
        &&& self.would_block != self.permission_denied
        &&& self.not_implemented != self.permission_denied
        &&& self.nonblock_flag != 0
        &&& self.insecure_flag != 0
        &&& self.nonblock_flag != self.insecure_flag
        &&& self.readable_event != 0
    }

    /// The table of the platform this crate was built for: each number is
    /// the one that the platform gives it, so the table is a known one, and
    /// it tells apart what the logic tells apart.
    pub fn native() -> (numbers: Numbers)
        ensures
            numbers.known(),
            numbers.tells_apart(),
    {
        Numbers {
            interrupted: eintr(),
            invalid_argument: einval(),
            would_block: eagain(),
            not_implemented: enosys(),
            permission_denied: eperm(),
            nonblock_flag: grnd_nonblock(),
            insecure_flag: grnd_insecure(),
            readable_event: pollin(),
        }
    }
}

/// Every known table tells apart what the logic tells apart.
pub proof fn lemma_known_numbers_tell_apart(numbers: Numbers)
    requires
        numbers.known(),
    ensures
        numbers.tells_apart(),
{
}

} // verus!
