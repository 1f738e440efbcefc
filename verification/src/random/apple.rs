//! Random bytes on Apple platforms.
//!
//! There is a single library call, which is always present and answers only
//! when the system's generator is seeded. So there is nothing to probe and
//! nothing to fall back on: the call serves the whole request or the
//! request fails.

use super::fatal::Fatal;
use vstd::prelude::*;

verus! {

/// What the platform's random-bytes call reported.
#[derive(Clone, Copy, Debug, PartialEq, Eq)]
pub enum Status {
    /// The call filled the whole buffer.
    Success,
    /// The call returned anything but its success code.
    Failure,
}

/// The end of a request for `len` bytes that was handed to the platform
/// call whole: every byte is filled, or the request is aborted.
pub fn fill_bytes(len: usize, status: Status) -> (filled: Result<usize, Fatal>)
    ensures
        filled == match status {
            Status::Success => Ok::<usize, Fatal>(len),
            Status::Failure => Err::<usize, Fatal>(Fatal::Platform),
        },
{
    match status {
        Status::Success => Ok(len),
        Status::Failure => Err(Fatal::Platform),
    }
}

} // verus!
