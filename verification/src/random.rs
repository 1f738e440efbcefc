//! Requests for random bytes.
//!
//! - [`probe`]: what the process knows about the kernel's fast paths.
//! - [`syscall`]: one attempt of the kernel's random-fill call.
//! - [`readiness`]: waiting until the kernel's pool is seeded.
//! - [`linux`]: a request on Linux, from the kernel call down to the devices.
//! - [`apple`]: a request on Apple platforms, served by one call.
//! - [`platform`]: the numbers by which the platform names errors and flags.
//! - [`fatal`]: the failures that abort a request.
//! - [`laws`]: what holds of every request and of every process.

pub mod apple;
pub mod fatal;
pub mod laws;
pub mod linux;
pub mod platform;
pub mod probe;
pub mod readiness;
pub mod syscall;
