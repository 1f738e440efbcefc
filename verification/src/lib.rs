//! Random bytes from the operating system on Unix-like platforms, as
//! decisions without I/O.
//!
//! A request for random bytes tries the kernel's fast call first, remembers
//! for the whole process what it learns about the kernel, and falls back on
//! the random devices where the call cannot serve. This crate takes every
//! decision of that chain: which interface is next, with which flags, what
//! an answer of the operating system means, when a request is complete and
//! when it must be aborted. The embedding program makes the calls and
//! reports their outcomes.
//!
//! - [`random`]: the requests, the capability flags, and what holds of them.
//! - [`uuid`]: version-4 identifiers made from sixteen random bytes.
//! - [`credentials`]: which entries of a credentials directory are
//!   reported, and how.

pub mod bytes;
pub mod credentials;
pub mod random;
pub mod uuid;

pub use credentials::{discover, load_all, Error};
