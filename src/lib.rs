//! Errors that remember every call site they were forwarded through.
//!
//! A [`TracedError`] pairs an error value with a non-empty sequence of
//! [`CallSite`]s: the place where it was first wrapped, followed by each
//! place that forwarded it to its caller. A [`TracedResult`] is the
//! two-variant outcome that carries such an error; its `branch` step appends
//! the forwarding site on the failure path.
//!
//! Rust offers no stable way for a library to hook the `?` operator, and
//! call-site capture (`#[track_caller]`) is a compiler facility, so every
//! site is passed in as a value. Code that wants the caller's position can
//! build it from `file!()`, `line!()` and `column!()` or from
//! `std::panic::Location::caller()`. A site captured inside a function that is
//! itself marked `#[track_caller]` names that function's caller, which may lie
//! further up the stack than the forwarding expression.

mod call_site;
mod error;
pub mod laws;
pub mod render;
mod result;

pub use call_site::CallSite;
pub use error::TracedError;
pub use result::TracedResult;
