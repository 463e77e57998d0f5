//! Entry points that a host runtime calls, and the host capabilities they
//! call back into.
//!
//! Each entry point decides which capability to invoke and with which message,
//! and returns that decision as a [`HostCall`]. The code that sits on the host
//! boundary performs the call; every message is fixed here, and proved.

pub mod calls;

pub use calls::{greet, main, Capability, HostCall};
