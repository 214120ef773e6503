//! The decisions of a terminal gateway, kept apart from the system calls that
//! carry them out.
//!
//! A gateway attaches each accepted network connection to a fresh interactive
//! session behind a pseudoterminal. Everything that touches the operating
//! system (creating the process, reading and writing descriptors, waiting
//! for readiness, reaping the child) is done by the caller; this crate
//! decides what is to be done next, and proves that those decisions keep
//! the promises a gateway has to keep: a descriptor is made non-blocking
//! before it is registered, a readiness race is retried and never
//! reported, the master descriptor is closed once and only after bridging,
//! and every session that got a child closes its descriptor and reaps
//! that child exactly once.

pub mod adapter;
pub mod flags;
pub mod poll;
pub mod session;
