//! A one-shot local credential relay: a listener that accepts a single client on a
//! named channel, captures a username and a password from it, publishes them in a
//! shared store and signals its owner.
//!
//! The library holds the logic: the store, the decoding of a received field, the
//! session's state machine and the listener's lifecycle flags. The channel itself,
//! the worker thread and the owner's notification are driven by the caller, which
//! performs each action the session asks for and hands back what came of it.

pub mod credentials;
pub mod field;
pub mod laws;
pub mod listener;
pub mod session;
