//! Dispatch core of a windowing backend for an asynchronous display-server
//! protocol.
//!
//! The crate keeps the mapping from surface identities to per-window state,
//! turns protocol events and deferred window actions into calls for the
//! application's handlers and requests for the protocol transport, and queues
//! work that has to run on the dispatch thread.  It performs no input or output
//! itself: every function takes the dispatch state and returns the effects
//! that the caller has to carry out, in order.

pub mod application;
pub mod dispatch;
pub mod effect;
pub mod error;
pub mod geometry;
pub mod laws;
pub mod registry;
pub mod scale;
pub mod window;
