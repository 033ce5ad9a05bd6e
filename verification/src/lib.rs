//! The deciding core of a client for remote input forwarding.
//!
//! Nothing in this crate performs I/O. The session engine in [`client`] is a
//! state machine: a driver reports what happened on the connection as events
//! and carries out the actions it is handed back. The [`state`] module holds
//! the active-state cell and the bookkeeping of the local broadcast service
//! that publishes it.

pub mod client;
pub mod keepalive;
pub mod laws;
pub mod protocol;
pub mod registry;
pub mod state;
