//! Request-lifecycle gateway for a wallet-connect responder.
//!
//! The crate holds the decisions of the gateway: which relay events are
//! eligible for processing, which requests are in flight, how a dispatch
//! begins and ends, and how the notification loop moves between running,
//! draining and stopped. Connections, timers and the wallet backend stay
//! with the caller, which feeds inputs in and carries actions out.

pub mod event;
pub mod event_loop;
pub mod ledger;
pub mod lifecycle;
pub mod state;
