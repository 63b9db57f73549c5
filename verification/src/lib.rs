//! A networking layer based on MessagePack messages: the verified core.
//!
//! The blocking, socket and serialisation work lives around this crate; what is
//! here are the decisions: the closable event queue, the simple callback's event
//! store, and the node's registry of listeners and connections.

pub mod queue;
pub mod simple;
pub mod socket;
