//! The core of a relay for text messages.
//!
//! Messages arrive from one upstream source and wait in a pending buffer.
//! Delivery connections register with a pool. A dispatch loop ticks at a
//! fixed interval, and each tick hands at most one message to the most
//! recently registered connection that is still present. A connection
//! through which a send fails is evicted for good, and the message that it
//! could not take is tried again first.
//!
//! - [`buffer`] and [`pool`] hold the two containers.
//! - [`bot_pool`] is the facade over both, with the two halves of a tick
//!   that the dispatch loop performs around the send.
//! - [`dispatch`] states what these operations do, over sequences.
//! - [`history`] and [`guarantees`] say what follows for whole runs.
//! - [`ingest`] turns the body of a request into a message.
//! - [`announce`] builds what the process tells the upstream service at
//!   startup.

pub mod announce;
pub mod bot_pool;
pub mod buffer;
pub mod dispatch;
pub mod guarantees;
pub mod history;
pub mod ingest;
pub mod pool;
