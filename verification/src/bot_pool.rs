//! The facade through which producers feed the relay, and the two halves of
//! a dispatch tick that the caller performs around the send.

use crate::buffer::PendingBuffer;
use crate::dispatch::{RelayState, SendOutcome};
use crate::ingest::{decode_payload, PayloadDecodeFailure};
use crate::pool::ConnectionPool;
use tokio::sync::mpsc::Sender;
use vstd::prelude::*;
use vstd::utf8::{decode_utf8, valid_utf8};

verus! {

/// `tokio::sync::mpsc::Sender`, the sending half of a bounded channel. The
/// relay stores such handles and hands them back; it never looks inside one
/// and never sends through one, so nothing is claimed of its behaviour.
#[verifier::external_type_specification]
#[verifier::external_body]
#[verifier::reject_recursive_types(T)]
pub struct ExSender<T>(Sender<T>);

/// The pending buffer and the connection pool behind one owner.
///
/// Producers call `add_message` and `add_websocket`. The dispatch loop calls
/// `begin_tick`, sends what it was handed through `active()`, and reports
/// the outcome to `finish_tick`. It keeps the relay to itself from the first
/// half of a tick to the second, so that the connection which `finish_tick`
/// evicts is the one through which the send failed.
pub struct BotPool {
    message_queue: PendingBuffer,
    websocket_pool: ConnectionPool<Sender<String>>,
}

impl View for BotPool {
    type V = RelayState<Sender<String>>;

    closed spec fn view(&self) -> RelayState<Sender<String>> {
        RelayState {
            pending: self.message_queue@,
            connections: self.websocket_pool@,
            issued: self.websocket_pool.issued(),
        }
    }
}

impl BotPool {
    /// A relay with nothing pending and nothing registered.
    pub fn new() -> (pool: BotPool)
        ensures
            pool@ == RelayState::<Sender<String>>::empty(),
    {
        BotPool { message_queue: PendingBuffer::new(), websocket_pool: ConnectionPool::new() }
    }

    /// Registers `ws_tx`: it becomes the active connection.
    pub fn add_websocket(&mut self, ws_tx: Sender<String>)
        ensures
            final(self)@ == old(self)@.register(ws_tx),
            final(self)@.well_formed(),
    {
        self.websocket_pool.register(ws_tx);
        proof {
            use_type_invariant(&self.websocket_pool);
        }
    }

    /// Enqueues `message` behind every pending message.
    pub fn add_message(&mut self, message: String)
        ensures
            final(self)@ == old(self)@.enqueue(message@),
            final(self)@.well_formed(),
    {
        self.message_queue.enqueue(message);
        proof {
            use_type_invariant(&self.websocket_pool);
        }
    }

    /// Ingests the body of one request. A body that is valid text becomes
    /// exactly one message, enqueued behind every pending message. Any other
    /// body is rejected and the relay is left as it was.
    pub fn add_payload(&mut self, body: Vec<u8>) -> (accepted: Result<(), PayloadDecodeFailure>)
        ensures
            match accepted {
                Ok(_) => valid_utf8(body@) && final(self)@ == old(self)@.enqueue(
                    decode_utf8(body@),
                ),
                Err(_) => !valid_utf8(body@) && final(self)@ == old(self)@,
            },
            final(self)@.well_formed(),
    {
        proof {
            use_type_invariant(&self.websocket_pool);
        }
        match decode_payload(body) {
            Ok(message) => {
                self.add_message(message);
                Ok(())
            },
            Err(failure) => Err(failure),
        }
    }

    /// Number of pending messages.
    pub fn pending_count(&self) -> (n: usize)
        ensures
            n == self@.pending.len(),
    {
        self.message_queue.len()
    }

    /// Number of connections present.
    pub fn connection_count(&self) -> (n: usize)
        ensures
            n == self@.connections.len(),
    {
        self.websocket_pool.len()
    }

    /// The connection through which a tick sends: the most recently
    /// registered one that is still present.
    pub fn active(&self) -> (connection: Option<&Sender<String>>)
        ensures
            match connection {
                Some(handle) => self@.connections.len() > 0 && *handle
                    == self@.connections[0].handle,
                None => self@.connections.len() == 0,
            },
    {
        self.websocket_pool.active()
    }

    /// First half of a tick. Where a message is pending and a connection is
    /// present, takes the head message out of the buffer and returns it: the
    /// caller sends it through `active()` and reports the outcome to
    /// `finish_tick`. Otherwise the tick has no work and nothing changes.
    pub fn begin_tick(&mut self) -> (dispatch: Option<String>)
        ensures
            match dispatch {
                Some(message) => {
                    &&& old(self)@.can_dispatch()
                    &&& message@ == old(self)@.pending[0]
                    &&& final(self)@ == old(self)@.dispatching()
                },
                None => !old(self)@.can_dispatch() && final(self)@ == old(self)@,
            },
            final(self)@.well_formed(),
    {
        proof {
            use_type_invariant(&self.websocket_pool);
        }
        if self.websocket_pool.is_empty() {
            None
        } else {
            self.message_queue.take_next()
        }
    }

    /// Second half of a tick: `message` is the one that `begin_tick` handed
    /// out, `outcome` is how its send ended. A delivered message is gone.
    /// After a failure the active connection is evicted for good and
    /// `message` is put back at the head of the buffer.
    pub fn finish_tick(&mut self, message: String, outcome: SendOutcome)
        ensures
            final(self)@ == old(self)@.resolve(message@, outcome),
            final(self)@.well_formed(),
    {
        match outcome {
            SendOutcome::Delivered => {},
            SendOutcome::ConnectionFailure => {
                self.websocket_pool.evict_active();
                self.message_queue.requeue(message);
            },
        }
        proof {
            use_type_invariant(&self.websocket_pool);
        }
    }
}

impl Default for BotPool {
    fn default() -> (pool: BotPool)
        ensures
            pool@ == RelayState::<Sender<String>>::empty(),
    {
        BotPool::new()
    }
}

} // verus!
