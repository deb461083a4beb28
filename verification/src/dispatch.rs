//! The dispatch step as a state machine over mathematical values.
//!
//! A relay is a pending sequence and a pool of registrations. Producers
//! enqueue messages and register connections; the dispatch loop ticks. One
//! tick pairs the message at the head of the pending sequence with the
//! active connection, and what becomes of both depends on how the send ends.

use crate::pool::{well_ordered, Registration};
use vstd::prelude::*;

verus! {

/// Time between two ticks of the dispatch loop, in milliseconds.
pub const TICK_INTERVAL_MILLIS: u64 = 100;

/// How one attempted send through the active connection ended.
#[derive(Clone, Copy, Debug, PartialEq, Eq)]
pub enum SendOutcome {
    /// The connection accepted the message.
    Delivered,
    /// The send did not complete: the destination is closed or unreachable.
    ConnectionFailure,
}

/// The relay between two ticks.
pub struct RelayState<C> {
    /// Pending messages in dispatch order: index 0 is attempted next.
    pub pending: Seq<Seq<char>>,
    /// Registrations still present, most recent first: index 0 is active.
    pub connections: Seq<Registration<C>>,
    /// Number of registrations accepted so far, evicted ones included.
    pub issued: nat,
}

impl<C> RelayState<C> {
    /// Nothing pending, nothing registered.
    pub open spec fn empty() -> RelayState<C> {
        RelayState { pending: Seq::empty(), connections: Seq::empty(), issued: 0 }
    }

    /// The pool's order of recency holds.
    pub open spec fn well_formed(self) -> bool {
        well_ordered(self.connections, self.issued)
    }

    /// Whether the registration with this serial is present.
    pub open spec fn holds(self, serial: nat) -> bool {
        exists|i: int|
            0 <= i < self.connections.len() && (#[trigger] self.connections[i]).serial == serial
    }

    /// The state after `message` has arrived.
    pub open spec fn enqueue(self, message: Seq<char>) -> RelayState<C> {
        RelayState { pending: self.pending.push(message), ..self }
    }

    /// The state after `handle` has been registered.
    pub open spec fn register(self, handle: C) -> RelayState<C> {
        RelayState {
            connections: seq![Registration { serial: self.issued, handle }] + self.connections,
            issued: self.issued + 1,
            ..self
        }
    }

    /// Whether a tick has work: a message is pending and a connection is
    /// present.
    pub open spec fn can_dispatch(self) -> bool {
        self.pending.len() > 0 && self.connections.len() > 0
    }

    /// The state while the head message is out for delivery.
    pub open spec fn dispatching(self) -> RelayState<C>
        recommends
            self.can_dispatch(),
    {
        RelayState { pending: self.pending.skip(1), ..self }
    }

    /// The state after the send of `message` has ended in `outcome`. A
    /// delivered message is gone and the pool is untouched. After a failure
    /// the active connection is evicted and `message` is first in line again.
    pub open spec fn resolve(self, message: Seq<char>, outcome: SendOutcome) -> RelayState<C> {
        match outcome {
            SendOutcome::Delivered => self,
            SendOutcome::ConnectionFailure => RelayState {
                pending: seq![message] + self.pending,
                connections: if self.connections.len() > 0 {
                    self.connections.skip(1)
                } else {
                    self.connections
                },
                ..self
            },
        }
    }

    /// The state after one whole tick whose send, if one is attempted, ends
    /// in `outcome`.
    pub open spec fn tick(self, outcome: SendOutcome) -> RelayState<C> {
        if !self.can_dispatch() {
            self
        } else {
            match outcome {
                SendOutcome::Delivered => RelayState { pending: self.pending.skip(1), ..self },
                SendOutcome::ConnectionFailure => RelayState {
                    connections: self.connections.skip(1),
                    ..self
                },
            }
        }
    }
}

/// A tick is the two halves that the dispatch loop performs around the send:
/// taking the head message, then resolving the outcome. A tick without work
/// changes nothing.
pub proof fn lemma_tick_in_two_halves<C>(state: RelayState<C>, outcome: SendOutcome)
    ensures
        state.can_dispatch() ==> state.tick(outcome) == state.dispatching().resolve(
            state.pending[0],
            outcome,
        ),
        !state.can_dispatch() ==> state.tick(outcome) == state,
{
    if state.can_dispatch() {
        assert(seq![state.pending[0]] + state.pending.skip(1) =~= state.pending);
    }
}

} // verus!
