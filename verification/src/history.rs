//! Runs of the relay: what a sequence of events makes of a state, and the
//! record of the sends that were attempted on the way.

use crate::dispatch::{RelayState, SendOutcome};
use crate::pool::Registration;
use vstd::prelude::*;

verus! {

/// One thing that happens to the relay.
pub enum Event<C> {
    /// A producer enqueues a message.
    Enqueue { message: Seq<char> },
    /// A producer registers a connection.
    Register { handle: C },
    /// The dispatch loop ticks. `outcome` is how the send ends if the tick
    /// attempts one; a tick without work ignores it.
    Tick { outcome: SendOutcome },
}

/// One attempted send: through which registration, of which message, and how
/// it ended.
pub struct Attempt<C> {
    pub connection: Registration<C>,
    pub message: Seq<char>,
    pub outcome: SendOutcome,
}

/// The state after `event`.
pub open spec fn step<C>(state: RelayState<C>, event: Event<C>) -> RelayState<C> {
    match event {
        Event::Enqueue { message } => state.enqueue(message),
        Event::Register { handle } => state.register(handle),
        Event::Tick { outcome } => state.tick(outcome),
    }
}

/// The send that `event` attempts in `state`: a tick with work sends the head
/// message through the active connection, and nothing else sends anything.
pub open spec fn attempted<C>(state: RelayState<C>, event: Event<C>) -> Option<Attempt<C>> {
    match event {
        Event::Tick { outcome } => if state.can_dispatch() {
            Some(Attempt { connection: state.connections[0], message: state.pending[0], outcome })
        } else {
            None
        },
        _ => None,
    }
}

/// The state after all of `events`, in order.
pub open spec fn run<C>(state: RelayState<C>, events: Seq<Event<C>>) -> RelayState<C>
    decreases events.len(),
{
    if events.len() == 0 {
        state
    } else {
        step(run(state, events.drop_last()), events.last())
    }
}

/// The sends attempted while `events` happen to `state`, in order.
pub open spec fn attempts<C>(state: RelayState<C>, events: Seq<Event<C>>) -> Seq<Attempt<C>>
    decreases events.len(),
{
    if events.len() == 0 {
        Seq::empty()
    } else {
        let earlier = attempts(state, events.drop_last());
        match attempted(run(state, events.drop_last()), events.last()) {
            Some(attempt) => earlier.push(attempt),
            None => earlier,
        }
    }
}

/// The messages of the attempts in `log` that were delivered, in order.
pub open spec fn delivered<C>(log: Seq<Attempt<C>>) -> Seq<Seq<char>>
    decreases log.len(),
{
    if log.len() == 0 {
        Seq::empty()
    } else {
        let earlier = delivered(log.drop_last());
        match log.last().outcome {
            SendOutcome::Delivered => earlier.push(log.last().message),
            SendOutcome::ConnectionFailure => earlier,
        }
    }
}

/// The messages that `events` enqueue, in order.
pub open spec fn enqueued<C>(events: Seq<Event<C>>) -> Seq<Seq<char>>
    decreases events.len(),
{
    if events.len() == 0 {
        Seq::empty()
    } else {
        let earlier = enqueued(events.drop_last());
        match events.last() {
            Event::Enqueue { message } => earlier.push(message),
            _ => earlier,
        }
    }
}

/// Whether every tick in `events` finds its connection healthy: no send
/// that one of them attempts fails.
pub open spec fn no_failures<C>(events: Seq<Event<C>>) -> bool {
    forall|i: int|
        0 <= i < events.len() ==> (#[trigger] events[i] matches Event::Tick { outcome } ==> outcome
            == SendOutcome::Delivered)
}

/// Whether `events` register no connection.
pub open spec fn no_registrations<C>(events: Seq<Event<C>>) -> bool {
    forall|i: int| 0 <= i < events.len() ==> !(#[trigger] events[i] is Register)
}

/// Whether no attempt in `log` through the registration with this serial
/// has failed.
pub open spec fn never_failed<C>(log: Seq<Attempt<C>>, serial: nat) -> bool {
    forall|i: int|
        0 <= i < log.len() && (#[trigger] log[i]).connection.serial == serial ==> log[i].outcome
            == SendOutcome::Delivered
}

} // verus!
