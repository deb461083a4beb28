//! What holds of every run of the relay: messages leave in the order in
//! which they came, sends go through the most recently registered connection
//! that is still present, and an evicted connection never comes back.

use crate::dispatch::{RelayState, SendOutcome};
use crate::history::{
    attempted, attempts, delivered, enqueued, never_failed, no_failures, no_registrations, run,
    step, Attempt, Event,
};
use crate::pool::Registration;
use vstd::prelude::*;

verus! {

/// An event keeps the pool's order of recency and never takes back a serial.
pub proof fn lemma_step_well_formed<C>(state: RelayState<C>, event: Event<C>)
    requires
        state.well_formed(),
    ensures
        step(state, event).well_formed(),
        step(state, event).issued >= state.issued,
{
}

/// A run keeps the pool's order of recency and never takes back a serial.
pub proof fn lemma_run_well_formed<C>(state: RelayState<C>, events: Seq<Event<C>>)
    requires
        state.well_formed(),
    ensures
        run(state, events).well_formed(),
        run(state, events).issued >= state.issued,
    decreases events.len(),
{
    if events.len() > 0 {
        lemma_run_well_formed(state, events.drop_last());
        lemma_step_well_formed(run(state, events.drop_last()), events.last());
    }
}

/// The log of a run extends the log of the run without its last event.
proof fn lemma_attempts_extend<C>(state: RelayState<C>, events: Seq<Event<C>>)
    requires
        events.len() > 0,
    ensures
        ({
            let earlier = attempts(state, events.drop_last());
            let log = attempts(state, events);
            &&& earlier.len() <= log.len()
            &&& forall|i: int| 0 <= i < earlier.len() ==> log[i] == earlier[i]
        }),
{
}

/// What holds of the events of a run holds of the run without its last event.
proof fn lemma_shorter_run<C>(events: Seq<Event<C>>)
    requires
        events.len() > 0,
    ensures
        no_failures(events) ==> no_failures(events.drop_last()),
        no_registrations(events) ==> no_registrations(events.drop_last()),
{
    let shorter = events.drop_last();
    assert forall|i: int| 0 <= i < shorter.len() implies #[trigger] shorter[i] == events[i] by {}
}

/// Whatever happens, messages leave in the order in which they came: the
/// messages delivered during a run, followed by those still pending after
/// it, are the messages pending before it followed by those enqueued during
/// it.
pub proof fn lemma_delivery_order<C>(state: RelayState<C>, events: Seq<Event<C>>)
    ensures
        delivered(attempts(state, events)) + run(state, events).pending == state.pending
            + enqueued(events),
    decreases events.len(),
{
    if events.len() > 0 {
        let before = run(state, events.drop_last());
        let log = attempts(state, events.drop_last());
        let arrived = enqueued(events.drop_last());
        lemma_delivery_order(state, events.drop_last());
        match events.last() {
            Event::Enqueue { message } => {
                assert(state.pending + arrived.push(message) =~= (state.pending + arrived).push(
                    message,
                ));
            },
            Event::Register { handle } => {},
            Event::Tick { outcome } => {
                if before.can_dispatch() {
                    let attempt = attempted(before, events.last())->0;
                    assert(log.push(attempt).drop_last() =~= log);
                }
            },
        }
    }
}

/// First in, first out. With a connection present and every send
/// succeeding, the pool never loses a connection, every attempt delivers,
/// the messages are delivered in exactly the order in which they were
/// enqueued, and while a message is pending the next tick delivers the
/// oldest one.
pub proof fn lemma_fifo_without_failures<C>(state: RelayState<C>, events: Seq<Event<C>>)
    requires
        state.connections.len() > 0,
        no_failures(events),
    ensures
        ({
            let end = run(state, events);
            let log = attempts(state, events);
            &&& end.connections.len() >= state.connections.len()
            &&& forall|i: int|
                0 <= i < log.len() ==> (#[trigger] log[i]).outcome == SendOutcome::Delivered
            &&& delivered(log) + end.pending == state.pending + enqueued(events)
            &&& end.pending.len() > 0 ==> attempted(
                end,
                Event::Tick { outcome: SendOutcome::Delivered },
            ) == Some(
                Attempt {
                    connection: end.connections[0],
                    message: end.pending[0],
                    outcome: SendOutcome::Delivered,
                },
            )
        }),
    decreases events.len(),
{
    lemma_delivery_order(state, events);
    if events.len() > 0 {
        lemma_shorter_run(events);
        lemma_fifo_without_failures(state, events.drop_last());
        lemma_attempts_extend(state, events);
    }
}

/// No loss without a connection. While no connection is present and none is
/// registered, no send is attempted, and the buffer holds what it held
/// before followed by every message enqueued since, however many ticks go
/// by.
pub proof fn lemma_no_loss_without_connection<C>(state: RelayState<C>, events: Seq<Event<C>>)
    requires
        state.connections.len() == 0,
        no_registrations(events),
    ensures
        run(state, events).connections.len() == 0,
        attempts(state, events).len() == 0,
        run(state, events).pending == state.pending + enqueued(events),
        run(state, events).pending.len() == state.pending.len() + enqueued(events).len(),
    decreases events.len(),
{
    lemma_delivery_order(state, events);
    if events.len() > 0 {
        lemma_shorter_run(events);
        lemma_no_loss_without_connection(state, events.drop_last());
    }
}

/// The message at the head of the buffer is served first: until something
/// is delivered it stays at the head, and the first delivery is of it.
proof fn lemma_head_is_served_first<C>(state: RelayState<C>, events: Seq<Event<C>>)
    requires
        state.pending.len() > 0,
    ensures
        ({
            let served = delivered(attempts(state, events));
            let end = run(state, events);
            &&& served.len() == 0 ==> end.pending.len() > 0 && end.pending[0] == state.pending[0]
            &&& served.len() > 0 ==> served[0] == state.pending[0]
        }),
    decreases events.len(),
{
    if events.len() > 0 {
        let before = run(state, events.drop_last());
        let log = attempts(state, events.drop_last());
        lemma_head_is_served_first(state, events.drop_last());
        if before.can_dispatch() && events.last() is Tick {
            let attempt = attempted(before, events.last())->0;
            assert(log.push(attempt).drop_last() =~= log);
        }
    }
}

/// Requeue priority. Let the tick taken in `state` fail on the message at
/// the head of the buffer. That message is first in line again. Whatever
/// happens next, it stays first in line until something is delivered; the
/// first tick that finds a connection present and healthy delivers it; and
/// so it is delivered before any message enqueued after the failed tick.
pub proof fn lemma_requeue_priority<C>(state: RelayState<C>, events: Seq<Event<C>>)
    requires
        state.can_dispatch(),
    ensures
        ({
            let message = state.pending[0];
            let failed = state.tick(SendOutcome::ConnectionFailure);
            let served = delivered(attempts(failed, events));
            let end = run(failed, events);
            &&& failed.pending == state.pending
            &&& served.len() == 0 ==> end.pending.len() > 0 && end.pending[0] == message
            &&& served.len() == 0 && end.connections.len() > 0 ==> attempted(
                end,
                Event::Tick { outcome: SendOutcome::Delivered },
            ) == Some(
                Attempt {
                    connection: end.connections[0],
                    message,
                    outcome: SendOutcome::Delivered,
                },
            )
            &&& served.len() > 0 ==> served[0] == message
        }),
{
    lemma_head_is_served_first(state.tick(SendOutcome::ConnectionFailure), events);
}

/// Every send goes through the most recently registered connection that is
/// still present: whenever an event of a run attempts a send, the attempt is
/// through the first registration of the pool at that time, and every other
/// registration then present is older.
pub proof fn lemma_attempt_goes_to_most_recent<C>(
    state: RelayState<C>,
    events: Seq<Event<C>>,
    event: Event<C>,
)
    requires
        state.well_formed(),
        attempted(run(state, events), event) is Some,
    ensures
        ({
            let now = run(state, events);
            let attempt = attempted(now, event)->0;
            &&& now.connections.len() > 0
            &&& attempt.connection == now.connections[0]
            &&& forall|j: int|
                0 < j < now.connections.len() ==> (#[trigger] now.connections[j]).serial
                    < attempt.connection.serial
        }),
{
    lemma_run_well_formed(state, events);
}

/// Stand-bys wait. While a registration that is present has not failed, it
/// stays in the pool, and no send is attempted through any registration
/// older than it.
pub proof fn lemma_stand_bys_wait<C>(state: RelayState<C>, serial: nat, events: Seq<Event<C>>)
    requires
        state.well_formed(),
        state.holds(serial),
        never_failed(attempts(state, events), serial),
    ensures
        run(state, events).holds(serial),
        forall|i: int|
            0 <= i < attempts(state, events).len() ==> (#[trigger] attempts(
                state,
                events,
            )[i]).connection.serial >= serial,
    decreases events.len(),
{
    if events.len() > 0 {
        let before = run(state, events.drop_last());
        let log = attempts(state, events.drop_last());
        lemma_attempts_extend(state, events);
        lemma_stand_bys_wait(state, serial, events.drop_last());
        lemma_run_well_formed(state, events.drop_last());
        let j = choose|j: int|
            0 <= j < before.connections.len() && (#[trigger] before.connections[j]).serial
                == serial;
        let end = run(state, events);
        match events.last() {
            Event::Enqueue { message } => {
                assert(end.connections[j].serial == serial);
            },
            Event::Register { handle } => {
                assert(end.connections[j + 1].serial == serial);
            },
            Event::Tick { outcome } => {
                if before.can_dispatch() {
                    let attempt = attempted(before, events.last())->0;
                    assert(attempts(state, events)[log.len() as int] == attempt);
                    match outcome {
                        SendOutcome::Delivered => {
                            assert(end.connections[j].serial == serial);
                        },
                        SendOutcome::ConnectionFailure => {
                            assert(end.connections[j - 1].serial == serial);
                        },
                    }
                }
            },
        }
    }
}

/// Without registrations a run only ever drops connections from the front:
/// the pool after it is a tail of the pool before it.
proof fn lemma_pool_shrinks_without_registrations<C>(state: RelayState<C>, events: Seq<Event<C>>)
    requires
        no_registrations(events),
    ensures
        ({
            let end = run(state, events);
            let dropped = state.connections.len() - end.connections.len();
            &&& 0 <= dropped <= state.connections.len()
            &&& end.connections == state.connections.skip(dropped)
        }),
    decreases events.len(),
{
    if events.len() > 0 {
        lemma_shorter_run(events);
        lemma_pool_shrinks_without_registrations(state, events.drop_last());
    }
}

/// In a run without registrations, an attempt through a registration that
/// is at least as recent as the one that was active at the start went
/// through that one.
proof fn lemma_attempt_through_first<C>(state: RelayState<C>, events: Seq<Event<C>>, i: int)
    requires
        state.well_formed(),
        no_registrations(events),
        state.connections.len() > 0,
        0 <= i < attempts(state, events).len(),
        attempts(state, events)[i].connection.serial >= state.connections[0].serial,
    ensures
        attempts(state, events)[i].connection == state.connections[0],
    decreases events.len(),
{
    if events.len() > 0 {
        let before = run(state, events.drop_last());
        let log = attempts(state, events.drop_last());
        lemma_attempts_extend(state, events);
        lemma_shorter_run(events);
        if i < log.len() {
            lemma_attempt_through_first(state, events.drop_last(), i);
        } else {
            lemma_pool_shrinks_without_registrations(state, events.drop_last());
        }
    }
}

/// Most recent first. Registering a connection makes it the active one.
/// While it has not failed, it stays in the pool and nothing is sent
/// through any connection that was registered before it; and while no
/// other connection is registered after it, every send goes through it.
pub proof fn lemma_newest_connection_is_selected<C>(
    state: RelayState<C>,
    handle: C,
    events: Seq<Event<C>>,
)
    requires
        state.well_formed(),
        never_failed(attempts(state.register(handle), events), state.issued),
    ensures
        ({
            let newest = Registration { serial: state.issued, handle };
            let registered = state.register(handle);
            let log = attempts(registered, events);
            &&& registered.connections[0] == newest
            &&& run(registered, events).holds(newest.serial)
            &&& forall|i: int|
                0 <= i < log.len() ==> (#[trigger] log[i]).connection.serial >= newest.serial
            &&& no_registrations(events) ==> forall|i: int|
                0 <= i < log.len() ==> (#[trigger] log[i]).connection == newest
        }),
{
    let registered = state.register(handle);
    lemma_step_well_formed(state, Event::Register { handle });
    assert(registered.connections[0].serial == state.issued);
    lemma_stand_bys_wait(registered, state.issued, events);
    if no_registrations(events) {
        let log = attempts(registered, events);
        assert forall|i: int| 0 <= i < log.len() implies (#[trigger] log[i]).connection
            == registered.connections[0] by {
            lemma_attempt_through_first(registered, events, i);
        }
    }
}

/// A serial that has been issued and is not in the pool is never in the pool
/// again, and no send is attempted through it.
proof fn lemma_absent_stays_absent<C>(state: RelayState<C>, serial: nat, events: Seq<Event<C>>)
    requires
        serial < state.issued,
        !state.holds(serial),
    ensures
        serial < run(state, events).issued,
        !run(state, events).holds(serial),
        forall|i: int|
            0 <= i < attempts(state, events).len() ==> (#[trigger] attempts(
                state,
                events,
            )[i]).connection.serial != serial,
    decreases events.len(),
{
    if events.len() > 0 {
        lemma_absent_stays_absent(state, serial, events.drop_last());
        lemma_attempts_extend(state, events);
    }
}

/// Eviction is permanent. Let the tick taken in `state` fail. The connection
/// through which it sent is gone, and whatever happens next, whichever sends
/// succeed and whatever is registered, that registration is never in the
/// pool again and no send is ever attempted through it again.
pub proof fn lemma_eviction_is_permanent<C>(state: RelayState<C>, events: Seq<Event<C>>)
    requires
        state.well_formed(),
        state.can_dispatch(),
    ensures
        ({
            let evicted = state.connections[0].serial;
            let failed = state.tick(SendOutcome::ConnectionFailure);
            &&& !failed.holds(evicted)
            &&& !run(failed, events).holds(evicted)
            &&& forall|i: int|
                0 <= i < attempts(failed, events).len() ==> (#[trigger] attempts(
                    failed,
                    events,
                )[i]).connection.serial != evicted
        }),
{
    let evicted = state.connections[0].serial;
    let failed = state.tick(SendOutcome::ConnectionFailure);
    lemma_absent_stays_absent(failed, evicted, events);
}

} // verus!
