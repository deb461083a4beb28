//! The connection pool: live delivery channels, most recently registered
//! first.

use std::collections::VecDeque;
use vstd::prelude::*;

verus! {

/// One registered connection as the model sees it: the handle, and the number
/// of registrations that the pool had accepted before this one. The serial
/// tells two registrations apart even where their handles are equal.
pub struct Registration<C> {
    pub serial: nat,
    pub handle: C,
}

/// Whether `entries` can be the contents of a pool that has accepted `issued`
/// registrations: serials fall strictly from the front to the back, and each
/// is below `issued`.
pub open spec fn well_ordered<C>(entries: Seq<Registration<C>>, issued: nat) -> bool {
    &&& forall|i: int| 0 <= i < entries.len() ==> (#[trigger] entries[i]).serial < issued
    &&& forall|i: int, j: int|
        0 <= i < j < entries.len() ==> (#[trigger] entries[i]).serial
            > (#[trigger] entries[j]).serial
}

struct Slot<C> {
    handle: C,
    serial: Ghost<nat>,
}

spec fn registrations<C>(slots: Seq<Slot<C>>) -> Seq<Registration<C>> {
    Seq::new(
        slots.len(),
        |i: int| Registration { serial: slots[i].serial@, handle: slots[i].handle },
    )
}

/// Live connections, most recently registered first.
///
/// The view lists the registrations that are still present: index 0 is the
/// active connection, the others are stand-bys in falling order of recency.
pub struct ConnectionPool<C> {
    slots: VecDeque<Slot<C>>,
    issued: Ghost<nat>,
}

impl<C> View for ConnectionPool<C> {
    type V = Seq<Registration<C>>;

    closed spec fn view(&self) -> Seq<Registration<C>> {
        registrations(self.slots@)
    }
}

impl<C> ConnectionPool<C> {
    /// Number of registrations accepted so far, evicted ones included.
    pub closed spec fn issued(&self) -> nat {
        self.issued@
    }

    /// Holds of every pool: what is present is ordered by recency.
    #[verifier::type_invariant]
    pub open spec fn well_formed(&self) -> bool {
        well_ordered(self@, self.issued())
    }

    /// An empty pool that has accepted no registration.
    pub fn new() -> (pool: ConnectionPool<C>)
        ensures
            pool@ == Seq::<Registration<C>>::empty(),
            pool.issued() == 0,
    {
        ConnectionPool { slots: VecDeque::new(), issued: Ghost(0) }
    }

    /// Number of connections present.
    pub fn len(&self) -> (n: usize)
        ensures
            n == self@.len(),
    {
        self.slots.len()
    }

    /// Whether no connection is present.
    pub fn is_empty(&self) -> (empty: bool)
        ensures
            empty <==> self@.len() == 0,
    {
        self.slots.len() == 0
    }

    /// Inserts `connection` at the most-recent end: it becomes the active
    /// connection, and every connection already present becomes a stand-by.
    pub fn register(&mut self, connection: C)
        ensures
            final(self)@ == (seq![
                Registration { serial: old(self).issued(), handle: connection },
            ]) + old(self)@,
            final(self).issued() == old(self).issued() + 1,
    {
        proof {
            use_type_invariant(&*self);
        }
        let ghost serial = self.issued@;
        let mut slots = VecDeque::new();
        std::mem::swap(&mut slots, &mut self.slots);
        slots.push_front(Slot { handle: connection, serial: Ghost(serial) });
        assert(registrations(slots@) =~= seq![Registration { serial, handle: connection }] + old(
            self,
        )@);
        self.issued = Ghost(serial + 1);
        self.slots = slots;
    }

    /// The most recently registered connection that is still present, if any.
    /// The pool is left as it is.
    pub fn active(&self) -> (connection: Option<&C>)
        ensures
            match connection {
                Some(handle) => self@.len() > 0 && *handle == self@[0].handle,
                None => self@.len() == 0,
            },
    {
        if self.slots.len() == 0 {
            None
        } else {
            Some(&self.slots[0].handle)
        }
    }

    /// Removes the active connection for good. The next most recent
    /// connection, if there is one, becomes active. An empty pool stays empty.
    pub fn evict_active(&mut self)
        ensures
            final(self)@ == if old(self)@.len() > 0 {
                old(self)@.skip(1)
            } else {
                old(self)@
            },
            final(self).issued() == old(self).issued(),
    {
        proof {
            use_type_invariant(&*self);
        }
        let mut slots = VecDeque::new();
        std::mem::swap(&mut slots, &mut self.slots);
        let evicted = slots.pop_front();
        assert(evicted is Some ==> registrations(slots@) =~= old(self)@.skip(1));
        self.slots = slots;
    }
}

} // verus!
