//! The pending buffer: messages awaiting delivery.

use std::collections::VecDeque;
use vstd::prelude::*;

verus! {

/// Messages awaiting delivery.
///
/// The view lists the pending messages in dispatch order: index 0 is the
/// message that the next tick will attempt, the last index is the message
/// that arrived most recently.
pub struct PendingBuffer {
    messages: VecDeque<String>,
}

impl View for PendingBuffer {
    type V = Seq<Seq<char>>;

    closed spec fn view(&self) -> Seq<Seq<char>> {
        self.messages.deep_view()
    }
}

impl PendingBuffer {
    /// An empty buffer.
    pub fn new() -> (buffer: PendingBuffer)
        ensures
            buffer@ == Seq::<Seq<char>>::empty(),
    {
        PendingBuffer { messages: VecDeque::new() }
    }

    /// Number of pending messages.
    pub fn len(&self) -> (n: usize)
        ensures
            n == self@.len(),
    {
        self.messages.len()
    }

    /// Whether no message is pending.
    pub fn is_empty(&self) -> (empty: bool)
        ensures
            empty <==> self@.len() == 0,
    {
        self.messages.len() == 0
    }

    /// Appends `message` at the arrival end, behind every pending message.
    pub fn enqueue(&mut self, message: String)
        ensures
            final(self)@ == old(self)@.push(message@),
    {
        self.messages.push_back(message);
    }

    /// Removes and returns the message at the dispatch-ready end, if any.
    pub fn take_next(&mut self) -> (next: Option<String>)
        ensures
            match next {
                Some(message) => {
                    &&& old(self)@.len() > 0
                    &&& message@ == old(self)@[0]
                    &&& final(self)@ == old(self)@.skip(1)
                },
                None => {
                    &&& old(self)@.len() == 0
                    &&& final(self)@ == old(self)@
                },
            },
    {
        self.messages.pop_front()
    }

    /// Reinserts `message` at the dispatch-ready end, ahead of every pending
    /// message, so that the next tick attempts it first.
    pub fn requeue(&mut self, message: String)
        ensures
            final(self)@ == seq![message@] + old(self)@,
    {
        self.messages.push_front(message);
    }
}

} // verus!
