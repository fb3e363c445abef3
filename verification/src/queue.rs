//! The ordered collection of pending invocation handles.
use vstd::prelude::*;

verus! {

/// A first-in-first-out queue of pending invocation handles.
///
/// Insertion order is issue order. The queue is drained strictly from the
/// front, so results are delivered in the order their invocations were
/// issued, even when the invocations complete in another order. A handle
/// whose result is not yet available can be put back at the front without
/// disturbing that order.
pub struct InFlightQueue<H> {
    items: Vec<H>,
}

impl<H> View for InFlightQueue<H> {
    type V = Seq<H>;

    closed spec fn view(&self) -> Seq<H> {
        self.items@
    }
}

impl<H> InFlightQueue<H> {
    /// Creates an empty queue.
    pub fn new() -> (q: Self)
        ensures
            q@ == Seq::<H>::empty(),
    {
        InFlightQueue { items: Vec::new() }
    }

    /// The number of handles currently in flight.
    pub fn len(&self) -> (n: usize)
        ensures
            n == self@.len(),
    {
        self.items.len()
    }

    /// Whether no invocation is in flight.
    pub fn is_empty(&self) -> (b: bool)
        ensures
            b == (self@.len() == 0),
    {
        self.items.len() == 0
    }

    /// Appends the handle of a freshly issued invocation at the tail.
    pub fn push_back(&mut self, handle: H)
        ensures
            final(self)@ == old(self)@.push(handle),
    {
        self.items.push(handle);
    }

    /// Puts a handle back at the front, undoing the most recent `pop_front`.
    pub fn push_front(&mut self, handle: H)
        ensures
            final(self)@ == old(self)@.insert(0, handle),
    {
        self.items.insert(0, handle);
    }

    /// Removes and returns the handle of the oldest in-flight invocation.
    pub fn pop_front(&mut self) -> (r: Option<H>)
        ensures
            match r {
                Some(handle) => {
                    &&& old(self)@.len() > 0
                    &&& handle == old(self)@[0]
                    &&& final(self)@ == old(self)@.remove(0)
                },
                None => {
                    &&& old(self)@.len() == 0
                    &&& final(self)@ == old(self)@
                },
            },
    {
        if self.items.len() == 0 {
            None
        } else {
            Some(self.items.remove(0))
        }
    }
}

} // verus!
