//! The work-stealing deque, modelled as a double-ended queue over a `Vec`.
//!
//! The owning worker pushes and pops at the bottom (the end of the sequence);
//! thieves steal from the top (the front). `steal` reports `Empty` for an
//! authoritative negative observation and reserves `Abort` for a lost race,
//! which the sequential scheduler in this crate never produces.

use vstd::prelude::*;

verus! {

/// The outcome of a steal attempt on a deque.
#[derive(Clone, Copy, PartialEq, Eq, Debug)]
pub enum Steal<T> {
    /// The deque was observed empty.
    Empty,
    /// The attempt lost a race and should be retried or abandoned.
    Abort,
    /// A work item was stolen from the top of the deque.
    Data(T),
}

/// A double-ended queue with asymmetric access: the owner works the bottom,
/// thieves take from the top.
pub struct Deque<T> {
    items: Vec<T>,
}

impl<T> Deque<T> {
    /// The deque as a sequence, top first, bottom last.
    pub closed spec fn view(&self) -> Seq<T> {
        self.items@
    }

    /// Creates an empty deque.
    pub fn new() -> (d: Self)
        ensures
            d@ == Seq::<T>::empty(),
    {
        Deque { items: Vec::new() }
    }

    /// The number of items currently queued.
    pub fn len(&self) -> (n: usize)
        ensures
            n == self@.len(),
    {
        self.items.len()
    }

    /// Whether the deque holds no items.
    pub fn is_empty(&self) -> (b: bool)
        ensures
            b == (self@.len() == 0),
    {
        self.items.len() == 0
    }

    /// Owner only: appends an item at the bottom.
    pub fn push(&mut self, item: T)
        ensures
            final(self)@ == old(self)@.push(item),
    {
        self.items.push(item);
    }

    /// Owner only: removes the most recently pushed item from the bottom.
    pub fn pop(&mut self) -> (r: Option<T>)
        ensures
            old(self)@.len() == 0 ==> r is None && final(self)@ == old(self)@,
            old(self)@.len() > 0 ==> r == Some(old(self)@.last())
                && final(self)@ == old(self)@.drop_last(),
    {
        if self.items.len() == 0 {
            None
        } else {
            let item = self.items.pop().unwrap();
            Some(item)
        }
    }

    /// Removes the oldest item from the top, as a thief would. In this
    /// sequential embedding no race can be lost, so the result is never
    /// `Abort`.
    pub fn steal(&mut self) -> (r: Steal<T>)
        ensures
            old(self)@.len() == 0 ==> r is Empty && final(self)@ == old(self)@,
            old(self)@.len() > 0 ==> r == Steal::Data(old(self)@.first())
                && final(self)@ == old(self)@.drop_first(),
    {
        if self.items.len() == 0 {
            Steal::Empty
        } else {
            let item = self.items.remove(0);
            Steal::Data(item)
        }
    }
}

} // verus!
