//! Storage for the general pool: a stack of spare values, most recently
//! returned first.

use vstd::prelude::*;

verus! {

/// Spare values, already built and currently unused. The last one pushed is
/// the first one popped, as it is the most likely to be warm in cache.
pub struct Spares<T> {
    items: Vec<T>,
}

impl<T> View for Spares<T> {
    type V = Seq<T>;

    closed spec fn view(&self) -> Seq<T> {
        self.items@
    }
}

impl<T> Spares<T> {
    /// No spares.
    pub fn new() -> (s: Self)
        ensures
            s@ == Seq::<T>::empty(),
    {
        Spares { items: Vec::new() }
    }

    /// The number of spares.
    pub fn len(&self) -> (n: usize)
        ensures
            n == self@.len(),
    {
        self.items.len()
    }

    /// Puts `v` on top of the stack.
    pub fn push(&mut self, v: T)
        ensures
            final(self)@ == old(self)@.push(v),
    {
        self.items.push(v);
    }

    /// Takes the most recently pushed spare, or `None` where there is none.
    pub fn pop(&mut self) -> (r: Option<T>)
        ensures
            old(self)@.len() == 0 ==> r == None::<T> && final(self)@ == old(self)@,
            old(self)@.len() > 0 ==> r == Some(old(self)@.last()) && final(self)@ == old(self)@.drop_last(),
    {
        self.items.pop()
    }
}

} // verus!
