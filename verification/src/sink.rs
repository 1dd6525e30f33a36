//! The collections that the combinators fill.

use std::collections::VecDeque;
use vstd::prelude::*;

verus! {

/// An ordered collection that takes values at its end.
pub trait Sink<T> {
    /// The values held, first to last.
    spec fn items(&self) -> Seq<T>;

    /// Puts `t` behind the values held.
    fn put(&mut self, t: T)
        ensures
            final(self).items() == old(self).items().push(t),
    ;
}

impl<T> Sink<T> for Vec<T> {
    open spec fn items(&self) -> Seq<T> {
        self@
    }

    fn put(&mut self, t: T) {
        self.push(t);
    }
}

impl<T> Sink<T> for VecDeque<T> {
    open spec fn items(&self) -> Seq<T> {
        self@
    }

    fn put(&mut self, t: T) {
        self.push_back(t);
    }
}

} // verus!
