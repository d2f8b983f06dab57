//! The identifiers that are spoken for: drawn in this run and not given back.

use std::collections::HashSet;
use vstd::prelude::*;

verus! {

broadcast use vstd::std_specs::hash::group_hash_axioms;

/// The set of identifiers that were drawn and have not been released. It
/// lives in memory only and is empty at the start of every run.
pub struct AttemptedSet {
    ids: HashSet<u32>,
}

impl View for AttemptedSet {
    type V = Set<u32>;

    closed spec fn view(&self) -> Set<u32> {
        self.ids@
    }
}

impl AttemptedSet {
    /// The set holds finitely many identifiers.
    pub open spec fn wf(&self) -> bool {
        self@.finite()
    }

    /// The empty set.
    pub fn new() -> (set: AttemptedSet)
        ensures
            set@ == Set::<u32>::empty(),
            set.wf(),
    {
        AttemptedSet { ids: HashSet::new() }
    }

    /// Tells whether `id` is spoken for.
    pub fn contains(&self, id: u32) -> (held: bool)
        ensures
            held == self@.contains(id),
    {
        self.ids.contains(&id)
    }

    /// Number of identifiers that are spoken for.
    pub fn len(&self) -> (n: usize)
        ensures
            n == self@.len(),
    {
        self.ids.len()
    }

    /// Marks `id` as spoken for and tells whether it was free before.
    pub fn mark(&mut self, id: u32) -> (fresh: bool)
        requires
            old(self).wf(),
        ensures
            final(self).wf(),
            final(self)@ == old(self)@.insert(id),
            fresh == !old(self)@.contains(id),
    {
        self.ids.insert(id)
    }

    /// Gives `id` back and tells whether it was spoken for.
    pub fn release(&mut self, id: u32) -> (held: bool)
        requires
            old(self).wf(),
        ensures
            final(self).wf(),
            final(self)@ == old(self)@.remove(id),
            held == old(self)@.contains(id),
    {
        self.ids.remove(&id)
    }
}

} // verus!
