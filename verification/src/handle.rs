//! Generational indices into the node pool.

use vstd::prelude::*;

verus! {

/// A generational index identifying a pool-resident entity.
///
/// A handle stays valid across unrelated pool churn and is invalidated by a
/// generation mismatch once its slot has been freed and reused.
#[derive(Clone, Copy, PartialEq, Eq, Structural, Hash, Debug)]
pub struct Handle {
    pub index: usize,
    pub generation: u64,
}

impl Handle {
    /// The handle that points at nothing: no live slot ever has generation 0.
    pub open spec fn none_spec() -> Handle {
        Handle { index: 0, generation: 0 }
    }

    /// Returns the null handle.
    pub fn none() -> (h: Handle)
        ensures
            h == Handle::none_spec(),
    {
        Handle { index: 0, generation: 0 }
    }

    /// True when the handle may point at a live slot.
    pub open spec fn is_some_spec(self) -> bool {
        self.generation >= 1
    }

    /// Executable check matching `is_some_spec`.
    pub fn is_some(&self) -> (r: bool)
        ensures
            r == self.is_some_spec(),
    {
        self.generation >= 1
    }
}

/// A single-use proof that a specific slot has been provisionally vacated.
///
/// A ticket is consumed exactly once, either by `put_back` (restoring the
/// original handle) or by `forget` (releasing the slot for reuse). It cannot
/// be cloned or constructed outside this crate.
#[derive(Debug)]
pub struct Ticket {
    index: usize,
    generation: u64,
}

impl Ticket {
    /// The slot index the ticket was issued for.
    pub closed spec fn index_spec(self) -> usize {
        self.index
    }

    /// The generation of the slot at the time it was vacated.
    pub closed spec fn generation_spec(self) -> u64 {
        self.generation
    }

    /// The handle that `put_back` will restore.
    pub open spec fn handle_spec(self) -> Handle {
        Handle { index: self.index_spec(), generation: self.generation_spec() }
    }

    /// Tickets are only issued by the pool.
    pub(crate) fn issue(index: usize, generation: u64) -> (t: Ticket)
        ensures
            t.index_spec() == index,
            t.generation_spec() == generation,
    {
        Ticket { index, generation }
    }

    /// Reads the slot index; the ticket stays usable.
    pub fn index(&self) -> (i: usize)
        ensures
            i == self.index_spec(),
    {
        self.index
    }

    /// Reads the generation; the ticket stays usable.
    pub fn generation(&self) -> (g: u64)
        ensures
            g == self.generation_spec(),
    {
        self.generation
    }
}

} // verus!
