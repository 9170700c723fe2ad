//! The consumer registry: it hands every filter an identity of its own.

use vstd::prelude::*;

verus! {

/// The next identity to hand out. The host keeps one registry and passes it
/// to every filter that it sets up.
pub struct NextQueryId(usize);

impl View for NextQueryId {
    type V = nat;

    /// The identity that the next registration gets. Every identity below
    /// it may have been handed out; none at or above it has.
    closed spec fn view(&self) -> nat {
        self.0 as nat
    }
}

impl NextQueryId {
    /// Whether `id` has been handed out.
    pub open spec fn issued(&self, id: usize) -> bool {
        id < self@
    }

    /// A registry that has handed out nothing.
    pub fn new() -> (registry: Self)
        ensures
            registry@ == 0,
            forall|id: usize| !registry.issued(id),
    {
        NextQueryId(0)
    }

    /// Whether every identity has been handed out.
    pub fn is_exhausted(&self) -> (exhausted: bool)
        ensures
            exhausted == (self@ == usize::MAX),
    {
        self.0 == usize::MAX
    }

    /// Hands out an identity that no earlier registration got, and that no
    /// later one will get.
    pub fn register(&mut self) -> (id: usize)
        requires
            old(self)@ < usize::MAX,
        ensures
            id == old(self)@,
            final(self)@ == old(self)@ + 1,
            !old(self).issued(id),
            forall|other: usize| final(self).issued(other) == (old(self).issued(other) || other == id),
    {
        let id: usize = self.0;
        self.0 = id + 1;
        id
    }
}

impl Default for NextQueryId {
    fn default() -> (registry: Self)
        ensures
            registry@ == 0,
    {
        NextQueryId(0)
    }
}

} // verus!
