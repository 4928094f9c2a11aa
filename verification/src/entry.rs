//! Entries from C into Rust.
//!
//! A depth is stored on the thread state itself. Each entry stores it increased
//! by one and puts the previous one back when it ends. Only the outermost entry
//! may detach.

use vstd::prelude::*;

verus! {

/// Whether an entry at this depth is the outermost one.
pub open spec fn outermost(depth: int) -> bool {
    depth == 1
}

/// One entry on a thread state, from its start to its end.
#[derive(Debug)]
pub struct RustEntryGuard {
    previous: usize,
}

impl RustEntryGuard {
    #[verifier::type_invariant]
    spec fn counted(self) -> bool {
        self.previous < usize::MAX
    }

    /// The depth that the entry found.
    pub closed spec fn found(&self) -> usize {
        self.previous
    }

    /// Enter, where the thread state holds the depth `stored`. Not entered where
    /// it cannot be counted.
    pub fn enter(stored: usize) -> (r: Option<RustEntryGuard>)
        ensures
            match r {
                Some(g) => stored < usize::MAX && g.found() == stored,
                None => stored == usize::MAX,
            },
    {
        if stored < usize::MAX {
            Some(RustEntryGuard { previous: stored })
        } else {
            None
        }
    }

    /// The depth to store for as long as the entry lasts.
    pub fn depth(&self) -> (r: usize)
        ensures
            r == self.found() + 1,
    {
        proof {
            use_type_invariant(self);
        }
        self.previous + 1
    }

    /// Whether this is the outermost entry.
    pub fn is_outermost(&self) -> (r: bool)
        ensures
            r == outermost(self.found() + 1),
    {
        self.previous == 0
    }

    /// The depth to put back when the entry ends.
    pub fn leave(&self) -> (r: usize)
        ensures
            r == self.found(),
    {
        self.previous
    }
}

/// An entry is the outermost one exactly if it found no other, so an entry made
/// during another is not.
pub proof fn law_only_outermost(outer: RustEntryGuard, inner: RustEntryGuard)
    requires
        inner.found() == outer.found() + 1,
    ensures
        outermost(outer.found() + 1) <==> outer.found() == 0,
        !outermost(inner.found() + 1),
{
}

} // verus!
