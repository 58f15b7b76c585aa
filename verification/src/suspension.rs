//! Suspensions: handles for pending asynchronous dependencies that block a
//! render, together with the registry that tracks their resolution state and
//! their one-shot notification listeners.

use vstd::prelude::*;

verus! {

/// A handle representing a pending asynchronous dependency.
///
/// Two handles are the same suspension exactly when their ids are equal:
/// equality is by identity.
#[derive(Clone, Copy, Debug, PartialEq, Eq, Structural)]
pub struct Suspension {
    /// The identity of the suspension in its registry.
    pub id: usize,
}

/// The registry's record of one suspension.
#[derive(Clone, Copy, Debug, PartialEq, Eq, Structural)]
pub struct SuspensionEntry {
    /// Whether the dependency has already resolved.
    pub resolved: bool,
    /// The single pending waiter: the component instance to notify when the
    /// suspension resolves.  Replaced wholesale when superseded; fired at
    /// most once.
    pub listener: Option<usize>,
}

/// The registry of all suspensions known to a runtime.
pub struct Suspensions {
    /// One entry per suspension, indexed by [`Suspension::id`].
    pub entries: Vec<SuspensionEntry>,
}

impl Suspensions {
    /// Whether a handle points into this registry.
    pub open spec fn spec_valid(self, s: Suspension) -> bool {
        s.id < self.entries@.len()
    }

    /// An empty registry.
    pub fn new() -> (r: Suspensions)
        ensures
            r.entries@.len() == 0,
    {
        Suspensions { entries: Vec::new() }
    }

    /// Registers a fresh, unresolved suspension with no listener.
    pub fn create(&mut self) -> (s: Suspension)
        ensures
            s.id == old(self).entries@.len(),
            final(self).entries@ == old(self).entries@.push(
                SuspensionEntry { resolved: false, listener: None },
            ),
    {
        let id = self.entries.len();
        self.entries.push(SuspensionEntry { resolved: false, listener: None });
        Suspension { id }
    }

    /// The "already resolved" query, consulted before registering a listener
    /// to close the race where the value arrives before registration ends.
    pub fn is_resolved(&self, s: Suspension) -> (r: bool)
        requires
            self.spec_valid(s),
        ensures
            r == self.entries@[s.id as int].resolved,
    {
        self.entries[s.id].resolved
    }

    /// Registers `comp` as the suspension's waiter, replacing any previous
    /// waiter wholesale.
    pub fn listen(&mut self, s: Suspension, comp: usize)
        requires
            old(self).spec_valid(s),
        ensures
            final(self).entries@ == old(self).entries@.update(
                s.id as int,
                SuspensionEntry {
                    resolved: old(self).entries@[s.id as int].resolved,
                    listener: Some(comp),
                },
            ),
    {
        let resolved = self.entries[s.id].resolved;
        self.entries.set(s.id, SuspensionEntry { resolved, listener: Some(comp) });
    }

    /// Marks the suspension resolved and takes its waiter, if any.  The
    /// waiter is cleared so that the notification fires at most once.
    pub fn resolve(&mut self, s: Suspension) -> (waiter: Option<usize>)
        requires
            old(self).spec_valid(s),
        ensures
            waiter == old(self).entries@[s.id as int].listener,
            final(self).entries@ == old(self).entries@.update(
                s.id as int,
                SuspensionEntry { resolved: true, listener: None },
            ),
    {
        let waiter = self.entries[s.id].listener;
        self.entries.set(s.id, SuspensionEntry { resolved: true, listener: None });
        waiter
    }
}

} // verus!
