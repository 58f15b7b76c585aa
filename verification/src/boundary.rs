//! Suspense boundaries: the ancestor capability at which an instance's
//! pending suspensions are parked, reachable from any suspended instance.
//!
//! A boundary tracks the suspensions currently suspended at it.  Suspending
//! records one occurrence of the handle; resuming releases exactly one
//! occurrence, so the boundary's record counts how often each suspension is
//! held.

use vstd::prelude::*;

use crate::suspension::Suspension;

verus! {

/// One suspense boundary.
pub struct Boundary {
    /// The suspension ids currently suspended at this boundary, one entry
    /// per outstanding `suspend`, in arrival order.
    pub pending: Vec<usize>,
}

/// All suspense boundaries known to a runtime, by index.
pub struct Boundaries {
    /// The boundaries, indexed by the handle that `create` returned.
    pub list: Vec<Boundary>,
}

impl Boundaries {
    /// Whether a boundary handle points into this collection.
    pub open spec fn spec_valid(self, b: usize) -> bool {
        b < self.list@.len()
    }

    /// No boundaries yet.
    pub fn new() -> (r: Boundaries)
        ensures
            r.list@.len() == 0,
    {
        Boundaries { list: Vec::new() }
    }

    /// Installs a fresh boundary with nothing pending and returns its handle.
    pub fn create(&mut self) -> (b: usize)
        ensures
            b == old(self).list@.len(),
            final(self).list@.len() == old(self).list@.len() + 1,
            final(self).list@[b as int].pending@.len() == 0,
            forall|i: int|
                0 <= i < old(self).list@.len() ==> final(self).list@[i] == old(self).list@[i],
    {
        let b = self.list.len();
        self.list.push(Boundary { pending: Vec::new() });
        b
    }

    /// Parks one occurrence of the suspension at the boundary.
    pub fn suspend(&mut self, b: usize, s: Suspension)
        requires
            old(self).spec_valid(b),
        ensures
            final(self).list@.len() == old(self).list@.len(),
            final(self).list@[b as int].pending@ == old(self).list@[b as int].pending@.push(
                s.id,
            ),
            forall|i: int|
                0 <= i < old(self).list@.len() && i != b ==> final(self).list@[i] == old(self).list@[i],
    {
        let mut entry = self.list.remove(b);
        entry.pending.push(s.id);
        self.list.insert(b, entry);
        proof {
            assert(self.list@ =~= old(self).list@.update(b as int, self.list@[b as int]));
        }
    }

    /// Releases exactly one occurrence of the suspension from the boundary:
    /// the first one, if any is held; nothing otherwise.
    pub fn resume(&mut self, b: usize, s: Suspension)
        requires
            old(self).spec_valid(b),
        ensures
            final(self).list@.len() == old(self).list@.len(),
            final(self).list@[b as int].pending@ == old(self).list@[b as int].pending@
                .remove_value(s.id),
            forall|i: int|
                0 <= i < old(self).list@.len() && i != b ==> final(self).list@[i] == old(self).list@[i],
    {
        let mut entry = self.list.remove(b);
        let ghost orig = entry.pending@;
        let mut i: usize = 0;
        let mut found: bool = false;
        loop
            invariant_except_break
                !found,
            invariant
                entry.pending@ == orig,
                i <= orig.len(),
                forall|j: int| 0 <= j < i ==> orig[j] != s.id,
            ensures
                entry.pending@ == orig,
                found ==> i < orig.len() && orig[i as int] == s.id && (forall|j: int|
                    0 <= j < i ==> orig[j] != s.id),
                !found ==> forall|j: int| 0 <= j < orig.len() ==> orig[j] != s.id,
            decreases orig.len() - i,
        {
            if i >= entry.pending.len() {
                break;
            }
            if entry.pending[i] == s.id {
                found = true;
                break;
            }
            i = i + 1;
        }
        proof {
            orig.index_of_first_ensures(s.id);
        }
        if found {
            let _ = entry.pending.remove(i);
            proof {
                assert(orig.contains(s.id));
                let idx = orig.index_of_first(s.id).unwrap();
                assert(idx == i as int);
                assert(entry.pending@ == orig.remove_value(s.id));
            }
        } else {
            proof {
                assert(!orig.contains(s.id));
                assert(entry.pending@ == orig.remove_value(s.id));
            }
        }
        self.list.insert(b, entry);
        proof {
            assert(self.list@ =~= old(self).list@.update(b as int, self.list@[b as int]));
        }
    }

    /// How many suspension occurrences are parked at the boundary.
    pub fn pending_len(&self, b: usize) -> (r: usize)
        requires
            self.spec_valid(b),
        ensures
            r == self.list@[b as int].pending@.len(),
    {
        let entry = &self.list[b];
        entry.pending.len()
    }
}

} // verus!
