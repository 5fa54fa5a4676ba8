//! The host-owned table of resources that rule modules may reference but
//! never touch directly.
//!
//! A module only ever holds an opaque integer handle; every operation goes
//! through a host-checked lookup, so a module can affect host state reachable
//! through handles it was given and nothing else. Handles are unique within
//! one table's lifetime and are never recycled: a fresh table is created per
//! module instance.

use std::collections::HashMap;
use vstd::prelude::*;

verus! {

broadcast use vstd::std_specs::hash::group_hash_axioms;

/// The kind of host object an entry holds. Lookups check the kind, so a
/// handle of one kind can never alias an object of another.
#[derive(Clone, Copy, PartialEq, Eq, Structural, Debug)]
pub enum ResourceKind {
    Logger,
}

/// How a table operation can fail.
#[derive(Clone, Copy, PartialEq, Eq, Structural, Debug)]
pub enum TableError {
    /// Every handle value has been issued already.
    Exhausted,
    /// The handle was never issued, or its entry was already released.
    NotFound,
    /// The handle is live but names an object of another kind.
    WrongKind,
}

/// A table entry is live and holds the given kind.
pub open spec fn table_has(entries: Map<u64, ResourceKind>, handle: u64, kind: ResourceKind) -> bool {
    entries.contains_key(handle) && entries[handle] == kind
}

/// Maps opaque handles to the kind of host object they denote. The objects
/// themselves (loggers) carry no state of their own, so an entry is fully
/// described by its kind.
pub struct ResourceTable {
    next_handle: u64,
    entries: HashMap<u64, ResourceKind>,
}

impl ResourceTable {
    /// The live entries, as a map from handle to kind.
    pub closed spec fn entries_model(&self) -> Map<u64, ResourceKind> {
        self.entries@
    }

    /// The lowest handle value not issued yet. Every handle ever issued is
    /// below this bound, so no released handle is ever reissued.
    pub closed spec fn fresh_bound(&self) -> u64 {
        self.next_handle
    }

    /// Every live handle was issued: it lies below the fresh bound.
    pub closed spec fn wf(&self) -> bool {
        forall|h: u64| self.entries@.contains_key(h) ==> h < self.next_handle
    }

    /// A new table: no entries, no handles issued.
    pub fn new() -> (t: Self)
        ensures
            t.wf(),
            t.entries_model() == Map::<u64, ResourceKind>::empty(),
            t.fresh_bound() == 0,
    {
        ResourceTable { next_handle: 0, entries: HashMap::new() }
    }

    /// Issues a fresh handle for a new entry of the given kind. Fails only
    /// when every handle value has been issued already.
    pub fn allocate(&mut self, kind: ResourceKind) -> (r: Result<u64, TableError>)
        requires
            old(self).wf(),
        ensures
            final(self).wf(),
            old(self).fresh_bound() < u64::MAX ==> (r matches Ok(h) && {
                &&& h == old(self).fresh_bound()
                &&& !old(self).entries_model().contains_key(h)
                &&& final(self).entries_model() == old(self).entries_model().insert(h, kind)
                &&& final(self).fresh_bound() == old(self).fresh_bound() + 1
            }),
            old(self).fresh_bound() == u64::MAX ==> (r matches Err(e) && {
                &&& e == TableError::Exhausted
                &&& final(self).entries_model() == old(self).entries_model()
                &&& final(self).fresh_bound() == old(self).fresh_bound()
            }),
    {
        if self.next_handle == u64::MAX {
            return Err(TableError::Exhausted);
        }
        let handle = self.next_handle;
        self.next_handle = self.next_handle + 1;
        self.entries.insert(handle, kind);
        Ok(handle)
    }

    /// Looks an entry up, checking that the handle is live and that its
    /// entry holds the expected kind.
    pub fn get(&self, handle: u64, kind: ResourceKind) -> (r: Result<(), TableError>)
        ensures
            r matches Ok(()) <==> table_has(self.entries_model(), handle, kind),
            r matches Err(e) && e == TableError::NotFound <==> !self.entries_model().contains_key(
                handle,
            ),
            r matches Err(e) && e == TableError::WrongKind <==> self.entries_model().contains_key(
                handle,
            ) && self.entries_model()[handle] != kind,
    {
        match self.entries.get(&handle) {
            Some(k) => {
                if *k == kind {
                    Ok(())
                } else {
                    Err(TableError::WrongKind)
                }
            },
            None => Err(TableError::NotFound),
        }
    }

    /// Releases a live entry. Afterwards the handle is dead: further lookups
    /// and releases of it fail, and the handle is never reissued.
    pub fn release(&mut self, handle: u64) -> (r: Result<(), TableError>)
        requires
            old(self).wf(),
        ensures
            final(self).wf(),
            final(self).fresh_bound() == old(self).fresh_bound(),
            old(self).entries_model().contains_key(handle) ==> (r matches Ok(()) && final(self)
                .entries_model() == old(self).entries_model().remove(handle)),
            !old(self).entries_model().contains_key(handle) ==> (r matches Err(e) && e
                == TableError::NotFound && final(self).entries_model() == old(self).entries_model()),
    {
        match self.entries.remove(&handle) {
            Some(_) => Ok(()),
            None => Err(TableError::NotFound),
        }
    }
}

/// A handle observed in the table now was issued before: it lies below the
/// fresh bound, so the next handle issued cannot collide with it.
pub proof fn lemma_live_handles_below_fresh_bound(t: &ResourceTable, h: u64)
    requires
        t.wf(),
        t.entries_model().contains_key(h),
    ensures
        h < t.fresh_bound(),
{
}

} // verus!
