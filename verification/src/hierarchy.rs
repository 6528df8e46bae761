//! Ordered teardown of the resource hierarchy.
//!
//! Handles form a strict ownership chain — an engine instance owns its
//! sessions, a session its database attachments, a database its table
//! cursors — and the engine requires teardown in exact reverse order of
//! acquisition.  This module guarantees that ordering structurally, not by
//! convention: acquisitions are recorded in one log whose well-formedness
//! puts every owner before what it owns, and the release plan is computed
//! from the log alone, as its exact reverse.  However the caller drops its
//! own references, a release that follows the plan closes every resource
//! before the resource it was acquired under.

use vstd::prelude::*;

verus! {

/// The kind of an acquired resource.
#[derive(Clone, Copy, Debug, PartialEq, Eq, Structural)]
pub enum ResourceKind {
    EngineInstance,
    Session,
    Database,
    TableCursor,
}

/// The kind of resource a resource of the given kind is acquired under,
/// if any: the ownership chain.
pub open spec fn spec_parent_kind(k: ResourceKind) -> Option<ResourceKind> {
    match k {
        ResourceKind::EngineInstance => None,
        ResourceKind::Session => Some(ResourceKind::EngineInstance),
        ResourceKind::Database => Some(ResourceKind::Session),
        ResourceKind::TableCursor => Some(ResourceKind::Database),
    }
}

/// One recorded acquisition: what was acquired, the engine handle it got,
/// and the log position of the resource it was acquired under.
#[derive(Clone, Copy, Debug)]
pub struct Acquisition {
    pub kind: ResourceKind,
    pub id: u64,
    pub parent: Option<usize>,
}

/// The acquisition log: every open resource, in acquisition order.
#[derive(Debug)]
pub struct ResourceLog {
    entries: Vec<Acquisition>,
}

impl ResourceLog {
    /// The recorded acquisitions, as a specification value.
    pub closed spec fn spec_entries(&self) -> Seq<Acquisition> {
        self.entries@
    }

    /// Well-formedness: every entry's parent stands earlier in the log and
    /// is of the owning kind, and a root entry is an engine instance.
    pub open spec fn wf(&self) -> bool {
        forall|i: int|
            0 <= i < self.spec_entries().len() ==> {
                let e = #[trigger] self.spec_entries()[i];
                match e.parent {
                    None => e.kind == ResourceKind::EngineInstance,
                    Some(p) => {
                        &&& p < i
                        &&& Some(self.spec_entries()[p as int].kind) == spec_parent_kind(e.kind)
                    },
                }
            }
    }

    /// An empty log.
    pub fn new() -> (r: ResourceLog)
        ensures
            r.spec_entries().len() == 0,
            r.wf(),
    {
        ResourceLog { entries: Vec::new() }
    }

    /// Number of recorded acquisitions.
    pub fn len(&self) -> (r: usize)
        ensures
            r == self.spec_entries().len(),
    {
        self.entries.len()
    }

    /// Record the acquisition of an engine instance; its log position is
    /// returned for recording the sessions acquired under it.
    pub fn record_instance(&mut self, id: u64) -> (idx: usize)
        requires
            old(self).wf(),
        ensures
            final(self).wf(),
            final(self).spec_entries() == old(self).spec_entries().push(
                Acquisition { kind: ResourceKind::EngineInstance, id, parent: None },
            ),
            idx == old(self).spec_entries().len(),
    {
        let idx = self.entries.len();
        self.entries.push(Acquisition { kind: ResourceKind::EngineInstance, id, parent: None });
        idx
    }

    /// Record one acquisition under the resource at log position
    /// `parent`, whose kind must be the owner's kind for the new entry.
    fn record_child(&mut self, kind: ResourceKind, id: u64, parent: usize) -> (idx: usize)
        requires
            old(self).wf(),
            parent < old(self).spec_entries().len(),
            Some(old(self).spec_entries()[parent as int].kind) == spec_parent_kind(kind),
        ensures
            final(self).wf(),
            final(self).spec_entries() == old(self).spec_entries().push(
                Acquisition { kind, id, parent: Some(parent) },
            ),
            idx == old(self).spec_entries().len(),
    {
        let idx = self.entries.len();
        self.entries.push(Acquisition { kind, id, parent: Some(parent) });
        idx
    }

    /// Record a session acquired under the instance at `parent`.
    pub fn record_session(&mut self, id: u64, parent: usize) -> (idx: usize)
        requires
            old(self).wf(),
            parent < old(self).spec_entries().len(),
            old(self).spec_entries()[parent as int].kind == ResourceKind::EngineInstance,
        ensures
            final(self).wf(),
            final(self).spec_entries() == old(self).spec_entries().push(
                Acquisition { kind: ResourceKind::Session, id, parent: Some(parent) },
            ),
            idx == old(self).spec_entries().len(),
    {
        self.record_child(ResourceKind::Session, id, parent)
    }

    /// Record a database acquired under the session at `parent`.
    pub fn record_database(&mut self, id: u64, parent: usize) -> (idx: usize)
        requires
            old(self).wf(),
            parent < old(self).spec_entries().len(),
            old(self).spec_entries()[parent as int].kind == ResourceKind::Session,
        ensures
            final(self).wf(),
            final(self).spec_entries() == old(self).spec_entries().push(
                Acquisition { kind: ResourceKind::Database, id, parent: Some(parent) },
            ),
            idx == old(self).spec_entries().len(),
    {
        self.record_child(ResourceKind::Database, id, parent)
    }

    /// Record a table cursor acquired under the database at `parent`.
    pub fn record_cursor(&mut self, id: u64, parent: usize) -> (idx: usize)
        requires
            old(self).wf(),
            parent < old(self).spec_entries().len(),
            old(self).spec_entries()[parent as int].kind == ResourceKind::Database,
        ensures
            final(self).wf(),
            final(self).spec_entries() == old(self).spec_entries().push(
                Acquisition { kind: ResourceKind::TableCursor, id, parent: Some(parent) },
            ),
            idx == old(self).spec_entries().len(),
    {
        self.record_child(ResourceKind::TableCursor, id, parent)
    }

    /// The release plan: the recorded acquisitions in exact reverse
    /// acquisition order.  It is computed from the log alone, so the
    /// order in which the caller dropped its own references cannot change
    /// it.
    pub fn release_plan(&self) -> (r: Vec<Acquisition>)
        ensures
            r@ == self.spec_entries().reverse(),
    {
        let n = self.entries.len();
        let mut r: Vec<Acquisition> = Vec::new();
        let mut i: usize = 0;
        while i < n
            invariant
                i <= n,
                n == self.spec_entries().len(),
                r@.len() == i,
                forall|j: int| 0 <= j < i ==> r@[j] == self.spec_entries()[n - 1 - j],
            decreases n - i,
        {
            r.push(self.entries[n - 1 - i]);
            i = i + 1;
        }
        proof {
            assert(r@ =~= self.spec_entries().reverse());
        }
        r
    }
}

/// In the release plan, the resource recorded at log position `i` stands
/// strictly before the resource at position `p` it was acquired under,
/// and both keep their identity.
pub open spec fn spec_released_before_owner(log: &ResourceLog, i: int, p: int) -> bool {
    let n = log.spec_entries().len() as int;
    let plan = log.spec_entries().reverse();
    &&& n - 1 - i < n - 1 - p
    &&& plan[n - 1 - i] == log.spec_entries()[i]
    &&& plan[n - 1 - p] == log.spec_entries()[p]
}

/// Release in reverse acquisition order is release in ownership order: in
/// the release plan of a well-formed log, every resource stands strictly
/// before the resource it was acquired under, so each cursor is closed
/// before its database, each database before its session, and each
/// session before its instance.
pub proof fn lemma_release_closes_children_first(log: &ResourceLog)
    requires
        log.wf(),
    ensures
        forall|i: int|
            0 <= i < log.spec_entries().len() ==> (#[trigger] log.spec_entries()[i].parent matches
                Some(p) ==> spec_released_before_owner(log, i, p as int)),
{
    let n = log.spec_entries().len() as int;
    assert forall|i: int| 0 <= i < n implies (#[trigger] log.spec_entries()[i].parent matches Some(
        p,
    ) ==> spec_released_before_owner(log, i, p as int)) by {
        assert(log.spec_entries()[i].parent matches Some(q) ==> q < i);
    }
}

} // verus!
