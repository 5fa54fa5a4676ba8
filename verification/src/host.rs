//! The capability surface offered to rule modules.
//!
//! A module's capability surface is exactly what stands here: logging,
//! reached through opaque handles backed by the resource table. One state is
//! created per module instance and discarded when the invocation returns, so
//! nothing leaks between invocations, and a module that forgets to release a
//! logger handle leaks nothing beyond the current call.

use vstd::prelude::*;
use vstd::string::StringExecFns;

use crate::interface::Error;
use crate::interface::ErrorModel;
use crate::resource_table::ResourceKind;
use crate::resource_table::ResourceTable;
use crate::resource_table::table_has;

verus! {

/// A `log` call through this handle succeeds on this table: the handle is
/// live and names a logger.
pub open spec fn log_accepts(entries: Map<u64, ResourceKind>, handle: u64) -> bool {
    table_has(entries, handle, ResourceKind::Logger)
}

/// An internal error, as the host synthesises it for a failed capability
/// call.
pub open spec fn is_internal_error(e: ErrorModel) -> bool {
    e matches ErrorModel::EngineInternalError(_)
}

/// The per-invocation host state a module instance runs against: the
/// resource table behind its handles, and the sink that logged messages
/// surface in.
pub struct RulesEngineState {
    table: ResourceTable,
    sink: Vec<String>,
}

impl RulesEngineState {
    /// The live resource entries.
    pub closed spec fn table_model(&self) -> Map<u64, ResourceKind> {
        self.table.entries_model()
    }

    /// The lowest handle value not issued yet.
    pub closed spec fn table_fresh_bound(&self) -> u64 {
        self.table.fresh_bound()
    }

    /// The messages logged so far, in order.
    pub closed spec fn sink_model(&self) -> Seq<Seq<char>> {
        self.sink.deep_view()
    }

    pub closed spec fn wf(&self) -> bool {
        self.table.wf()
    }

    /// A fresh state: an empty table and an empty sink.
    pub fn new() -> (s: Self)
        ensures
            s.wf(),
            s.table_model() == Map::<u64, ResourceKind>::empty(),
            s.table_fresh_bound() == 0,
            s.sink_model() == Seq::<Seq<char>>::empty(),
    {
        let s = RulesEngineState { table: ResourceTable::new(), sink: Vec::new() };
        proof {
            assert(s.sink_model() =~= Seq::<Seq<char>>::empty());
        }
        s
    }

    /// Allocates a logger entry and hands its fresh handle out. Fails with
    /// an internal error only when every handle value has been issued.
    pub fn get_logger(&mut self) -> (r: Result<u64, Error>)
        requires
            old(self).wf(),
        ensures
            final(self).wf(),
            final(self).sink_model() == old(self).sink_model(),
            old(self).table_fresh_bound() < u64::MAX ==> ({
                &&& r matches Ok(h)
                &&& r->Ok_0 == old(self).table_fresh_bound()
                &&& !old(self).table_model().contains_key(r->Ok_0)
                &&& final(self).table_model() == old(self).table_model().insert(
                    r->Ok_0,
                    ResourceKind::Logger,
                )
                &&& final(self).table_fresh_bound() == old(self).table_fresh_bound() + 1
            }),
            old(self).table_fresh_bound() == u64::MAX ==> ({
                &&& r matches Err(e)
                &&& is_internal_error(r->Err_0@)
                &&& final(self).table_model() == old(self).table_model()
                &&& final(self).table_fresh_bound() == old(self).table_fresh_bound()
            }),
    {
        match self.table.allocate(ResourceKind::Logger) {
            Ok(handle) => Ok(handle),
            Err(_) => Err(Error::EngineInternalError(String::from_str("logger table exhausted"))),
        }
    }

    /// Forwards a message to the log sink, after checking that the handle is
    /// a live logger handle. A released, foreign or mismatched handle fails
    /// with an internal error and leaves the state untouched.
    pub fn log(&mut self, handle: u64, message: &str) -> (r: Result<(), Error>)
        requires
            old(self).wf(),
        ensures
            final(self).wf(),
            final(self).table_model() == old(self).table_model(),
            final(self).table_fresh_bound() == old(self).table_fresh_bound(),
            log_accepts(old(self).table_model(), handle) ==> ({
                &&& r matches Ok(())
                &&& final(self).sink_model() == old(self).sink_model().push(message@)
            }),
            !log_accepts(old(self).table_model(), handle) ==> ({
                &&& r matches Err(e)
                &&& is_internal_error(r->Err_0@)
                &&& final(self).sink_model() == old(self).sink_model()
            }),
    {
        match self.table.get(handle, ResourceKind::Logger) {
            Ok(()) => {
                let ghost old_sink = self.sink.deep_view();
                self.sink.push(String::from_str(message));
                proof {
                    assert(self.sink.deep_view() =~= old_sink.push(message@));
                }
                Ok(())
            },
            Err(_) => Err(Error::EngineInternalError(String::from_str("unknown logger handle"))),
        }
    }

    /// Releases a logger handle. Afterwards the handle is dead: logging
    /// through it fails. Releasing a handle that is not live fails with an
    /// internal error and leaves the state untouched.
    pub fn drop_logger(&mut self, handle: u64) -> (r: Result<(), Error>)
        requires
            old(self).wf(),
        ensures
            final(self).wf(),
            final(self).sink_model() == old(self).sink_model(),
            final(self).table_fresh_bound() == old(self).table_fresh_bound(),
            old(self).table_model().contains_key(handle) ==> ({
                &&& r matches Ok(())
                &&& final(self).table_model() == old(self).table_model().remove(handle)
            }),
            !old(self).table_model().contains_key(handle) ==> ({
                &&& r matches Err(e)
                &&& is_internal_error(r->Err_0@)
                &&& final(self).table_model() == old(self).table_model()
            }),
    {
        match self.table.release(handle) {
            Ok(()) => Ok(()),
            Err(_) => Err(Error::EngineInternalError(String::from_str("unknown logger handle"))),
        }
    }

    /// The messages logged so far, for the surrounding program to drain
    /// into its own structured log.
    pub fn messages(&self) -> (m: &Vec<String>)
        ensures
            m.deep_view() == self.sink_model(),
    {
        &self.sink
    }
}

/// Acquiring a logger, releasing it, and then logging through the released
/// handle must fail: the release leaves the handle dead, whatever the table
/// held before.
pub proof fn lemma_released_handle_rejected(entries: Map<u64, ResourceKind>, h: u64)
    requires
        !entries.contains_key(h),
    ensures
        !log_accepts(entries.insert(h, ResourceKind::Logger).remove(h), h),
{
}

/// A fresh invocation's table accepts no handle at all: whatever handles
/// another invocation issued, they are dead in a newly created state, so
/// invocations run in parallel against their own states cannot observe each
/// other's resource-table entries.
pub proof fn lemma_fresh_state_accepts_no_handle(h: u64)
    ensures
        !log_accepts(Map::<u64, ResourceKind>::empty(), h),
{
}

} // verus!
