use vstd::prelude::*;
use vstd::rwlock::{RwLock, RwLockPredicate};
use std::sync::Arc;
use crate::parsed_packet::ParsedPacket;
use crate::table::FlowTable;

verus! {

/// Relies on std::sync::Arc::clone: a handle to the very same value.
#[verifier::external_body]
pub(crate) fn clone_arc<T>(a: &Arc<T>) -> (r: Arc<T>)
    ensures
        r == *a,
{
    Arc::clone(a)
}

/// A lock predicate that asks nothing: for shared cells whose every
/// value is welcome, such as a report path or an interval.
pub struct AnyPred;

impl<V> RwLockPredicate<V> for AnyPred {
    open spec fn inv(self, v: V) -> bool {
        true
    }
}

/// What the table's lock guards: between operations the table always has
/// distinct keys.
pub struct TableInv;

impl RwLockPredicate<FlowTable> for TableInv {
    open spec fn inv(self, t: FlowTable) -> bool {
        t.wf()
    }
}

/// A shared, lock-guarded handle on one flow table: the folding worker
/// writes through it, any number of readers snapshot through it.  Every
/// clone refers to the same table.
pub struct TableHandle {
    inner: Arc<RwLock<FlowTable, TableInv>>,
}

impl TableHandle {
    /// A handle on a fresh, empty table.
    pub fn new() -> TableHandle {
        TableHandle { inner: Arc::new(RwLock::new(FlowTable::new(), Ghost(TableInv))) }
    }

    /// A copy of the table as it stands at one instant, taken under the
    /// read lock: rows of distinct keys.
    pub fn snapshot(&self) -> (t: FlowTable)
        ensures
            t.wf(),
    {
        let handle = self.inner.acquire_read();
        let t = handle.borrow().clone();
        handle.release_read();
        t
    }

    /// Folds one record into the shared table, under the write lock.
    pub fn fold_record(&self, p: ParsedPacket) {
        let (mut t, handle) = self.inner.acquire_write();
        t.fold_record(p);
        handle.release_write(t);
    }
}

impl Clone for TableHandle {
    /// Another handle on the very same table.
    fn clone(&self) -> (r: TableHandle)
        ensures
            r == *self,
    {
        TableHandle { inner: clone_arc(&self.inner) }
    }
}

} // verus!
