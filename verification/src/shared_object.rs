//! A shareable value of any type.
use crate::backing::share;
use crate::backing::snapshot_locked;
use crate::backing::write_locked;
use crate::lineage::Sharing;
use std::sync::Arc;
use std::sync::Mutex;
use vstd::prelude::*;

verus! {

/// How the value is held.
#[verifier::reject_recursive_types(T)]
enum Data<T> {
    /// There is only one handle to the value: it owns the current snapshot.
    Single(Arc<T>),
    /// There are, or there were, several handles to the value: a mutex
    /// guards which snapshot is the current one.
    Multiple(Arc<Mutex<Arc<T>>>),
}

/// Shareable cell for a value of any type.
///
/// The value is kept as an immutable, reference-counted snapshot. A write
/// replaces the whole snapshot and never changes one in place, so a snapshot
/// that a reader holds stays what it was. From the first duplication on, the
/// handles of the lineage share a mutex that guards only which snapshot is
/// current; it is not held while a reader looks at the value.
#[verifier::reject_recursive_types(T)]
pub struct SharedObject<T> {
    data: Data<T>,
}

impl<T> View for SharedObject<T> {
    type V = Sharing<T, Arc<Mutex<Arc<T>>>>;

    closed spec fn view(&self) -> Self::V {
        match self.data {
            Data::Single(snapshot) => Sharing::Unshared(*snapshot),
            Data::Multiple(mem) => Sharing::Shared(mem),
        }
    }
}

impl<T> SharedObject<T> {
    /// Makes an unshared cell whose snapshot is `value`.
    pub fn new(value: T) -> (cell: SharedObject<T>)
        ensures
            cell@ == Sharing::<T, Arc<Mutex<Arc<T>>>>::Unshared(value),
    {
        SharedObject { data: Data::Single(Arc::new(value)) }
    }

    /// Whether the cell has been promoted to shared storage.
    pub fn is_shared(&self) -> (shared: bool)
        ensures
            shared == self@.is_shared(),
    {
        match &self.data {
            Data::Single(_) => false,
            Data::Multiple(_) => true,
        }
    }

    /// Makes `val` the current snapshot: in place on an unshared cell, under
    /// the lock of the shared backing otherwise. Snapshots handed out before
    /// are not touched. The representation never changes.
    pub fn set(&mut self, val: T)
        ensures
            final(self)@ == old(self)@.after_set(val),
    {
        let snapshot = Arc::new(val);
        match &self.data {
            Data::Single(_) => {
                self.data = Data::Single(snapshot);
            },
            Data::Multiple(mem) => {
                write_locked(mem, snapshot);
            },
        }
    }

    /// Gives a counted reference to the current snapshot. An unshared cell
    /// gives the snapshot it owns. A shared cell gives the one that was
    /// current while the lock was held.
    pub fn get(&self) -> (snapshot: Arc<T>)
        ensures
            self@.local() matches Some(v) ==> *snapshot == v,
    {
        match &self.data {
            Data::Single(val) => share(val),
            Data::Multiple(mem) => snapshot_locked(mem),
        }
    }

    /// Makes a second handle to the value. An unshared receiver is promoted:
    /// its snapshot is put behind a mutex, and the receiver and the new
    /// handle both refer to that backing. A shared receiver is left as it
    /// is, and the new handle refers to its backing.
    pub fn dup(&mut self) -> (twin: SharedObject<T>)
        ensures
            old(self)@.duplicates_to(final(self)@, twin@),
    {
        let data = match &self.data {
            Data::Multiple(mem) => {
                return SharedObject { data: Data::Multiple(share(mem)) };
            },
            Data::Single(val) => Arc::new(Mutex::new(share(val))),
        };
        self.data = Data::Multiple(share(&data));
        SharedObject { data: Data::Multiple(data) }
    }
}

} // verus!
