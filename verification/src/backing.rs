//! The storage that the handles of a promoted lineage share: an atomic
//! machine word, or a value behind a mutex.
//!
//! Nothing here says what a read of shared storage returns. Any handle of
//! the lineage, on any thread, may have written last.
use std::sync::atomic::AtomicIsize;
use std::sync::atomic::AtomicUsize;
use std::sync::atomic::Ordering;
use std::sync::Arc;
use std::sync::LockResult;
use std::sync::Mutex;
use std::sync::MutexGuard;
use std::sync::PoisonError;
use vstd::prelude::*;

verus! {

/// `std::sync::Mutex`, carried through the library as an opaque value.
#[verifier::external_type_specification]
#[verifier::external_body]
#[verifier::reject_recursive_types(T)]
pub struct ExMutex<T: ?Sized>(Mutex<T>);

/// `Mutex::new`: a mutex around `t`. Nothing is stated of the result.
pub assume_specification<T>[ Mutex::<T>::new ](t: T) -> Mutex<T>;

/// `std::sync::MutexGuard`, carried through the library as an opaque value.
#[verifier::external_type_specification]
#[verifier::external_body]
#[verifier::reject_recursive_types(T)]
pub struct ExMutexGuard<'a, T: ?Sized + 'a>(MutexGuard<'a, T>);

/// `std::sync::PoisonError`, carried through the library as an opaque value.
#[verifier::external_type_specification]
#[verifier::external_body]
#[verifier::reject_recursive_types(T)]
pub struct ExPoisonError<T>(PoisonError<T>);

/// `Mutex::lock`: waits for the lock. The guard comes back in `Ok`, or in
/// `Err` where an earlier holder failed. Nothing is stated of which.
pub assume_specification<T: ?Sized>[ Mutex::<T>::lock ](m: &Mutex<T>) -> LockResult<
    MutexGuard<'_, T>,
>;

/// `PoisonError::into_inner`: the guard that a poisoned lock still gave.
pub assume_specification<T>[ PoisonError::<T>::into_inner ](e: PoisonError<T>) -> T;

/// `Arc::clone`: one more reference to the allocation that `a` points to.
/// The result is that same shared object, not a copy of it.
#[verifier::external_body]
pub(crate) fn share<T>(a: &Arc<T>) -> (b: Arc<T>)
    ensures
        b == *a,
{
    a.clone()
}

/// `MutexGuard`'s `deref`: the guarded value, for as long as the guard is
/// borrowed. Nothing is stated of it: it is whatever was stored last.
#[verifier::external_body]
pub(crate) fn guarded<'a, 'b, T>(guard: &'a MutexGuard<'b, T>) -> &'a T {
    &**guard
}

/// `MutexGuard`'s `deref_mut`, for an assignment of `v` to the guarded value.
#[verifier::external_body]
pub(crate) fn put_guarded<T>(guard: &mut MutexGuard<'_, T>, v: T) {
    **guard = v;
}

/// Takes the lock. A lock that a failed holder left poisoned is taken all
/// the same: the guarded value is only ever replaced whole, so it is never
/// left half-written.
pub(crate) fn acquire<T>(m: &Mutex<T>) -> MutexGuard<'_, T> {
    // The wait may end in a guard or in the error of a poisoned lock:
    // which of the two is not known before it ends.
    let outcome = m.lock();
    guard_of(outcome)
}

/// Copies the guarded value out, under the lock.
pub(crate) fn read_locked<T: Copy>(m: &Mutex<T>) -> T {
    let guard = acquire(m);
    *guarded(&guard)
}

/// Takes one more reference to the guarded snapshot, under the lock. The
/// lock is released before the caller looks at the snapshot.
pub(crate) fn snapshot_locked<T>(m: &Mutex<Arc<T>>) -> Arc<T> {
    let guard = acquire(m);
    share(guarded(&guard))
}

/// Stores `v` as the guarded value, under the lock.
pub(crate) fn write_locked<T>(m: &Mutex<T>, v: T) {
    let mut guard = acquire(m);
    put_guarded(&mut guard, v);
}

/// The backing of a scalar that is as wide as the widest native word: an
/// atomic word of type `A` where the platform has one wide enough, the value
/// itself behind a mutex where it has not.
#[verifier::reject_recursive_types(V)]
pub enum ScalarBacking<A, V> {
    /// One atomic machine word that holds the value's bit pattern.
    Word(Arc<A>),
    /// The value, guarded by a mutex.
    Locked(Arc<Mutex<V>>),
}

impl<A, V> ScalarBacking<A, V> {
    /// One more reference to this backing.
    pub(crate) fn share(&self) -> (other: Self)
        ensures
            other == *self,
    {
        match self {
            ScalarBacking::Word(mem) => ScalarBacking::Word(share(mem)),
            ScalarBacking::Locked(mem) => ScalarBacking::Locked(share(mem)),
        }
    }
}

/// One atomic load of a signed word, with relaxed ordering: the word is
/// never torn, and no other ordering between threads is implied.
pub(crate) fn load_isize(mem: &Arc<AtomicIsize>) -> isize {
    mem.load(Ordering::Relaxed)
}

/// One atomic store of a signed word, with relaxed ordering.
pub(crate) fn store_isize(mem: &Arc<AtomicIsize>, w: isize) {
    mem.store(w, Ordering::Relaxed)
}

/// One atomic load of an unsigned word, with relaxed ordering.
pub(crate) fn load_usize(mem: &Arc<AtomicUsize>) -> usize {
    mem.load(Ordering::Relaxed)
}

/// One atomic store of an unsigned word, with relaxed ordering.
pub(crate) fn store_usize(mem: &Arc<AtomicUsize>, w: usize) {
    mem.store(w, Ordering::Relaxed)
}

/// The guard that a wait for a lock ended in: the guard itself where the
/// lock was sound, and the guard that the error carries where an earlier
/// holder had failed. Of the guard inside an error nothing is stated.
pub(crate) fn guard_of<'a, T>(outcome: LockResult<MutexGuard<'a, T>>) -> (guard: MutexGuard<
    'a,
    T,
>)
    ensures
        outcome matches Ok(sound) ==> guard == sound,
{
    match outcome {
        Ok(sound) => sound,
        Err(poisoned) => poisoned.into_inner(),
    }
}

} // verus!
