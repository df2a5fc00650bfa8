//! The shared handle: one native object, many owners, one lock.
//!
//! A native status-bar object must never be touched by two threads at once. `SafeId`
//! keeps the object's address next to a mutex that every clone shares, and hands the
//! address out only to an operation that runs while the mutex is held.

use crate::error::Error;
use std::sync::Arc;
use std::sync::Mutex;
use std::sync::MutexGuard;
use vstd::prelude::*;

verus! {

#[verifier::external_type_specification]
#[verifier::external_body]
#[verifier::reject_recursive_types(T)]
pub struct ExMutex<T: ?Sized>(Mutex<T>);

#[verifier::external_type_specification]
#[verifier::external_body]
#[verifier::reject_recursive_types(T)]
pub struct ExMutexGuard<'a, T: ?Sized + 'a>(MutexGuard<'a, T>);

/// Trusted: `Mutex::new`. The mutex that comes back protects `value`; nothing is
/// claimed of it, because what a mutex protects can change behind any reference to it.
#[verifier::external_body]
pub(crate) fn new_mutex<T>(value: T) -> (m: Mutex<T>) {
    Mutex::new(value)
}

/// Trusted: `Mutex::lock`. Blocks until the calling thread holds the mutex, which stays
/// held until the guard is dropped. `None` stands for the error that std reports when an
/// earlier holder panicked while holding it. Which of the two comes back depends on what
/// other threads did, so nothing is claimed of it. A thread that already holds the mutex
/// must not call this: std then blocks for ever or panics.
#[verifier::external_body]
pub(crate) fn acquire<'a, T>(m: &'a Mutex<T>) -> (g: Option<MutexGuard<'a, T>>) {
    m.lock().ok()
}

/// Trusted: `Arc::clone`. The result points to the allocation that `a` points to.
#[verifier::external_body]
pub(crate) fn share<T>(a: &Arc<T>) -> (r: Arc<T>)
    ensures
        r == *a,
{
    Arc::clone(a)
}

/// The address of a native object, shared between threads behind one lock.
///
/// The object belongs to the operating system: a `SafeId` neither creates nor frees it.
#[derive(Debug)]
pub struct SafeId {
    handle: usize,
    lock: Arc<Mutex<()>>,
}

impl SafeId {
    /// The address of the native object.
    pub closed spec fn handle(&self) -> usize {
        self.handle
    }

    /// Whether the two serialise access through one and the same lock.
    pub closed spec fn shares_lock_with(&self, other: &SafeId) -> bool {
        self.lock == other.lock
    }

    /// Wraps the address of a native object behind a fresh lock.
    pub fn new(handle: usize) -> (s: SafeId)
        ensures
            s.handle() == handle,
    {
        SafeId { handle, lock: Arc::new(new_mutex(())) }
    }

    /// Runs `operation` on the native object's address while holding the lock, and
    /// releases the lock when the operation has returned, whatever it returned.
    ///
    /// The operation runs at most once, and only with the lock held. Where an earlier
    /// holder ended abnormally while holding the lock, the operation does not run and
    /// the call fails with `Error::PoisonError`; it is not tried again.
    ///
    /// The call waits, without limit, for as long as another holder keeps the lock. An
    /// operation must therefore not lock the same object again: it would wait for
    /// itself.
    pub fn with_lock<R, F: FnOnce(usize) -> R>(&self, operation: F) -> (r: Result<R, Error>)
        requires
            operation.requires((self.handle(),)),
        ensures
            r matches Ok(value) ==> operation.ensures((self.handle(),), value),
            r matches Err(e) ==> e == Error::PoisonError,
    {
        self.under(self.hold(), operation)
    }

    /// Waits for the lock and takes it. `None` tells that an earlier holder ended
    /// abnormally while holding it; the lock is then not held by the caller.
    pub(crate) fn hold<'a>(&'a self) -> (held: Option<MutexGuard<'a, ()>>) {
        acquire(&self.lock)
    }

    /// Runs `operation` on the native object's address under a lock that was taken
    /// before, `held`, and releases that lock when the operation has returned.
    ///
    /// With the lock in hand the operation runs, once, and its result is returned.
    /// With `None`, which stands for a poisoned lock, the operation does not run and
    /// the call fails with `Error::PoisonError`.
    pub fn under<'a, R, F: FnOnce(usize) -> R>(
        &self,
        held: Option<MutexGuard<'a, ()>>,
        operation: F,
    ) -> (r: Result<R, Error>)
        requires
            operation.requires((self.handle(),)),
        ensures
            held is Some ==> (r matches Ok(value) && operation.ensures((self.handle(),), value)),
            held is None ==> (r matches Err(e) && e == Error::PoisonError),
    {
        match held {
            Some(_lock) => {
                let value = operation(self.handle);
                Ok(value)
            },
            None => Err(Error::PoisonError),
        }
    }
}

impl Clone for SafeId {
    /// Another handle to the same native object, behind the same lock. No native object
    /// is created.
    fn clone(&self) -> (s: SafeId)
        ensures
            s.handle() == self.handle(),
            s.shares_lock_with(self),
    {
        SafeId { handle: self.handle, lock: share(&self.lock) }
    }
}

} // verus!
