//! The trusted boundary around the operating-system synchronization
//! primitives.  Everything here either declares a standard-library type
//! opaque to the verifier or wraps a single call into one of those types.
//! No channel logic lives in this module: each wrapper acquires, delegates
//! or signals, and nothing more.  The state transitions that happen while
//! the lock is held are verified functions of the crate root.

use std::sync::Arc;
use std::sync::Condvar;
use std::sync::Mutex;
use std::sync::MutexGuard;
use vstd::prelude::*;

verus! {

#[verifier::external_type_specification]
#[verifier::external_body]
#[verifier::reject_recursive_types(T)]
pub struct ExMutex<T: ?Sized>(Mutex<T>);

#[verifier::external_type_specification]
#[verifier::external_body]
pub struct ExCondvar(Condvar);

#[verifier::external_type_specification]
#[verifier::external_body]
#[verifier::reject_recursive_types(T)]
pub struct ExMutexGuard<'a, T: ?Sized + 'a>(MutexGuard<'a, T>);

/// Relies on std::sync::Mutex::new: wraps a value in a new, unlocked mutex.
#[verifier::external_body]
pub(crate) fn new_mutex<T>(value: T) -> Mutex<T>
    no_unwind
{
    Mutex::new(value)
}

/// Relies on std::sync::Condvar::new: creates a condition variable.
#[verifier::external_body]
pub(crate) fn new_condvar() -> Condvar
    no_unwind
{
    Condvar::new()
}

/// Relies on std::sync::Mutex::lock: blocks until the calling thread holds
/// the mutex, then hands out the guard.  The unwrap can only fail if the
/// lock was poisoned, which requires a panic while it was held; no code of
/// this crate that runs under the lock can panic, so the claim `no_unwind`
/// is sound for every use the crate makes of it.
#[verifier::external_body]
pub(crate) fn lock<'a, T>(m: &'a Mutex<T>) -> MutexGuard<'a, T>
    opens_invariants none
    no_unwind
{
    m.lock().unwrap()
}

/// Relies on std::sync::MutexGuard's Deref/DerefMut: the guard gives
/// exclusive access to the value stored in the mutex for as long as it is
/// held.  The value behind the returned reference is whatever the other
/// handles of the channel left there, so nothing is promised about it.
#[verifier::external_body]
pub(crate) fn guard_get<'a, 'b, T>(g: &'b mut MutexGuard<'a, T>) -> &'b mut T
    opens_invariants none
    no_unwind
{
    &mut **g
}

/// Relies on std::sync::MutexGuard's Drop: releases the mutex.
#[verifier::external_body]
pub(crate) fn unlock<'a, T>(g: MutexGuard<'a, T>)
    opens_invariants none
    no_unwind
{
    drop(g)
}

/// Relies on std::sync::Condvar::wait_while: atomically releases the mutex
/// and parks the calling thread; whenever the thread is woken it reacquires
/// the mutex, re-checks the predicate, and returns the guard only once the
/// predicate is false.  The predicate is the verified
/// [`crate::Shared::must_wait`], so on return the shared queue is non-empty
/// or no sender remains; since only the single receiver ever removes
/// queued values and the sender count never rises from zero, both
/// conditions are stable until the receiver itself acts on them.  The
/// unwrap is sound for the same reason as in [`lock`].
#[verifier::external_body]
pub(crate) fn wait_until_ready<'a, T>(
    cv: &Condvar,
    g: MutexGuard<'a, crate::Shared<T>>,
) -> MutexGuard<'a, crate::Shared<T>>
    opens_invariants none
{
    cv.wait_while(g, |s| s.must_wait()).unwrap()
}

/// Relies on std::sync::Condvar::notify_one: wakes one thread parked on
/// the condition variable, if any is parked.
#[verifier::external_body]
pub(crate) fn notify(cv: &Condvar)
    opens_invariants none
    no_unwind
{
    cv.notify_one()
}

/// Relies on std::sync::Arc::clone: the new handle refers to the very same
/// allocation, so in specifications (where an `Arc` stands for the value it
/// holds) the clone equals the original.
#[verifier::external_body]
pub(crate) fn clone_handle<T>(a: &Arc<T>) -> (r: Arc<T>)
    ensures
        r == *a,
    opens_invariants none
    no_unwind
{
    Arc::clone(a)
}

} // verus!
