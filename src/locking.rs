//! The parts of `std::sync` that the channels stand on: a mutex, its guard,
//! a condition variable and a shared pointer. Verus sees none of their
//! contents; what the channels decide is made on the data inside the lock,
//! through the verified functions of `state`.
use std::sync::{Arc, Condvar, Mutex, MutexGuard, PoisonError};
use vstd::prelude::*;

verus! {

/// Declares `std::sync::Mutex`, whose contents stay hidden.
#[verifier::external_type_specification]
#[verifier::external_body]
#[verifier::reject_recursive_types(T)]
pub struct ExMutex<T: ?Sized>(Mutex<T>);

/// Declares `std::sync::MutexGuard`, the proof that the lock is held.
#[verifier::external_type_specification]
#[verifier::external_body]
#[verifier::reject_recursive_types(T)]
pub struct ExMutexGuard<'a, T: ?Sized + 'a>(MutexGuard<'a, T>);

/// Declares `std::sync::Condvar`.
#[verifier::external_type_specification]
#[verifier::external_body]
pub struct ExCondvar(Condvar);

/// Relies on `Mutex::new`: a lock holding `t`.
#[verifier::external_body]
pub(crate) fn new_mutex<S>(t: S) -> Mutex<S> {
    Mutex::new(t)
}

/// Relies on `Condvar::new`: a condition variable with no waiter.
#[verifier::external_body]
pub(crate) fn new_condvar() -> Condvar {
    Condvar::new()
}

/// Relies on `Arc::clone`: a second pointer to the same allocation.
#[verifier::external_body]
pub(crate) fn share<S>(a: &Arc<S>) -> (r: Arc<S>)
    ensures
        r == *a,
{
    Arc::clone(a)
}

/// Relies on `Mutex::lock`: blocks until the lock is held by this thread.
/// A poisoned lock is taken as it is: poisoning needs a panic while the lock
/// is held, and only the verified functions of this crate, which do not
/// panic, run under it; no function of this crate locks twice.
#[verifier::external_body]
pub(crate) fn lock<'a, S>(m: &'a Mutex<S>) -> MutexGuard<'a, S>
    opens_invariants none
    no_unwind
{
    m.lock().unwrap_or_else(PoisonError::into_inner)
}

/// Relies on `MutexGuard`'s `DerefMut`: the data under the held lock.
#[verifier::external_body]
pub(crate) fn guarded<'b, 'a, S>(g: &'b mut MutexGuard<'a, S>) -> &'b mut S
    opens_invariants none
    no_unwind
{
    &mut **g
}

/// Relies on `Condvar::wait_while`: releases the lock and blocks while
/// `blocked` holds of the data under it, re-checking on each wake-up with
/// the lock held, and returns the guard once `blocked` is false. Poisoning
/// is taken as in `lock`.
#[verifier::external_body]
pub(crate) fn wait_while<'a, S, F: FnMut(&mut S) -> bool>(
    cv: &Condvar,
    g: MutexGuard<'a, S>,
    blocked: F,
) -> MutexGuard<'a, S> {
    cv.wait_while(g, blocked).unwrap_or_else(PoisonError::into_inner)
}

/// Relies on `Condvar::notify_one`: wakes one thread waiting on `cv`, if any.
#[verifier::external_body]
pub(crate) fn notify_one(cv: &Condvar)
    opens_invariants none
    no_unwind
{
    cv.notify_one()
}

} // verus!
