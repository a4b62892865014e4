//! What the library takes on trust about `std::sync`: a lock, its guard, and
//! the shared pointer that holds the lock.

use std::ops::DerefMut;
use std::sync::{Arc, Mutex, MutexGuard, PoisonError};
use vstd::prelude::*;

verus! {

/// `std::sync::Mutex`, carried as an opaque value. What it protects is not
/// part of that value: it changes behind a shared reference.
#[verifier::external_type_specification]
#[verifier::external_body]
#[verifier::reject_recursive_types(T)]
pub struct ExMutex<T: ?Sized>(Mutex<T>);

/// `std::sync::MutexGuard`: the lock is held for as long as the guard lives.
#[verifier::external_type_specification]
#[verifier::external_body]
#[verifier::reject_recursive_types(T)]
pub struct ExMutexGuard<'a, T: ?Sized + 'a>(MutexGuard<'a, T>);

/// `std::sync::PoisonError`: what `lock` returns after a thread has panicked
/// with the lock held. It still carries the guard.
#[verifier::external_type_specification]
#[verifier::external_body]
#[verifier::reject_recursive_types(T)]
pub struct ExPoisonError<T>(PoisonError<T>);

/// `Mutex::new`: a lock around `t`. Nothing is claimed of the result.
pub assume_specification<T>[ Mutex::<T>::new ](t: T) -> (m: Mutex<T>);

/// `Mutex::lock`: blocks until the lock is free. Nothing is claimed of the
/// result, neither which variant comes back nor what the guard protects.
pub assume_specification<'a, T: ?Sized>[ Mutex::<T>::lock ](m: &'a Mutex<T>) -> (r: Result<MutexGuard<'a, T>, PoisonError<MutexGuard<'a, T>>>);

/// `PoisonError::into_inner`: the guard that the error carries.
pub assume_specification<T>[ PoisonError::<T>::into_inner ](e: PoisonError<T>) -> (t: T);

/// Calls `Arc::clone`, which makes one more pointer to the same allocation:
/// the result is the value that `a` is.
#[verifier::external_body]
pub(crate) fn share<T>(a: &Arc<T>) -> (r: Arc<T>)
    ensures
        r == *a,
{
    Arc::clone(a)
}

/// Calls `MutexGuard::deref_mut`: mutable access to what the guard protects.
/// The value found there is whatever the last holder of the lock left, so
/// nothing is claimed of it.
#[verifier::external_body]
pub(crate) fn guarded<'a, 'b, T>(guard: &'a mut MutexGuard<'b, T>) -> (r: &'a mut T) {
    guard.deref_mut()
}

/// The guard of `m`, whether or not an earlier holder of the lock panicked.
/// Poisoning is no error here: what is done under the lock is verified for
/// every value that an earlier holder may have left. A guard is an opaque
/// value, so there is nothing to state of the one that comes back.
pub(crate) fn acquire<'a, T>(m: &'a Mutex<T>) -> (guard: MutexGuard<'a, T>) {
    match m.lock() {
        Ok(guard) => guard,
        Err(poisoned) => poisoned.into_inner(),
    }
}

} // verus!
