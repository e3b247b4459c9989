//! The standard library's mutex and shared pointer, as the workers use
//! them to reach the one channel table of their process.
//!
//! What a thread finds behind the lock is whatever the last holder left
//! there, so nothing is promised of it. The one thing stated is that the
//! copy of a shared pointer is that pointer.

use std::sync::{Arc, Mutex, MutexGuard, PoisonError};
use vstd::prelude::*;

verus! {

/// `std::sync::Mutex`, opaque here.
#[verifier::external_type_specification]
#[verifier::external_body]
#[verifier::reject_recursive_types(T)]
pub struct ExMutex<T: ?Sized>(Mutex<T>);

/// `std::sync::MutexGuard`: a held lock, opaque here.
#[verifier::external_type_specification]
#[verifier::external_body]
#[verifier::reject_recursive_types(T)]
pub struct ExMutexGuard<'a, T: ?Sized + 'a>(MutexGuard<'a, T>);

/// `std::sync::PoisonError`: a lock whose holder panicked.
#[verifier::external_type_specification]
#[verifier::external_body]
#[verifier::reject_recursive_types(T)]
pub struct ExPoisonError<T>(PoisonError<T>);

/// `Mutex::new`: an unlocked mutex that holds `t`.
pub assume_specification<T>[ Mutex::<T>::new ](t: T) -> (mutex: Mutex<T>);

/// `Mutex::lock`: waits for the lock. It fails when a holder of the lock
/// panicked.
pub assume_specification<'a, T: ?Sized>[ Mutex::<T>::lock ](mutex: &'a Mutex<T>) -> (guard: Result<
    MutexGuard<'a, T>,
    PoisonError<MutexGuard<'a, T>>,
>);

/// `MutexGuard::deref_mut`: the value that the held lock protects.
#[verifier::external_body]
pub(crate) fn guarded<'a, 'b, T>(guard: &'a mut MutexGuard<'b, T>) -> (value: &'a mut T) {
    &mut **guard
}

/// `MutexGuard::deref`: the value that the held lock protects.
#[verifier::external_body]
pub(crate) fn peek<'a, 'b, T>(guard: &'a MutexGuard<'b, T>) -> (value: &'a T) {
    &**guard
}

/// `Arc::clone`: one more pointer to the same mutex. The copy is taken to
/// be the pointer it was made from, as both lead to the one mutex.
#[verifier::external_body]
pub(crate) fn share<T>(shared: &Arc<Mutex<T>>) -> (copy: Arc<Mutex<T>>)
    ensures
        copy == *shared,
{
    Arc::clone(shared)
}

} // verus!
