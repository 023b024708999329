//! Locking that carries on after a panic in another thread.

use std::sync::{LockResult, Mutex, MutexGuard, PoisonError, TryLockError, TryLockResult};
use vstd::prelude::*;

verus! {

#[verifier::external_type_specification]
#[verifier::external_body]
#[verifier::reject_recursive_types(T)]
pub struct ExMutex<T: ?Sized>(std::sync::Mutex<T>);

#[verifier::external_type_specification]
#[verifier::external_body]
#[verifier::reject_recursive_types(T)]
pub struct ExMutexGuard<'a, T: ?Sized + 'a>(std::sync::MutexGuard<'a, T>);

#[verifier::external_type_specification]
#[verifier::external_body]
#[verifier::reject_recursive_types(T)]
pub struct ExPoisonError<T>(std::sync::PoisonError<T>);

#[verifier::external_type_specification]
#[verifier::reject_recursive_types(T)]
pub struct ExTryLockError<T>(std::sync::TryLockError<T>);

/// `Mutex::lock` of the standard library waits until no other thread has the lock, and takes it. A
/// thread must not lock what it already has.
///
/// Nothing is claimed of the outcome: whether the mutex is poisoned rests with the other threads.
pub assume_specification<T: ?Sized>[ std::sync::Mutex::lock ](mutex: &Mutex<T>) -> (outcome:
    LockResult<MutexGuard<'_, T>>);

/// `Mutex::try_lock` of the standard library takes the lock if no thread has it, without waiting.
///
/// Nothing is claimed of the outcome: whether the lock is free or the mutex is poisoned rests with
/// the other threads.
pub assume_specification<T: ?Sized>[ std::sync::Mutex::try_lock ](mutex: &Mutex<T>) -> (outcome:
    TryLockResult<MutexGuard<'_, T>>);

/// `PoisonError::into_inner` of the standard library hands out what the error carries, here the
/// guard.
///
/// Nothing more is claimed of it: the error is opaque, so there is nothing to compare the result
/// with.
pub assume_specification<T>[ std::sync::PoisonError::into_inner ](error: PoisonError<T>) -> (inner:
    T);

/// What came of locking.
pub enum Locked<G> {
    Held(G),
    /// The lock is held, but a thread panicked while it had it.
    Poisoned(G),
}

/// What came of trying to lock.
pub enum TryLocked<G> {
    Held(G),
    /// The lock is held, but a thread panicked while it had it.
    Poisoned(G),
    /// Another thread has the lock.
    WouldBlock,
}

/// The outcome is one that `Mutex::lock` gives on this mutex. A poisoned guard is the one that the
/// error carries.
pub open spec fn comes_of_locking<T>(mutex: &Mutex<T>, outcome: Locked<MutexGuard<'_, T>>) -> bool {
    match outcome {
        Locked::Held(guard) => call_ensures(
            Mutex::<T>::lock,
            (mutex,),
            Ok::<_, PoisonError<MutexGuard<'_, T>>>(guard),
        ),
        Locked::Poisoned(guard) => exists|error: PoisonError<MutexGuard<'_, T>>|
            #[trigger] call_ensures(
                Mutex::<T>::lock,
                (mutex,),
                Err::<MutexGuard<'_, T>, _>(error),
            ) && call_ensures(
                PoisonError::<MutexGuard<'_, T>>::into_inner,
                (error,),
                guard,
            ),
    }
}

/// The outcome is one that `Mutex::try_lock` gives on this mutex. A poisoned guard is the one that
/// the error carries.
pub open spec fn comes_of_trying<T>(
    mutex: &Mutex<T>,
    outcome: TryLocked<MutexGuard<'_, T>>,
) -> bool {
    match outcome {
        TryLocked::Held(guard) => call_ensures(
            Mutex::<T>::try_lock,
            (mutex,),
            Ok::<_, TryLockError<MutexGuard<'_, T>>>(guard),
        ),
        TryLocked::Poisoned(guard) => exists|error: PoisonError<MutexGuard<'_, T>>|
            #[trigger] call_ensures(
                Mutex::<T>::try_lock,
                (mutex,),
                Err::<MutexGuard<'_, T>, _>(TryLockError::Poisoned(error)),
            ) && call_ensures(
                PoisonError::<MutexGuard<'_, T>>::into_inner,
                (error,),
                guard,
            ),
        TryLocked::WouldBlock => call_ensures(
            Mutex::<T>::try_lock,
            (mutex,),
            Err::<MutexGuard<'_, T>, _>(TryLockError::WouldBlock),
        ),
    }
}

/// Locks a mutex, and tells whether it is poisoned.
fn std_lock<T>(mutex: &Mutex<T>) -> (outcome: Locked<MutexGuard<'_, T>>)
    ensures
        comes_of_locking(mutex, outcome),
{
    match mutex.lock() {
        Ok(guard) => Locked::Held(guard),
        Err(error) => Locked::Poisoned(error.into_inner()),
    }
}

/// Tries to lock a mutex, and tells whether it is poisoned.
fn std_try_lock<T>(mutex: &Mutex<T>) -> (outcome: TryLocked<MutexGuard<'_, T>>)
    ensures
        comes_of_trying(mutex, outcome),
{
    match mutex.try_lock() {
        Ok(guard) => TryLocked::Held(guard),
        Err(TryLockError::Poisoned(error)) => TryLocked::Poisoned(error.into_inner()),
        Err(TryLockError::WouldBlock) => TryLocked::WouldBlock,
    }
}

/// The guard of a lock, poisoned or not.
pub fn guard_of<G>(outcome: Locked<G>) -> (guard: G)
    ensures
        guard == (match outcome {
            Locked::Held(guard) => guard,
            Locked::Poisoned(guard) => guard,
        }),
{
    match outcome {
        Locked::Held(guard) => guard,
        Locked::Poisoned(guard) => guard,
    }
}

/// The guard of a lock, poisoned or not; nothing where another thread has it.
pub fn guard_if_free<G>(outcome: TryLocked<G>) -> (guard: Option<G>)
    ensures
        guard == (match outcome {
            TryLocked::Held(guard) => Some(guard),
            TryLocked::Poisoned(guard) => Some(guard),
            TryLocked::WouldBlock => None,
        }),
{
    match outcome {
        TryLocked::Held(guard) => Some(guard),
        TryLocked::Poisoned(guard) => Some(guard),
        TryLocked::WouldBlock => None,
    }
}

/// Locks a mutex, and carries on where it is poisoned: a panic in the audio thread is not to bring
/// the other threads down.
///
/// The guard is the one that locking this mutex gives, poisoned or not.
pub fn lock<T>(mutex: &Mutex<T>) -> (guard: MutexGuard<'_, T>)
    ensures
        comes_of_locking(mutex, Locked::Held(guard)) || comes_of_locking(
            mutex,
            Locked::Poisoned(guard),
        ),
{
    guard_of(std_lock(mutex))
}

/// Locks a mutex unless another thread has it. For whoever must not wait on an audio thread that
/// hangs.
///
/// The guard is the one that trying to lock this mutex gives, poisoned or not. There is none only
/// where trying would have had to wait.
pub fn try_lock<T>(mutex: &Mutex<T>) -> (guard: Option<MutexGuard<'_, T>>)
    ensures
        match guard {
            Some(guard) => comes_of_trying(mutex, TryLocked::Held(guard)) || comes_of_trying(
                mutex,
                TryLocked::Poisoned(guard),
            ),
            None => comes_of_trying(mutex, TryLocked::WouldBlock),
        },
        guard is None ==> call_ensures(
            Mutex::<T>::try_lock,
            (mutex,),
            Err::<MutexGuard<'_, T>, _>(TryLockError::WouldBlock),
        ),
{
    guard_if_free(std_try_lock(mutex))
}

} // verus!
