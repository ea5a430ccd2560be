//! The rules that the event writer follows around its handle: what it does
//! with a lock that an earlier holder poisoned, and what it reports for a
//! write.
//!
//! The handle itself, a line-buffered pipe opened without blocking behind a
//! lock, lives with the code that opens it. That code locks and writes, and
//! asks here what to make of the outcome.

use std::sync::PoisonError;
use vstd::prelude::*;

verus! {

/// `std::sync::PoisonError`, the error of a lock whose earlier holder
/// panicked. It carries the guard of the lock; nothing inside it is visible
/// here.
#[verifier::external_type_specification]
#[verifier::external_body]
#[verifier::reject_recursive_types(T)]
pub struct ExPoisonError<T>(PoisonError<T>);

/// `std::io::Error`, carried through as it is; nothing inside it is visible
/// here.
#[verifier::external_type_specification]
#[verifier::external_body]
pub struct ExIoError(std::io::Error);

/// `PoisonError::into_inner` of std consumes the error and hands out the data
/// that it carries. It always returns; nothing more is claimed of it.
pub assume_specification<T>[ PoisonError::<T>::into_inner ](error: PoisonError<T>) -> (data: T);

/// Takes what locking the handle returned and gives the guard of the handle,
/// whether or not an earlier holder of the lock panicked.
///
/// A poisoned lock is never passed on as a failure: one broken write must not
/// silence the writer for good. The price is that a line may come out
/// incomplete.
pub fn recover<G>(locked: Result<G, PoisonError<G>>) -> (guard: G)
    ensures
        locked matches Ok(clean) ==> guard == clean,
{
    match locked {
        Ok(guard) => guard,
        Err(poisoned) => poisoned.into_inner(),
    }
}

/// What a write of `msg` reports, given how writing all of it to the handle
/// went: the length of the message where all of it was taken, and else the
/// failure itself, a full pipe among the others. Nothing is tried again.
pub fn bytes_accepted(msg: &[u8], written: Result<(), std::io::Error>) -> (accepted: Result<
    usize,
    std::io::Error,
>)
    ensures
        match written {
            Ok(_) => accepted matches Ok(count) && count == msg@.len(),
            Err(error) => accepted == Err::<usize, std::io::Error>(error),
        },
{
    match written {
        Ok(_) => Ok(msg.len()),
        Err(error) => Err(error),
    }
}

} // verus!
