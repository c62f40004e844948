//! The runtime's counting semaphores, which bound what may be outstanding.
//!
//! A semaphore is shared by everybody who holds permits of it, so how many are
//! free at a given moment is not known here: only what one was made with, and
//! what a permit that was granted is of.
use vstd::prelude::*;

use std::sync::Arc;
use tokio::sync::{OwnedSemaphorePermit, Semaphore, TryAcquireError};

verus! {

/// Declares `tokio::sync::Semaphore`.
#[verifier::external_type_specification]
#[verifier::external_body]
pub struct ExSemaphore(Semaphore);

/// Declares `tokio::sync::OwnedSemaphorePermit`, permits that go back to their
/// semaphore when they are dropped.
#[verifier::external_type_specification]
#[verifier::external_body]
pub struct ExOwnedSemaphorePermit(OwnedSemaphorePermit);

/// The permits that a semaphore was made with.
pub uninterp spec fn semaphore_size(semaphore: Semaphore) -> nat;

/// How many permits are held.
pub uninterp spec fn permit_count(permit: OwnedSemaphorePermit) -> nat;

/// The semaphore that the permits go back to.
pub uninterp spec fn permit_source(permit: OwnedSemaphorePermit) -> Semaphore;

/// Why permits were not granted.
#[derive(Clone, Copy, Debug, PartialEq, Eq, Structural)]
pub enum AcquireFailure {
    /// The semaphore grants no permits any more.
    Closed,
    /// Not enough permits are free.
    NoPermits,
}

/// The largest number of permits of one semaphore.
pub open spec fn permit_limit() -> usize {
    usize::MAX / 8
}

/// Reads `tokio::sync::Semaphore::MAX_PERMITS`, which is an eighth of the
/// largest `usize`, rounded down.
#[verifier::external_body]
pub(crate) fn max_permits() -> (limit: usize)
    ensures
        limit == permit_limit(),
{
    Semaphore::MAX_PERMITS
}

/// Calls `tokio::sync::Semaphore::new`, which makes a semaphore with the given
/// permits, and panics above the largest number of them.
#[verifier::external_body]
pub(crate) fn new_semaphore(permits: usize) -> (semaphore: Arc<Semaphore>)
    requires
        permits <= permit_limit(),
    ensures
        semaphore_size(*semaphore) == permits,
{
    Arc::new(Semaphore::new(permits))
}

/// Calls `tokio::sync::Semaphore::try_acquire_owned`, which grants one permit
/// if one is free at that moment. Whether one is depends on who else holds
/// permits and is left unsaid.
#[verifier::external_body]
pub(crate) fn try_acquire_one(semaphore: &Arc<Semaphore>) -> (acquired: Result<
    OwnedSemaphorePermit,
    AcquireFailure,
>)
    ensures
        acquired is Ok ==> permit_count(acquired->Ok_0) == 1,
        acquired is Ok ==> permit_source(acquired->Ok_0) == **semaphore,
{
    match Arc::clone(semaphore).try_acquire_owned() {
        Ok(permit) => Ok(permit),
        Err(TryAcquireError::Closed) => Err(AcquireFailure::Closed),
        Err(TryAcquireError::NoPermits) => Err(AcquireFailure::NoPermits),
    }
}

/// Calls `tokio::sync::Semaphore::try_acquire_many_owned`, which grants the
/// permits together if so many are free at that moment, and panics above the
/// largest number of them. Whether they are depends on who else holds permits
/// and is left unsaid.
#[verifier::external_body]
pub(crate) fn try_acquire_many(semaphore: &Arc<Semaphore>, count: u32) -> (acquired: Result<
    OwnedSemaphorePermit,
    AcquireFailure,
>)
    requires
        count <= permit_limit(),
    ensures
        acquired is Ok ==> permit_count(acquired->Ok_0) == count,
        acquired is Ok ==> permit_source(acquired->Ok_0) == **semaphore,
{
    match Arc::clone(semaphore).try_acquire_many_owned(count) {
        Ok(permit) => Ok(permit),
        Err(TryAcquireError::Closed) => Err(AcquireFailure::Closed),
        Err(TryAcquireError::NoPermits) => Err(AcquireFailure::NoPermits),
    }
}

} // verus!
