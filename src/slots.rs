use vstd::prelude::*;

use std::sync::Arc;

use crate::error::AppError;
use crate::metrics::{bumped, Metrics, Outcome};

verus! {

/// `tokio::sync::Semaphore`, carried opaquely.
#[verifier::external_type_specification]
#[verifier::external_body]
pub struct ExSemaphore(tokio::sync::Semaphore);

/// `tokio::sync::OwnedSemaphorePermit`, carried opaquely.
#[verifier::external_type_specification]
#[verifier::external_body]
pub struct ExOwnedSemaphorePermit(tokio::sync::OwnedSemaphorePermit);

/// The largest pool of upload slots that can be made.
pub const MAX_UPLOAD_SLOTS: usize = usize::MAX >> 3;

/// The number of permits that a semaphore was made with.
pub uninterp spec fn semaphore_permits(s: Arc<tokio::sync::Semaphore>) -> usize;

/// Relies on `tokio::sync::Semaphore::new`: a semaphore made with exactly
/// `permits` permits; it panics above `Semaphore::MAX_PERMITS`
/// (`usize::MAX >> 3`).
#[verifier::external_body]
fn new_semaphore(permits: usize) -> (r: Arc<tokio::sync::Semaphore>)
    requires
        permits <= MAX_UPLOAD_SLOTS,
    ensures
        semaphore_permits(r) == permits,
{
    Arc::new(tokio::sync::Semaphore::new(permits))
}

/// Relies on `tokio::sync::Semaphore::try_acquire_owned`: a permit if one is
/// free at this moment, without waiting; the permit goes back when dropped.
#[verifier::external_body]
fn try_take_permit(sem: &Arc<tokio::sync::Semaphore>) -> (r: Option<
    tokio::sync::OwnedSemaphorePermit,
>) {
    Arc::clone(sem).try_acquire_owned().ok()
}

/// A fixed pool of upload slots, shared by all requests (clones share it).
#[derive(Clone)]
pub struct UploadSlots {
    sem: Arc<tokio::sync::Semaphore>,
}

/// One held upload slot; it is given back when dropped, on every exit path.
pub struct UploadPermit {
    permit: tokio::sync::OwnedSemaphorePermit,
}

impl UploadSlots {
    /// How many slots the pool was made with.
    pub closed spec fn capacity(&self) -> usize {
        semaphore_permits(self.sem)
    }

    /// A pool of `max_concurrent` slots.
    pub fn new(max_concurrent: usize) -> (r: UploadSlots)
        requires
            max_concurrent <= MAX_UPLOAD_SLOTS,
        ensures
            r.capacity() == max_concurrent,
    {
        UploadSlots { sem: new_semaphore(max_concurrent) }
    }

    /// Takes a slot if one is free right now. A request is never queued: when
    /// every slot is held the answer is `TooManyRequests` at once.
    pub fn try_acquire(&self) -> (r: Result<UploadPermit, AppError>)
        ensures
            r matches Err(e) ==> e == AppError::TooManyRequests,
    {
        match try_take_permit(&self.sem) {
            Some(permit) => Ok(UploadPermit { permit }),
            None => Err(AppError::TooManyRequests),
        }
    }

    /// The concurrency gate: takes a slot, or refuses with `TooManyRequests`
    /// and counts the request as limited; a request let through is not
    /// counted here, and the succeeded and failed counters never move.
    pub fn enter(&self, metrics: &mut Metrics) -> (r: Result<UploadPermit, AppError>)
        ensures
            final(metrics).upload_ok == old(metrics).upload_ok,
            final(metrics).upload_fail == old(metrics).upload_fail,
            r is Ok ==> final(metrics).upload_limited == old(metrics).upload_limited,
            r matches Err(e) ==> e == AppError::TooManyRequests && final(metrics).upload_limited
                == bumped(old(metrics).upload_limited),
    {
        match self.try_acquire() {
            Ok(p) => Ok(p),
            Err(e) => {
                metrics.record(Outcome::Limited);
                Err(e)
            },
        }
    }
}

} // verus!
