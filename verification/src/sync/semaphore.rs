//! Bounded permits shared between the runtime and the application.

use std::sync::Arc;
use tokio::sync::{OwnedSemaphorePermit, Semaphore};
use vstd::prelude::*;

verus! {

/// The permits of the runtime's semaphores.
#[verifier::external_type_specification]
#[verifier::external_body]
pub struct ExSemaphore(tokio::sync::Semaphore);

/// A claim on permits, returned to its semaphore when dropped.
#[verifier::external_type_specification]
#[verifier::external_body]
pub struct ExOwnedSemaphorePermit(tokio::sync::OwnedSemaphorePermit);

/// Largest number of permits that a semaphore may have.
pub const MAX_PERMITS: usize = usize::MAX >> 3;

/// `tokio::sync::OwnedSemaphorePermit::num_permits`: the permits that a claim
/// holds.
pub uninterp spec fn held(permit: tokio::sync::OwnedSemaphorePermit) -> nat;

/// `tokio::sync::OwnedSemaphorePermit::semaphore`: the semaphore that a claim was
/// acquired from and returns to.
pub uninterp spec fn issuer(permit: tokio::sync::OwnedSemaphorePermit) -> Arc<
    tokio::sync::Semaphore,
>;

/// The permits that a semaphore was made with.
pub uninterp spec fn limit(semaphore: Arc<tokio::sync::Semaphore>) -> nat;

/// `tokio::sync::Semaphore::new`, which panics above its permit limit. The
/// semaphore starts with exactly these permits; nothing is claimed of the permits
/// that are available later, which other claims change.
#[verifier::external_body]
pub(crate) fn new_semaphore(permits: usize) -> (r: Arc<Semaphore>)
    requires
        permits <= MAX_PERMITS,
    ensures
        limit(r) == permits,
{
    Arc::new(Semaphore::new(permits))
}

/// `tokio::sync::Semaphore::try_acquire_many_owned`, which panics above the
/// permit limit. Whether enough permits are available depends on the other
/// claims; a claim that is granted holds exactly the permits asked for, out of
/// this semaphore.
#[verifier::external_body]
fn try_acquire_many_owned(semaphore: &Arc<Semaphore>, count: u32) -> (r: Option<
    OwnedSemaphorePermit,
>)
    requires
        count <= MAX_PERMITS,
    ensures
        r matches Some(permit) ==> held(permit) == count && issuer(permit) == *semaphore,
{
    semaphore.clone().try_acquire_many_owned(count).ok()
}

/// `tokio::sync::Semaphore::try_acquire_owned`. Whether a permit is available
/// depends on the other claims; a claim that is granted holds one permit out of
/// this semaphore.
#[verifier::external_body]
fn try_acquire_owned(semaphore: &Arc<Semaphore>) -> (r: Option<OwnedSemaphorePermit>)
    ensures
        r matches Some(permit) ==> held(permit) == 1 && issuer(permit) == *semaphore,
{
    semaphore.clone().try_acquire_owned().ok()
}

/// The semaphore gave this answer when one of its permits was claimed.
pub closed spec fn slot_answered(
    semaphore: Arc<Semaphore>,
    answer: Option<OwnedSemaphorePermit>,
) -> bool {
    call_ensures(try_acquire_owned, (&semaphore,), answer)
}

/// Claims one permit without waiting; the semaphore's answer is returned.
pub fn try_claim(semaphore: &Arc<Semaphore>) -> (r: Option<OwnedSemaphorePermit>)
    ensures
        r matches Some(permit) ==> held(permit) == 1 && issuer(permit) == *semaphore,
        slot_answered(*semaphore, r),
{
    try_acquire_owned(semaphore)
}

/// The semaphore gave this answer when `count` of its permits were claimed.
pub closed spec fn answered(
    semaphore: Arc<Semaphore>,
    count: u32,
    answer: Option<OwnedSemaphorePermit>,
) -> bool {
    call_ensures(try_acquire_many_owned, (&semaphore, count), answer)
}

/// Claims `count` permits without waiting. No semaphore can ever grant more than
/// its limit; below it, the semaphore's answer is returned.
pub fn try_reserve(semaphore: &Arc<Semaphore>, count: u32) -> (r: Option<OwnedSemaphorePermit>)
    ensures
        r matches Some(permit) ==> held(permit) == count && issuer(permit) == *semaphore,
        count > MAX_PERMITS ==> r is None,
        count <= MAX_PERMITS ==> answered(*semaphore, count, r),
{
    if count as usize > MAX_PERMITS {
        None
    } else {
        try_acquire_many_owned(semaphore, count)
    }
}

} // verus!
