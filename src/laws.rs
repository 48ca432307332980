//! Laws of the registry, stated over states that the operations' own
//! contracts relate: `follows(before, after, step, event, r)` is what each
//! operation ensures of a call that answered `r`.

use vstd::prelude::*;

use crate::pallet::{create_step, follows, revoke_step, transfer_step, Error, EventView, Pallet};
use crate::store::{AccountId, BlockNumber, ClaimRecord};

verus! {

/// After a successful `create_claim` by `a` on `k`, `k` is claimed and owned by `a`.
pub proof fn create_then_owned(
    p0: Pallet,
    p1: Pallet,
    a: AccountId,
    k: Seq<u8>,
    now: BlockNumber,
    r: Result<(), Error>,
)
    requires
        follows(p0, p1, create_step(p0.claims(), a, k, now), EventView::ClaimCreated(a, k), r),
        r is Ok,
    ensures
        p1.claims().contains_key(k),
        p1.claims()[k].owner == a,
{
}

/// Claiming the same key twice fails the second time with `DuplicateClaim`,
/// whoever the callers, and the record from the first claim stays as it was.
pub proof fn create_twice_is_duplicate(
    p0: Pallet,
    p1: Pallet,
    p2: Pallet,
    a: AccountId,
    b: AccountId,
    k: Seq<u8>,
    now1: BlockNumber,
    now2: BlockNumber,
    r1: Result<(), Error>,
    r2: Result<(), Error>,
)
    requires
        follows(p0, p1, create_step(p0.claims(), a, k, now1), EventView::ClaimCreated(a, k), r1),
        r1 is Ok,
        follows(p1, p2, create_step(p1.claims(), b, k, now2), EventView::ClaimCreated(b, k), r2),
    ensures
        r2 == Err::<(), Error>(Error::DuplicateClaim),
        p2.claims() == p1.claims(),
        p2.claims()[k] == (ClaimRecord { owner: a, registered_at: now1 }),
{
}

/// Only the owner may revoke: another identity is refused with `NotOwner`,
/// and the claim stays with its owner.
pub proof fn revoke_by_other_is_refused(
    p0: Pallet,
    p1: Pallet,
    a: AccountId,
    b: AccountId,
    k: Seq<u8>,
    r: Result<(), Error>,
)
    requires
        p0.claims().contains_key(k),
        p0.claims()[k].owner == a,
        a != b,
        follows(p0, p1, revoke_step(p0.claims(), b, k), EventView::ClaimRevoked(b, k), r),
    ensures
        r == Err::<(), Error>(Error::NotOwner),
        p1.claims() == p0.claims(),
        p1.claims().contains_key(k),
        p1.claims()[k].owner == a,
{
}

/// Revoking leaves no trace: right after it the key is not claimed, and a
/// claim on it by anyone then succeeds.
pub proof fn revoke_then_free(
    p0: Pallet,
    p1: Pallet,
    p2: Pallet,
    a: AccountId,
    c: AccountId,
    k: Seq<u8>,
    now: BlockNumber,
    r1: Result<(), Error>,
    r2: Result<(), Error>,
)
    requires
        follows(p0, p1, revoke_step(p0.claims(), a, k), EventView::ClaimRevoked(a, k), r1),
        r1 is Ok,
        follows(p1, p2, create_step(p1.claims(), c, k, now), EventView::ClaimCreated(c, k), r2),
    ensures
        !p1.claims().contains_key(k),
        r2 is Ok,
{
}

/// A transfer by the owner `a` to `b` succeeds, keeps the key claimed, makes
/// `b` its owner at block `now`, and touches no other key.
pub proof fn transfer_moves_owner(
    p0: Pallet,
    p1: Pallet,
    a: AccountId,
    b: AccountId,
    k: Seq<u8>,
    now: BlockNumber,
    r: Result<(), Error>,
)
    requires
        p0.claims().contains_key(k),
        p0.claims()[k].owner == a,
        follows(
            p0,
            p1,
            transfer_step(p0.claims(), a, k, b, now),
            EventView::ClaimTransferred(a, b, k),
            r,
        ),
    ensures
        r is Ok,
        p1.claims().contains_key(k),
        p1.claims()[k] == (ClaimRecord { owner: b, registered_at: now }),
        p1.claims().dom() == p0.claims().dom(),
        p1.claims().remove(k) == p0.claims().remove(k),
{
    assert(p1.claims().dom() =~= p0.claims().dom());
    assert(p1.claims().remove(k) =~= p0.claims().remove(k));
}

/// On a key that is not claimed, revoke and transfer fail with
/// `ClaimNotFound`, never with `NotOwner`, whoever asks.
pub proof fn absent_is_not_found(
    p0: Pallet,
    p1: Pallet,
    p2: Pallet,
    a: AccountId,
    k: Seq<u8>,
    to: AccountId,
    now: BlockNumber,
    r1: Result<(), Error>,
    r2: Result<(), Error>,
)
    requires
        !p0.claims().contains_key(k),
        follows(p0, p1, revoke_step(p0.claims(), a, k), EventView::ClaimRevoked(a, k), r1),
        follows(
            p0,
            p2,
            transfer_step(p0.claims(), a, k, to, now),
            EventView::ClaimTransferred(a, to, k),
            r2,
        ),
    ensures
        r1 == Err::<(), Error>(Error::ClaimNotFound),
        r2 == Err::<(), Error>(Error::ClaimNotFound),
{
}

} // verus!
