use vstd::prelude::*;

use crate::pallet::{
    create_result, events_of_create, events_of_revoke, registry_after_create,
    registry_after_revoke, revoke_result, AccountId, BlockNumber, ClaimId, ClaimRecord, Error, Event,
};

verus! {

/// Once `a` has created claim `x`, any later `create_claim(b, x)` is refused
/// with `AlreadyClaimed`, leaves the registry as it was and emits nothing.
pub proof fn lemma_no_duplicate_claim(
    reg: Map<ClaimId, ClaimRecord>,
    a: AccountId,
    b: AccountId,
    x: ClaimId,
    created: BlockNumber,
    later: BlockNumber,
)
    requires
        create_result(reg, x) is Ok,
    ensures
        ({
            let held = registry_after_create(reg, a, x, created);
            &&& create_result(held, x) == Err::<(), Error>(Error::AlreadyClaimed)
            &&& registry_after_create(held, b, x, later) == held
            &&& events_of_create(held, b, x) == Seq::<Event>::empty()
        }),
{
}

/// Revoking a claim that nobody holds is refused with `NoSuchClaim`, whoever
/// asks, and changes nothing.
pub proof fn lemma_revoke_requires_existence(
    reg: Map<ClaimId, ClaimRecord>,
    a: AccountId,
    x: ClaimId,
)
    requires
        !reg.contains_key(x),
    ensures
        revoke_result(reg, a, x) == Err::<(), Error>(Error::NoSuchClaim),
        registry_after_revoke(reg, a, x) == reg,
{
}

/// Once `a` has created claim `x`, another account `b` cannot revoke it: the
/// call is refused with `NotClaimOwner` and the record stays as it was.
pub proof fn lemma_revoke_requires_ownership(
    reg: Map<ClaimId, ClaimRecord>,
    a: AccountId,
    b: AccountId,
    x: ClaimId,
    created: BlockNumber,
)
    requires
        create_result(reg, x) is Ok,
        b != a,
    ensures
        ({
            let held = registry_after_create(reg, a, x, created);
            &&& revoke_result(held, b, x) == Err::<(), Error>(Error::NotClaimOwner)
            &&& registry_after_revoke(held, b, x) == held
            &&& held[x] == (ClaimRecord { owner: a, created_at: created })
        }),
{
}

/// Creating an unheld claim and then revoking it as the same account both
/// succeed, and leave the registry exactly as it was before.
pub proof fn lemma_round_trip(
    reg: Map<ClaimId, ClaimRecord>,
    a: AccountId,
    x: ClaimId,
    created: BlockNumber,
)
    requires
        !reg.contains_key(x),
    ensures
        create_result(reg, x) is Ok,
        revoke_result(registry_after_create(reg, a, x, created), a, x) is Ok,
        registry_after_revoke(registry_after_create(reg, a, x, created), a, x) == reg,
        !registry_after_revoke(registry_after_create(reg, a, x, created), a, x).contains_key(x),
{
    assert(registry_after_create(reg, a, x, created).remove(x) =~= reg);
}

/// After a claim was created and revoked again, any account can create it.
pub proof fn lemma_reclaim_after_revoke(
    reg: Map<ClaimId, ClaimRecord>,
    a: AccountId,
    b: AccountId,
    x: ClaimId,
    created: BlockNumber,
    later: BlockNumber,
)
    requires
        !reg.contains_key(x),
    ensures
        ({
            let released = registry_after_revoke(registry_after_create(reg, a, x, created), a, x);
            &&& create_result(released, x) is Ok
            &&& registry_after_create(released, b, x, later) == reg.insert(
                x,
                ClaimRecord { owner: b, created_at: later },
            )
        }),
{
    lemma_round_trip(reg, a, x, created);
}

/// A refused call, whichever error it gives, leaves the registry unchanged
/// and emits no event.
pub proof fn lemma_failed_call_is_inert(
    reg: Map<ClaimId, ClaimRecord>,
    who: AccountId,
    x: ClaimId,
    now: BlockNumber,
)
    ensures
        create_result(reg, x) is Err ==> {
            &&& registry_after_create(reg, who, x, now) == reg
            &&& events_of_create(reg, who, x) == Seq::<Event>::empty()
        },
        revoke_result(reg, who, x) is Err ==> {
            &&& registry_after_revoke(reg, who, x) == reg
            &&& events_of_revoke(reg, who, x) == Seq::<Event>::empty()
        },
{
}

} // verus!
