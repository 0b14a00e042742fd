use vstd::prelude::*;
use crate::claim::{
    authorization_matches, claim_error, claimed, edition_registry, effects_of, escrow_linked,
    family_counter_address,
    family_counter_found, module_is, recipient_linked,
};
use crate::model::{
    ClaimCtx, ClaimError, CustodyKind, Effect, FamilyCounter, RecordState,
    INVALIDATION_REWARD_LAMPORTS,
};

verus! {

/// The checks that decide whether the held quantity can move at all.
pub open spec fn transfer_ready(c: ClaimCtx) -> bool {
    &&& c.record.state == RecordState::Issued
    &&& escrow_linked(c)
    &&& c.mint.bytes@ == c.record.mint.bytes@
    &&& recipient_linked(c)
    &&& !c.escrow.frozen
    &&& !c.recipient_account.frozen
    &&& c.escrow.amount >= c.record.held_quantity
    &&& c.recipient_account.amount + c.record.held_quantity <= u64::MAX
}

/// A successful claim binds the receiving account, marks the record claimed
/// and moves the whole held quantity from the escrow to that account.
pub proof fn lemma_claim_settles(
    c: ClaimCtx,
    address: Option<Seq<u8>>,
    registry: Seq<u8>,
    now: i64,
)
    requires
        claim_error(c, address, registry) is None,
    ensures
        claimed(c, now).record.state == RecordState::Claimed,
        claimed(c, now).record.recipient_account == Some(c.recipient_account.id),
        claimed(c, now).escrow.amount == c.escrow.amount - c.record.held_quantity,
        claimed(c, now).recipient_account.amount == c.recipient_account.amount
            + c.record.held_quantity,
{
}

/// A record that was just claimed cannot be claimed again: the second claim
/// fails with `InvalidState`, and a failed claim changes nothing.
pub proof fn lemma_second_claim_fails(
    c: ClaimCtx,
    address: Option<Seq<u8>>,
    registry: Seq<u8>,
    now: i64,
)
    requires
        claim_error(c, address, registry) is None,
    ensures
        claim_error(claimed(c, now), address, registry) == Some(ClaimError::InvalidState),
{
}

/// A successful claim of a managed or permissioned record adds exactly one to
/// the family counter, and leaves it alone for the other kinds.
pub proof fn lemma_counter_step(
    c: ClaimCtx,
    address: Option<Seq<u8>>,
    registry: Seq<u8>,
    now: i64,
)
    requires
        claim_error(c, address, registry) is None,
    ensures
        c.record.kind.uses_family_counter() ==> {
            &&& claimed(c, now).family_counter is Some
            &&& claimed(c, now).family_counter->Some_0.id == c.family_counter->Some_0.id
            &&& claimed(c, now).family_counter->Some_0.managed_record_count
                == c.family_counter->Some_0.managed_record_count + 1
        },
        !c.record.kind.uses_family_counter() ==> claimed(c, now).family_counter
            == c.family_counter,
{
}

/// `c` with the shared family counter in the state `f`.
pub open spec fn with_counter(c: ClaimCtx, f: Option<FamilyCounter>) -> ClaimCtx {
    ClaimCtx { family_counter: f, ..c }
}

/// Claims `cs` one after another against one shared family counter, starting
/// from `f`, each at the address that the program derives for it: the counter at the end, and how many of the claims succeeded on a
/// kind that counts.
pub open spec fn run_claims(f: Option<FamilyCounter>, cs: Seq<ClaimCtx>, now: i64) -> (Option<
    FamilyCounter,
>, nat)
    decreases cs.len(),
{
    if cs.len() == 0 {
        (f, 0)
    } else {
        let before = run_claims(f, cs.drop_last(), now);
        let c = with_counter(cs.last(), before.0);
        if claim_error(c, family_counter_address(c), edition_registry()) is None
            && c.record.kind.uses_family_counter() {
            (claimed(c, now).family_counter, before.1 + 1)
        } else {
            (before.0, before.1)
        }
    }
}

/// No update of the family counter is lost: after any run of claims against
/// it, the counter has grown by the number of counted claims that succeeded.
pub proof fn lemma_no_lost_updates(f: FamilyCounter, cs: Seq<ClaimCtx>, now: i64)
    ensures
        run_claims(Some(f), cs, now).0 is Some,
        run_claims(Some(f), cs, now).0->Some_0.id == f.id,
        run_claims(Some(f), cs, now).0->Some_0.managed_record_count == f.managed_record_count
            + run_claims(Some(f), cs, now).1,
    decreases cs.len(),
{
    if cs.len() > 0 {
        lemma_no_lost_updates(f, cs.drop_last(), now);
        let before = run_claims(Some(f), cs.drop_last(), now);
        let c = with_counter(cs.last(), before.0);
        if claim_error(c, family_counter_address(c), edition_registry()) is None
            && c.record.kind.uses_family_counter() {
            lemma_counter_step(c, family_counter_address(c), edition_registry(), now);
        }
    }
}

/// An edition claim that hands in any module other than the edition registry
/// fails with `UnexpectedAuthorityModule`, and a failed claim changes nothing.
pub proof fn lemma_edition_needs_registry(
    c: ClaimCtx,
    address: Option<Seq<u8>>,
    registry: Seq<u8>,
)
    requires
        transfer_ready(c),
        c.record.kind == CustodyKind::Edition,
        !module_is(c.authority_module, registry),
    ensures
        claim_error(c, address, registry) == Some(ClaimError::UnexpectedAuthorityModule),
{
}

/// When authorization is required, a token issued for another claim cycle
/// fails the claim with `InvalidClaimAuthorization`, once every earlier check
/// has passed; a failed claim keeps the token.
pub proof fn lemma_stale_authorization(
    c: ClaimCtx,
    address: Option<Seq<u8>>,
    registry: Seq<u8>,
)
    requires
        transfer_ready(c),
        c.record.kind == CustodyKind::Edition ==> module_is(c.authority_module, registry),
        c.record.kind.uses_family_counter() ==> family_counter_found(c, address)
            && c.family_counter->Some_0.managed_record_count < u64::MAX,
        c.record.invalidation_policy.pays_reward() ==> c.recipient.lamports
            >= INVALIDATION_REWARD_LAMPORTS,
        c.record.claim_authorization_required,
        c.authorization is Some,
        c.authorization->Some_0.issued_for_claim_count != c.record.claim_count,
    ensures
        !authorization_matches(c),
        claim_error(c, address, registry) == Some(ClaimError::InvalidClaimAuthorization),
{
}

/// Under the reissue and invalidate policies a successful claim takes exactly
/// the reward from the recipient and asks for that payment; under the others
/// the recipient's lamports stay and no payment is asked.
pub proof fn lemma_reward(
    c: ClaimCtx,
    address: Option<Seq<u8>>,
    registry: Seq<u8>,
    now: i64,
)
    requires
        claim_error(c, address, registry) is None,
    ensures
        c.record.invalidation_policy.pays_reward() ==> {
            &&& claimed(c, now).recipient.lamports == c.recipient.lamports
                - INVALIDATION_REWARD_LAMPORTS
            &&& effects_of(c).contains(
                Effect::PayReward { lamports: INVALIDATION_REWARD_LAMPORTS },
            )
        },
        !c.record.invalidation_policy.pays_reward() ==> {
            &&& claimed(c, now).recipient.lamports == c.recipient.lamports
            &&& forall|i: int|
                0 <= i < effects_of(c).len() ==> !(effects_of(c)[i] is PayReward)
        },
{
    let e = effects_of(c);
    if c.record.invalidation_policy.pays_reward() {
        let k: int = e.len() - 1 - (if c.record.claim_authorization_required {
            1int
        } else {
            0int
        });
        assert(e[k] == Effect::PayReward { lamports: INVALIDATION_REWARD_LAMPORTS });
    }
}

} // verus!
