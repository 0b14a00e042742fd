use vstd::prelude::*;
use anchor_lang::prelude::Pubkey;
use crate::model::{
    ClaimCtx, ClaimError, CustodyKind, Key, Effect, FamilyCounter, RecordState,
    INVALIDATION_REWARD_LAMPORTS,
};

verus! {

/// The seed that, with the mint, derives a family counter's address.
pub const FAMILY_COUNTER_SEED: &'static str = "mint-manager";

/// The program address that `try_find_program_address` derives from the seeds
/// `prefix` (as UTF-8) and `key` under `program`, with its bump seed.
pub uninterp spec fn program_address(prefix: Seq<char>, key: Seq<u8>, program: Seq<u8>) -> Option<
    (Seq<u8>, u8),
>;

/// Relies on solana_program's `Pubkey::try_find_program_address`: the address
/// and bump it finds depend on the seeds and the program alone, and it returns
/// `None` where no bump seed gives a valid address.
#[verifier::external_body]
fn try_find_program_address(prefix: &str, key: &Key, program: &Key) -> (r: Option<(Key, u8)>)
    ensures
        match r {
            Some(found) => program_address(prefix@, key.bytes@, program.bytes@) == Some(
                (found.0.bytes@, found.1),
            ),
            None => program_address(prefix@, key.bytes@, program.bytes@) is None,
        },
{
    let seeds: &[&[u8]] = &[prefix.as_bytes(), &key.bytes];
    match Pubkey::try_find_program_address(seeds, &Pubkey::new_from_array(program.bytes)) {
        Some((address, bump)) => Some((Key { bytes: address.to_bytes() }, bump)),
        None => None,
    }
}

/// The address of the edition registry program.
pub open spec fn edition_registry() -> Seq<u8> {
    seq![
        11u8, 112, 101, 177, 227, 209, 124, 69, 56, 157, 82, 127, 107, 4, 195, 205,
        88, 184, 108, 115, 26, 160, 253, 181, 73, 182, 209, 188, 3, 248, 41, 70,
    ]
}

/// Relies on `mpl_token_metadata::id`: the address that the crate declares for
/// its program, metaqbxxUerdq28cj1RbAWkYQm3ybzjb6a8bt518x1s.
#[verifier::external_body]
fn edition_registry_id() -> (r: Key)
    ensures
        r.bytes@ == edition_registry(),
{
    Key { bytes: mpl_token_metadata::id().to_bytes() }
}

/// The address of the family counter that the program derives for the mint.
pub open spec fn family_counter_address(c: ClaimCtx) -> Option<Seq<u8>> {
    match program_address(FAMILY_COUNTER_SEED@, c.mint.bytes@, c.program_id.bytes@) {
        Some(found) => Some(found.0),
        None => None,
    }
}

/// The escrow account belongs to the record and holds the record's mint.
pub open spec fn escrow_linked(c: ClaimCtx) -> bool {
    c.escrow.owner.bytes@ == c.record.id.bytes@ && c.escrow.mint.bytes@ == c.record.mint.bytes@
}

/// The receiving account belongs to the recipient and holds the record's mint.
pub open spec fn recipient_linked(c: ClaimCtx) -> bool {
    c.recipient_account.owner.bytes@ == c.recipient.id.bytes@ && c.recipient_account.mint.bytes@
        == c.record.mint.bytes@
}

/// The family counter was handed in, at the derived address `address`.
pub open spec fn family_counter_found(c: ClaimCtx, address: Option<Seq<u8>>) -> bool {
    &&& address is Some
    &&& c.family_counter is Some
    &&& c.family_counter->Some_0.id.bytes@ == address->Some_0
}

/// The authorization was handed in and was issued for this record, this
/// recipient and the record's current claim cycle.
pub open spec fn authorization_matches(c: ClaimCtx) -> bool {
    match c.authorization {
        Some(a) => a.issued_for_claim_count == c.record.claim_count
            && a.for_custody_record.bytes@ == c.record.id.bytes@ && a.target_recipient.bytes@
            == c.recipient.id.bytes@,
        None => false,
    }
}

/// `module` was handed in and is `expected`.
pub open spec fn module_is(module: Option<Key>, expected: Seq<u8>) -> bool {
    module is Some && module->Some_0.bytes@ == expected
}

/// Lamports the recipient pays to the record.
pub open spec fn reward_of(c: ClaimCtx) -> nat {
    if c.record.invalidation_policy.pays_reward() {
        INVALIDATION_REWARD_LAMPORTS as nat
    } else {
        0
    }
}

/// Lamports the record takes back from the consumed authorization.
pub open spec fn reclaimed_of(c: ClaimCtx) -> nat {
    if c.record.claim_authorization_required && c.authorization is Some {
        c.authorization->Some_0.lamports as nat
    } else {
        0
    }
}

/// The first check that a claim on `c` fails, or `None` when it succeeds,
/// where `address` is the family counter's derived address and `registry` the
/// edition registry's.
pub open spec fn claim_error(c: ClaimCtx, address: Option<Seq<u8>>, registry: Seq<u8>) -> Option<
    ClaimError,
> {
    let kind = c.record.kind;
    if c.record.state != RecordState::Issued {
        Some(ClaimError::InvalidState)
    } else if !escrow_linked(c) {
        Some(ClaimError::InvalidEscrowAccount)
    } else if c.mint.bytes@ != c.record.mint.bytes@ {
        Some(ClaimError::InvalidMint)
    } else if !recipient_linked(c) {
        Some(ClaimError::InvalidRecipientAccount)
    } else if c.escrow.frozen || c.recipient_account.frozen {
        Some(ClaimError::AccountFrozen)
    } else if c.escrow.amount < c.record.held_quantity {
        Some(ClaimError::InsufficientEscrowFunds)
    } else if c.recipient_account.amount + c.record.held_quantity > u64::MAX {
        Some(ClaimError::ArithmeticOverflow)
    } else if kind == CustodyKind::Edition && !module_is(c.authority_module, registry) {
        Some(ClaimError::UnexpectedAuthorityModule)
    } else if kind.uses_family_counter() && !family_counter_found(c, address) {
        Some(ClaimError::InvalidFamilyCounter)
    } else if kind.uses_family_counter() && c.family_counter->Some_0.managed_record_count
        == u64::MAX {
        Some(ClaimError::ArithmeticOverflow)
    } else if c.record.invalidation_policy.pays_reward() && c.recipient.lamports
        < INVALIDATION_REWARD_LAMPORTS {
        Some(ClaimError::InsufficientRewardFunds)
    } else if c.record.claim_authorization_required && !authorization_matches(c) {
        Some(ClaimError::InvalidClaimAuthorization)
    } else if c.record.lamports + reward_of(c) + reclaimed_of(c) > u64::MAX {
        Some(ClaimError::ArithmeticOverflow)
    } else {
        None
    }
}

/// The family counter after a claim of `c`.
pub open spec fn counter_after(c: ClaimCtx) -> Option<FamilyCounter> {
    if c.record.kind.uses_family_counter() {
        Some(
            FamilyCounter {
                managed_record_count: (c.family_counter->Some_0.managed_record_count
                    + 1) as u64,
                ..c.family_counter->Some_0
            },
        )
    } else {
        c.family_counter
    }
}

/// Everything after a successful claim of `c` at time `now`.
pub open spec fn claimed(c: ClaimCtx, now: i64) -> ClaimCtx {
    let held = c.record.held_quantity;
    let kind = c.record.kind;
    ClaimCtx {
        record: crate::model::CustodyRecord {
            recipient_account: Some(c.recipient_account.id),
            state: RecordState::Claimed,
            state_changed_at: now,
            lamports: (c.record.lamports + reward_of(c) + reclaimed_of(c)) as u64,
            ..c.record
        },
        escrow: crate::model::AssetAccount { amount: (c.escrow.amount - held) as u64, ..c.escrow },
        recipient_account: crate::model::AssetAccount {
            amount: (c.recipient_account.amount + held) as u64,
            delegate: if kind.takes_delegate() {
                Some(c.record.id)
            } else {
                c.recipient_account.delegate
            },
            delegated_amount: if kind.takes_delegate() {
                held
            } else {
                c.recipient_account.delegated_amount
            },
            frozen: kind.freezes(),
            ..c.recipient_account
        },
        recipient: crate::model::Recipient {
            lamports: (c.recipient.lamports - reward_of(c)) as u64,
            ..c.recipient
        },
        family_counter: counter_after(c),
        authorization: if c.record.claim_authorization_required {
            None
        } else {
            c.authorization
        },
        ..c
    }
}

/// The actions that a successful claim of `c` asks of the host, in order.
pub open spec fn effects_of(c: ClaimCtx) -> Seq<Effect> {
    let held = c.record.held_quantity;
    let kind = c.record.kind;
    seq![Effect::Transfer { amount: held }] + (if kind.takes_delegate() {
        seq![Effect::ApproveDelegate { amount: held }]
    } else {
        seq![]
    }) + (if kind.uses_family_counter() {
        seq![Effect::FreezeWithFamilyCounter]
    } else if kind == CustodyKind::Edition {
        seq![Effect::FreezeEdition]
    } else {
        seq![]
    }) + (if c.record.invalidation_policy.pays_reward() {
        seq![Effect::PayReward { lamports: INVALIDATION_REWARD_LAMPORTS }]
    } else {
        seq![]
    }) + (if c.record.claim_authorization_required {
        seq![Effect::CloseAuthorization]
    } else {
        seq![]
    })
}

/// Claims the record of `ctx` for the recipient at time `now`, where
/// `counter_address` is the family counter's derived address and
/// `edition_registry` the address of the edition registry.
///
/// Every check runs before anything changes: on an error `ctx` is left as it
/// was, and on success it holds the claimed state and the result lists the
/// actions that the host performs on the ledger, the edition registry and the
/// system program.
pub fn apply_claim(
    ctx: &mut ClaimCtx,
    now: i64,
    counter_address: Option<Key>,
    edition_registry: Key,
) -> (r: Result<
    Vec<Effect>,
    ClaimError,
>)
    ensures
        ({
            let address = match counter_address {
                Some(a) => Some(a.bytes@),
                None => None,
            };
            match r {
                Ok(effects) => {
                    &&& claim_error(*old(ctx), address, edition_registry.bytes@) is None
                    &&& *final(ctx) == claimed(*old(ctx), now)
                    &&& effects@ == effects_of(*old(ctx))
                },
                Err(e) => {
                    &&& claim_error(*old(ctx), address, edition_registry.bytes@) == Some(e)
                    &&& *final(ctx) == *old(ctx)
                },
            }
        }),
{
    let c = *ctx;
    let kind = c.record.kind;
    let held = c.record.held_quantity;
    let delegates = kind == CustodyKind::Managed || kind == CustodyKind::Edition;
    let counted = kind == CustodyKind::Managed || kind == CustodyKind::Permissioned;
    let rewarded = c.record.invalidation_policy == crate::model::InvalidationPolicy::Reissue
        || c.record.invalidation_policy == crate::model::InvalidationPolicy::Invalidate;
    let required = c.record.claim_authorization_required;

    if c.record.state != RecordState::Issued {
        return Err(ClaimError::InvalidState);
    }
    if !(c.escrow.owner == c.record.id && c.escrow.mint == c.record.mint) {
        return Err(ClaimError::InvalidEscrowAccount);
    }
    if !(c.mint == c.record.mint) {
        return Err(ClaimError::InvalidMint);
    }
    if !(c.recipient_account.owner == c.recipient.id && c.recipient_account.mint
        == c.record.mint) {
        return Err(ClaimError::InvalidRecipientAccount);
    }
    if c.escrow.frozen || c.recipient_account.frozen {
        return Err(ClaimError::AccountFrozen);
    }
    if c.escrow.amount < held {
        return Err(ClaimError::InsufficientEscrowFunds);
    }
    if c.recipient_account.amount > u64::MAX - held {
        return Err(ClaimError::ArithmeticOverflow);
    }
    if kind == CustodyKind::Edition {
        let module_ok = match c.authority_module {
            Some(m) => m == edition_registry,
            None => false,
        };
        if !module_ok {
            return Err(ClaimError::UnexpectedAuthorityModule);
        }
    }
    let mut counter = c.family_counter;
    if counted {
        let (f, address) = match (c.family_counter, counter_address) {
            (Some(f), Some(address)) => (f, address),
            _ => {
                return Err(ClaimError::InvalidFamilyCounter);
            },
        };
        if !(f.id == address) {
            return Err(ClaimError::InvalidFamilyCounter);
        }
        match f.managed_record_count.checked_add(1) {
            Some(n) => {
                counter = Some(FamilyCounter { id: f.id, managed_record_count: n });
            },
            None => {
                return Err(ClaimError::ArithmeticOverflow);
            },
        }
    }
    let reward: u64 = if rewarded {
        INVALIDATION_REWARD_LAMPORTS
    } else {
        0
    };
    if c.recipient.lamports < reward {
        return Err(ClaimError::InsufficientRewardFunds);
    }
    let mut reclaimed: u64 = 0;
    if required {
        match c.authorization {
            Some(a) => {
                if a.issued_for_claim_count != c.record.claim_count || !(a.for_custody_record
                    == c.record.id) || !(a.target_recipient == c.recipient.id) {
                    return Err(ClaimError::InvalidClaimAuthorization);
                }
                reclaimed = a.lamports;
            },
            None => {
                return Err(ClaimError::InvalidClaimAuthorization);
            },
        }
    }
    if c.record.lamports > u64::MAX - reward || c.record.lamports + reward > u64::MAX - reclaimed {
        return Err(ClaimError::ArithmeticOverflow);
    }

    // Every check has passed: commit.
    ctx.record.recipient_account = Some(c.recipient_account.id);
    ctx.record.state = RecordState::Claimed;
    ctx.record.state_changed_at = now;
    ctx.record.lamports = c.record.lamports + reward + reclaimed;
    ctx.escrow.amount = c.escrow.amount - held;
    ctx.recipient_account.amount = c.recipient_account.amount + held;
    if delegates {
        ctx.recipient_account.delegate = Some(c.record.id);
        ctx.recipient_account.delegated_amount = held;
    }
    ctx.recipient_account.frozen = kind != CustodyKind::Unmanaged;
    ctx.recipient.lamports = c.recipient.lamports - reward;
    ctx.family_counter = counter;
    if required {
        ctx.authorization = None;
    }

    let mut effects: Vec<Effect> = Vec::new();
    effects.push(Effect::Transfer { amount: held });
    if delegates {
        effects.push(Effect::ApproveDelegate { amount: held });
    }
    if counted {
        effects.push(Effect::FreezeWithFamilyCounter);
    } else if kind == CustodyKind::Edition {
        effects.push(Effect::FreezeEdition);
    }
    if rewarded {
        effects.push(Effect::PayReward { lamports: INVALIDATION_REWARD_LAMPORTS });
    }
    if required {
        effects.push(Effect::CloseAuthorization);
    }
    assert(effects@ =~= effects_of(c));
    assert(*ctx == claimed(c, now));
    Ok(effects)
}

/// Claims the record of `ctx` for the recipient at time `now`, deriving the
/// family counter's address from the mint for the kinds that count, and
/// holding an edition claim to the edition registry program.
pub fn handler(ctx: &mut ClaimCtx, now: i64) -> (r: Result<Vec<Effect>, ClaimError>)
    ensures
        match r {
            Ok(effects) => {
                &&& claim_error(*old(ctx), family_counter_address(*old(ctx)), edition_registry()) is None
                &&& *final(ctx) == claimed(*old(ctx), now)
                &&& effects@ == effects_of(*old(ctx))
            },
            Err(e) => {
                &&& claim_error(*old(ctx), family_counter_address(*old(ctx)), edition_registry()) == Some(e)
                &&& *final(ctx) == *old(ctx)
            },
        },
{
    let kind = ctx.record.kind;
    let mut address: Option<Key> = None;
    if kind == CustodyKind::Managed || kind == CustodyKind::Permissioned {
        address = match try_find_program_address(FAMILY_COUNTER_SEED, &ctx.mint, &ctx.program_id) {
            Some(found) => Some(found.0),
            None => None,
        };
    }
    let registry = edition_registry_id();
    apply_claim(ctx, now, address, registry)
}

} // verus!
