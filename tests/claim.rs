use anchor_lang::prelude::Pubkey;
use token_manager::claim::{apply_claim, handler, FAMILY_COUNTER_SEED};
use token_manager::model::{
    AssetAccount, ClaimAuthorization, ClaimCtx, ClaimError, CustodyKind, CustodyRecord, Effect,
    FamilyCounter, InvalidationPolicy, Key, Recipient, RecordState, INVALIDATION_REWARD_LAMPORTS,
};

fn key(n: u128) -> Key {
    let mut bytes = [9u8; 32];
    bytes[16..].copy_from_slice(&n.to_be_bytes());
    Key { bytes }
}

const PROGRAM: u128 = 8;

fn registry() -> Key {
    Key { bytes: mpl_token_metadata::id().to_bytes() }
}

fn counter_key() -> Key {
    let (address, _) = Pubkey::find_program_address(
        &[FAMILY_COUNTER_SEED.as_bytes(), &key(MINT).bytes],
        &Pubkey::new_from_array(key(PROGRAM).bytes),
    );
    Key { bytes: address.to_bytes() }
}

const RECORD: u128 = 1;
const MINT: u128 = 2;
const ESCROW: u128 = 3;
const RECIPIENT: u128 = 4;
const RECIPIENT_ACCOUNT: u128 = 5;

fn ctx(kind: CustodyKind, held: u64, policy: InvalidationPolicy) -> ClaimCtx {
    ClaimCtx {
        record: CustodyRecord {
            id: key(RECORD),
            mint: key(MINT),
            held_quantity: held,
            kind,
            invalidation_policy: policy,
            claim_authorization_required: false,
            state: RecordState::Issued,
            state_changed_at: 100,
            recipient_account: None,
            claim_count: 2,
            lamports: 1000,
        },
        escrow: AssetAccount {
            id: key(ESCROW),
            owner: key(RECORD),
            mint: key(MINT),
            amount: held,
            delegate: None,
            delegated_amount: 0,
            frozen: false,
        },
        mint: key(MINT),
        recipient: Recipient { id: key(RECIPIENT), lamports: 10_000_000 },
        recipient_account: AssetAccount {
            id: key(RECIPIENT_ACCOUNT),
            owner: key(RECIPIENT),
            mint: key(MINT),
            amount: 0,
            delegate: None,
            delegated_amount: 0,
            frozen: false,
        },
        program_id: key(PROGRAM),
        family_counter: Some(FamilyCounter { id: counter_key(), managed_record_count: 3 }),
        authority_module: Some(registry()),
        authorization: None,
    }
}

fn token(c: &ClaimCtx) -> ClaimAuthorization {
    ClaimAuthorization {
        target_recipient: c.recipient.id,
        for_custody_record: c.record.id,
        issued_for_claim_count: c.record.claim_count,
        lamports: 890,
    }
}

fn assert_fails(mut c: ClaimCtx, e: ClaimError) {
    let before = c;
    assert_eq!(handler(&mut c, 200), Err(e));
    assert_eq!(c, before);
}

#[test]
fn unmanaged_claim_moves_quantity_only() {
    let mut c = ctx(CustodyKind::Unmanaged, 5, InvalidationPolicy::Unset);
    c.family_counter = None;
    c.authority_module = None;
    let effects = handler(&mut c, 200).unwrap();
    assert_eq!(effects, vec![Effect::Transfer { amount: 5 }]);
    assert_eq!(c.record.state, RecordState::Claimed);
    assert_eq!(c.record.recipient_account, Some(key(RECIPIENT_ACCOUNT)));
    assert_eq!(c.record.state_changed_at, 200);
    assert_eq!(c.recipient_account.amount, 5);
    assert_eq!(c.escrow.amount, 0);
    assert_eq!(c.recipient_account.delegate, None);
    assert!(!c.recipient_account.frozen);
    assert_eq!(c.recipient.lamports, 10_000_000);
    assert_eq!(c.record.lamports, 1000);
}

#[test]
fn managed_reissue_claim_counts_freezes_and_pays() {
    let mut c = ctx(CustodyKind::Managed, 1, InvalidationPolicy::Reissue);
    let effects = handler(&mut c, 200).unwrap();
    assert_eq!(
        effects,
        vec![
            Effect::Transfer { amount: 1 },
            Effect::ApproveDelegate { amount: 1 },
            Effect::FreezeWithFamilyCounter,
            Effect::PayReward { lamports: INVALIDATION_REWARD_LAMPORTS },
        ]
    );
    assert_eq!(c.family_counter.unwrap().managed_record_count, 4);
    assert!(c.recipient_account.frozen);
    assert_eq!(c.recipient_account.delegate, Some(key(RECORD)));
    assert_eq!(c.recipient_account.delegated_amount, 1);
    assert_eq!(c.recipient.lamports, 10_000_000 - 5_000_000);
    assert_eq!(c.record.lamports, 1000 + 5_000_000);
}

#[test]
fn every_kind_ends_claimed_with_the_quantity_moved() {
    for kind in [
        CustodyKind::Unmanaged,
        CustodyKind::Managed,
        CustodyKind::Edition,
        CustodyKind::Permissioned,
    ] {
        let mut c = ctx(kind, 7, InvalidationPolicy::Return);
        c.recipient_account.amount = 2;
        assert!(handler(&mut c, 300).is_ok());
        assert_eq!(c.record.state, RecordState::Claimed);
        assert_eq!(c.record.recipient_account, Some(key(RECIPIENT_ACCOUNT)));
        assert_eq!(c.recipient_account.amount, 9);
        assert_eq!(c.escrow.amount, 0);
    }
}

#[test]
fn second_claim_fails_invalid_state() {
    let mut c = ctx(CustodyKind::Permissioned, 1, InvalidationPolicy::Invalidate);
    assert!(handler(&mut c, 200).is_ok());
    let after_first = c;
    assert_eq!(handler(&mut c, 300), Err(ClaimError::InvalidState));
    assert_eq!(c, after_first);
    assert_eq!(c.family_counter.unwrap().managed_record_count, 4);
}

#[test]
fn permissioned_claim_freezes_without_delegate() {
    let mut c = ctx(CustodyKind::Permissioned, 1, InvalidationPolicy::Unset);
    let effects = handler(&mut c, 200).unwrap();
    assert_eq!(
        effects,
        vec![Effect::Transfer { amount: 1 }, Effect::FreezeWithFamilyCounter]
    );
    assert_eq!(c.recipient_account.delegate, None);
    assert!(c.recipient_account.frozen);
    assert_eq!(c.family_counter.unwrap().managed_record_count, 4);
}

#[test]
fn counter_counts_each_claim_of_a_family() {
    let mut shared = Some(FamilyCounter { id: counter_key(), managed_record_count: 0 });
    let mut successes: u64 = 0;
    for i in 0..6u128 {
        let kind = if i % 2 == 0 { CustodyKind::Managed } else { CustodyKind::Permissioned };
        let mut c = ctx(kind, 1, InvalidationPolicy::Unset);
        c.record.id = key(100 + i);
        c.escrow.owner = c.record.id;
        c.family_counter = shared;
        if i == 3 {
            c.record.state = RecordState::Invalidated;
        }
        if handler(&mut c, 200).is_ok() {
            successes += 1;
        }
        shared = c.family_counter;
    }
    assert_eq!(successes, 5);
    assert_eq!(shared.unwrap().managed_record_count, 5);
}

#[test]
fn edition_claim_freezes_through_registry() {
    let mut c = ctx(CustodyKind::Edition, 1, InvalidationPolicy::Unset);
    let effects = handler(&mut c, 200).unwrap();
    assert_eq!(
        effects,
        vec![
            Effect::Transfer { amount: 1 },
            Effect::ApproveDelegate { amount: 1 },
            Effect::FreezeEdition,
        ]
    );
    assert_eq!(c.family_counter.unwrap().managed_record_count, 3);
    assert!(c.recipient_account.frozen);
}

#[test]
fn edition_claim_with_wrong_module_fails() {
    let mut c = ctx(CustodyKind::Edition, 1, InvalidationPolicy::Reissue);
    c.authority_module = Some(key(99));
    assert_fails(c, ClaimError::UnexpectedAuthorityModule);
    c.authority_module = None;
    assert_fails(c, ClaimError::UnexpectedAuthorityModule);
    let mut c = ctx(CustodyKind::Edition, 1, InvalidationPolicy::Unset);
    let before = c;
    assert_eq!(
        apply_claim(&mut c, 200, None, key(7)),
        Err(ClaimError::UnexpectedAuthorityModule)
    );
    assert_eq!(c, before);
    c.authority_module = Some(key(7));
    assert!(apply_claim(&mut c, 200, None, key(7)).is_ok());
}

#[test]
fn authorization_is_consumed_on_success() {
    let mut c = ctx(CustodyKind::Unmanaged, 1, InvalidationPolicy::Unset);
    c.record.claim_authorization_required = true;
    c.authorization = Some(token(&c));
    let effects = handler(&mut c, 200).unwrap();
    assert_eq!(
        effects,
        vec![Effect::Transfer { amount: 1 }, Effect::CloseAuthorization]
    );
    assert_eq!(c.authorization, None);
    assert_eq!(c.record.lamports, 1000 + 890);
}

#[test]
fn stale_authorization_fails_and_is_kept() {
    let mut c = ctx(CustodyKind::Managed, 1, InvalidationPolicy::Reissue);
    c.record.claim_authorization_required = true;
    let mut t = token(&c);
    t.issued_for_claim_count = 1;
    c.authorization = Some(t);
    assert_fails(c, ClaimError::InvalidClaimAuthorization);
}

#[test]
fn mismatched_authorizations_fail() {
    let mut c = ctx(CustodyKind::Unmanaged, 1, InvalidationPolicy::Unset);
    c.record.claim_authorization_required = true;
    assert_fails(c, ClaimError::InvalidClaimAuthorization);
    let mut t = token(&c);
    t.for_custody_record = key(42);
    c.authorization = Some(t);
    assert_fails(c, ClaimError::InvalidClaimAuthorization);
    let mut t = token(&c);
    t.target_recipient = key(43);
    c.authorization = Some(t);
    assert_fails(c, ClaimError::InvalidClaimAuthorization);
}

#[test]
fn reward_only_under_reissue_and_invalidate() {
    for (policy, paid) in [
        (InvalidationPolicy::Unset, 0),
        (InvalidationPolicy::Reissue, INVALIDATION_REWARD_LAMPORTS),
        (InvalidationPolicy::Invalidate, INVALIDATION_REWARD_LAMPORTS),
        (InvalidationPolicy::Return, 0),
    ] {
        let mut c = ctx(CustodyKind::Unmanaged, 1, policy);
        let effects = handler(&mut c, 200).unwrap();
        assert_eq!(c.recipient.lamports, 10_000_000 - paid);
        assert_eq!(c.record.lamports, 1000 + paid);
        assert_eq!(
            effects.contains(&Effect::PayReward { lamports: INVALIDATION_REWARD_LAMPORTS }),
            paid > 0
        );
    }
}

#[test]
fn reward_needs_funds() {
    let mut c = ctx(CustodyKind::Unmanaged, 1, InvalidationPolicy::Invalidate);
    c.recipient.lamports = INVALIDATION_REWARD_LAMPORTS - 1;
    assert_fails(c, ClaimError::InsufficientRewardFunds);
    c.recipient.lamports = INVALIDATION_REWARD_LAMPORTS;
    assert!(handler(&mut c, 200).is_ok());
    assert_eq!(c.recipient.lamports, 0);
}

#[test]
fn precondition_errors() {
    let base = ctx(CustodyKind::Unmanaged, 5, InvalidationPolicy::Unset);
    let mut c = base;
    c.record.state = RecordState::Invalidated;
    assert_fails(c, ClaimError::InvalidState);
    let mut c = base;
    c.escrow.owner = key(77);
    assert_fails(c, ClaimError::InvalidEscrowAccount);
    let mut c = base;
    c.escrow.mint = key(77);
    assert_fails(c, ClaimError::InvalidEscrowAccount);
    let mut c = base;
    c.mint = key(77);
    assert_fails(c, ClaimError::InvalidMint);
    let mut c = base;
    c.recipient_account.owner = key(77);
    assert_fails(c, ClaimError::InvalidRecipientAccount);
    let mut c = base;
    c.recipient_account.mint = key(77);
    assert_fails(c, ClaimError::InvalidRecipientAccount);
    let mut c = base;
    c.recipient_account.frozen = true;
    assert_fails(c, ClaimError::AccountFrozen);
    let mut c = base;
    c.escrow.amount = 4;
    assert_fails(c, ClaimError::InsufficientEscrowFunds);
    let mut c = base;
    c.recipient_account.amount = u64::MAX - 4;
    assert_fails(c, ClaimError::ArithmeticOverflow);
}

#[test]
fn family_counter_errors() {
    let mut c = ctx(CustodyKind::Managed, 1, InvalidationPolicy::Unset);
    c.family_counter = None;
    assert_fails(c, ClaimError::InvalidFamilyCounter);
    c.family_counter = Some(FamilyCounter { id: key(88), managed_record_count: 0 });
    assert_fails(c, ClaimError::InvalidFamilyCounter);
    c.family_counter = Some(FamilyCounter { id: counter_key(), managed_record_count: u64::MAX });
    assert_fails(c, ClaimError::ArithmeticOverflow);
}

#[test]
fn record_lamports_overflow_fails() {
    let mut c = ctx(CustodyKind::Unmanaged, 1, InvalidationPolicy::Reissue);
    c.record.lamports = u64::MAX - INVALIDATION_REWARD_LAMPORTS + 1;
    assert_fails(c, ClaimError::ArithmeticOverflow);
}

#[test]
fn kind_tags() {
    assert_eq!(CustodyKind::from_tag(1), Ok(CustodyKind::Unmanaged));
    assert_eq!(CustodyKind::from_tag(2), Ok(CustodyKind::Managed));
    assert_eq!(CustodyKind::from_tag(3), Ok(CustodyKind::Edition));
    assert_eq!(CustodyKind::from_tag(4), Ok(CustodyKind::Permissioned));
    assert_eq!(CustodyKind::from_tag(0), Err(ClaimError::InvalidCustodyKind));
    assert_eq!(CustodyKind::from_tag(5), Err(ClaimError::InvalidCustodyKind));
}

#[test]
fn counter_must_sit_at_the_derived_address() {
    let mut c = ctx(CustodyKind::Managed, 1, InvalidationPolicy::Unset);
    c.program_id = key(9);
    assert_fails(c, ClaimError::InvalidFamilyCounter);
    let derived = counter_key();
    c.family_counter = Some(FamilyCounter { id: derived, managed_record_count: 3 });
    let before = c;
    assert_eq!(apply_claim(&mut c, 200, Some(key(10)), registry()), Err(ClaimError::InvalidFamilyCounter));
    assert_eq!(c, before);
    assert_eq!(apply_claim(&mut c, 200, None, registry()), Err(ClaimError::InvalidFamilyCounter));
    assert!(apply_claim(&mut c, 200, Some(derived), registry()).is_ok());
    assert_eq!(c.family_counter.unwrap().managed_record_count, 4);
}

#[test]
fn keys_compare_by_every_byte() {
    let a = key(5);
    let mut b = key(5);
    assert!(a == b);
    b.bytes[0] = 0;
    assert!(a != b);
    let mut d = key(5);
    d.bytes[31] = 0;
    assert!(a != d);
}
