use vstd::prelude::*;

verus! {

/// A 32-byte address.
#[derive(Clone, Copy, Debug, Eq)]
pub struct Key {
    pub bytes: [u8; 32],
}

impl PartialEq for Key {
    fn eq(&self, o: &Key) -> (r: bool) {
        let mut i: usize = 0;
        while i < 32
            invariant
                i <= 32,
                forall|j: int| 0 <= j < i ==> self.bytes@[j] == o.bytes@[j],
            decreases 32 - i,
        {
            if self.bytes[i] != o.bytes[i] {
                return false;
            }
            i = i + 1;
        }
        assert(self.bytes@ =~= o.bytes@);
        true
    }
}

impl vstd::std_specs::cmp::PartialEqSpecImpl for Key {
    open spec fn obeys_eq_spec() -> bool {
        true
    }

    open spec fn eq_spec(&self, o: &Key) -> bool {
        self.bytes@ == o.bytes@
    }
}

/// Lamports that the recipient pays to the record when the record can later be
/// invalidated or reissued.
pub const INVALIDATION_REWARD_LAMPORTS: u64 = 5000000;

/// The custody rule that a record was issued under.
#[derive(Clone, Copy, Debug, PartialEq, Eq, Structural)]
pub enum CustodyKind {
    /// The recipient owns the asset without restriction.
    Unmanaged,
    /// The record becomes delegate and the family counter freezes the account.
    Managed,
    /// The record becomes delegate and the edition registry freezes the account.
    Edition,
    /// The family counter freezes the account; no delegate is set.
    Permissioned,
}

/// What may later happen to a claimed record.
#[derive(Clone, Copy, Debug, PartialEq, Eq, Structural)]
pub enum InvalidationPolicy {
    Unset,
    Reissue,
    Invalidate,
    Return,
}

#[derive(Clone, Copy, Debug, PartialEq, Eq, Structural)]
pub enum RecordState {
    Issued,
    Claimed,
    Invalidated,
}

#[derive(Clone, Copy, Debug, PartialEq, Eq, Structural)]
pub enum ClaimError {
    InvalidState,
    InvalidEscrowAccount,
    InvalidMint,
    InvalidRecipientAccount,
    AccountFrozen,
    InsufficientEscrowFunds,
    InvalidFamilyCounter,
    UnexpectedAuthorityModule,
    InvalidCustodyKind,
    InsufficientRewardFunds,
    InvalidClaimAuthorization,
    ArithmeticOverflow,
}

/// The escrow record of one asset.
#[derive(Clone, Copy, Debug, PartialEq, Eq)]
pub struct CustodyRecord {
    pub id: Key,
    pub mint: Key,
    pub held_quantity: u64,
    pub kind: CustodyKind,
    pub invalidation_policy: InvalidationPolicy,
    pub claim_authorization_required: bool,
    pub state: RecordState,
    pub state_changed_at: i64,
    pub recipient_account: Option<Key>,
    pub claim_count: u64,
    pub lamports: u64,
}

/// A token account of the asset ledger.
#[derive(Clone, Copy, Debug, PartialEq, Eq)]
pub struct AssetAccount {
    pub id: Key,
    pub owner: Key,
    pub mint: Key,
    pub amount: u64,
    pub delegate: Option<Key>,
    pub delegated_amount: u64,
    pub frozen: bool,
}

/// The counter shared by the records of one asset family.
#[derive(Clone, Copy, Debug, PartialEq, Eq)]
pub struct FamilyCounter {
    pub id: Key,
    pub managed_record_count: u64,
}

/// A one-time token that allows one recipient to claim one record in one cycle.
#[derive(Clone, Copy, Debug, PartialEq, Eq)]
pub struct ClaimAuthorization {
    pub target_recipient: Key,
    pub for_custody_record: Key,
    pub issued_for_claim_count: u64,
    pub lamports: u64,
}

/// The signer who claims, with the lamports it can pay from.
#[derive(Clone, Copy, Debug, PartialEq, Eq)]
pub struct Recipient {
    pub id: Key,
    pub lamports: u64,
}

/// Everything a claim reads or changes.
///
/// `program_id` is the program under which the family counter's address is
/// derived; `authority_module` is the module that the caller handed in as the
/// edition registry.
#[derive(Clone, Copy, Debug, PartialEq, Eq)]
pub struct ClaimCtx {
    pub record: CustodyRecord,
    pub escrow: AssetAccount,
    pub mint: Key,
    pub recipient: Recipient,
    pub recipient_account: AssetAccount,
    pub program_id: Key,
    pub family_counter: Option<FamilyCounter>,
    pub authority_module: Option<Key>,
    pub authorization: Option<ClaimAuthorization>,
}

/// An action on a collaborator that a successful claim asks the host to perform,
/// in order.
#[derive(Clone, Copy, Debug, PartialEq, Eq, Structural)]
pub enum Effect {
    /// Move `amount` units from the escrow account to the recipient's account,
    /// signed by the record.
    Transfer { amount: u64 },
    /// Make the record delegate of the recipient's account for `amount` units,
    /// signed by the recipient.
    ApproveDelegate { amount: u64 },
    /// Freeze the recipient's account, signed by the family counter.
    FreezeWithFamilyCounter,
    /// Ask the edition registry to freeze the recipient's account, signed by the record.
    FreezeEdition,
    /// Pay `lamports` from the recipient to the record.
    PayReward { lamports: u64 },
    /// Close the claim authorization, its lamports going to the record.
    CloseAuthorization,
}

impl CustodyKind {
    pub open spec fn tag_kind(tag: u8) -> Option<CustodyKind> {
        if tag == 1 {
            Some(CustodyKind::Unmanaged)
        } else if tag == 2 {
            Some(CustodyKind::Managed)
        } else if tag == 3 {
            Some(CustodyKind::Edition)
        } else if tag == 4 {
            Some(CustodyKind::Permissioned)
        } else {
            None
        }
    }

    /// Reads a kind from the tag that a stored record holds.
    pub fn from_tag(tag: u8) -> (r: Result<CustodyKind, ClaimError>)
        ensures
            match Self::tag_kind(tag) {
                Some(k) => r == Ok::<CustodyKind, ClaimError>(k),
                None => r == Err::<CustodyKind, ClaimError>(ClaimError::InvalidCustodyKind),
            },
    {
        if tag == 1 {
            Ok(CustodyKind::Unmanaged)
        } else if tag == 2 {
            Ok(CustodyKind::Managed)
        } else if tag == 3 {
            Ok(CustodyKind::Edition)
        } else if tag == 4 {
            Ok(CustodyKind::Permissioned)
        } else {
            Err(ClaimError::InvalidCustodyKind)
        }
    }

    /// Kinds whose claim counts the record in its family counter.
    pub open spec fn uses_family_counter(self) -> bool {
        self == CustodyKind::Managed || self == CustodyKind::Permissioned
    }

    /// Kinds whose claim makes the record delegate of the recipient's account.
    pub open spec fn takes_delegate(self) -> bool {
        self == CustodyKind::Managed || self == CustodyKind::Edition
    }

    /// Kinds whose claim freezes the recipient's account.
    pub open spec fn freezes(self) -> bool {
        self != CustodyKind::Unmanaged
    }
}

impl InvalidationPolicy {
    /// Policies under which the recipient pays the invalidation reward.
    pub open spec fn pays_reward(self) -> bool {
        self == InvalidationPolicy::Reissue || self == InvalidationPolicy::Invalidate
    }
}

} // verus!
