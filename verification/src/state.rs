//! The wallet aggregate: its records, their mathematical model, and what
//! holds of every wallet between operations.

use vstd::prelude::*;
use crate::keys::Pubkey;
use crate::registry::active_slots;

verus! {

/// The most guardian records a wallet ever holds. Records are never removed,
/// so this also bounds how many guardians can be added over a wallet's life.
pub const MAX_GUARDIANS: usize = 7;

/// What kind of party a guardian is. Informational only.
#[derive(Clone, Copy, Debug, PartialEq, Eq, Structural)]
pub enum GuardianType {
    Email,
    Phone,
    Wallet,
    Hardware,
    Institution,
}

impl Default for GuardianType {
    fn default() -> (kind: GuardianType)
        ensures
            kind == GuardianType::Wallet,
    {
        GuardianType::Wallet
    }
}

/// One record of the guardian registry. The record's position in the registry
/// is the guardian's slot, which identifies the guardian for good.
#[derive(Clone, Copy, Debug, PartialEq, Eq)]
pub struct Guardian {
    /// Identifier of the wallet that the guardian protects.
    pub wallet: [u8; 32],
    /// The guardian's verification key.
    pub pubkey: Pubkey,
    pub guardian_type: GuardianType,
    /// Time at which the guardian was added, in seconds.
    pub added_at: i64,
    /// Whether the guardian still counts toward a quorum.
    pub is_active: bool,
}

/// The recovery that is outstanding on a wallet.
#[derive(Clone, Debug, PartialEq, Eq)]
pub struct PendingRecovery {
    /// The key that becomes the authority when the recovery is executed.
    pub new_authority: Pubkey,
    /// Time at which the recovery was initiated, in seconds.
    pub initiated_at: i64,
    /// Slots of the guardians that approved, each at most once.
    pub approving_guardians: Vec<u8>,
    pub executed: bool,
}

/// A smart wallet with its guardian registry and its recovery slot.
#[derive(Clone, Debug, PartialEq, Eq)]
pub struct SmartWallet {
    /// The platform user that the wallet belongs to.
    pub owner: Pubkey,
    pub wallet_id: [u8; 32],
    /// The key that currently signs for the wallet.
    pub authority: Pubkey,
    /// Number of guardians whose approval a quorum takes.
    pub guardian_threshold: u8,
    /// Number of active guardians.
    pub guardian_count: u8,
    pub daily_limit: u64,
    /// Amount spent on day `last_reset_day`.
    pub daily_spent: u64,
    /// Day on which `daily_spent` was last started from zero.
    pub last_reset_day: i64,
    /// Seconds that must pass between initiating and executing a recovery.
    pub recovery_delay: i64,
    pub pending_recovery: Option<PendingRecovery>,
    /// Number of transitions committed so far.
    pub nonce: u64,
    pub is_frozen: bool,
    /// The guardian registry, by slot.
    pub guardians: Vec<Guardian>,
}

/// Model of a pending recovery: the approvals form a set of slots.
pub struct RecoveryView {
    pub new_authority: Pubkey,
    pub initiated_at: int,
    pub approving_guardians: Set<u8>,
    pub executed: bool,
}

/// Model of a wallet: unbounded counters, the registry as a sequence.
pub struct WalletView {
    pub owner: Pubkey,
    pub wallet_id: [u8; 32],
    pub authority: Pubkey,
    pub guardian_threshold: nat,
    pub guardian_count: nat,
    pub daily_limit: nat,
    pub daily_spent: nat,
    pub last_reset_day: int,
    pub recovery_delay: int,
    pub pending_recovery: Option<RecoveryView>,
    pub nonce: nat,
    pub is_frozen: bool,
    pub guardians: Seq<Guardian>,
}

impl View for PendingRecovery {
    type V = RecoveryView;

    open spec fn view(&self) -> RecoveryView {
        RecoveryView {
            new_authority: self.new_authority,
            initiated_at: self.initiated_at as int,
            approving_guardians: self.approving_guardians@.to_set(),
            executed: self.executed,
        }
    }
}

impl View for SmartWallet {
    type V = WalletView;

    open spec fn view(&self) -> WalletView {
        WalletView {
            owner: self.owner,
            wallet_id: self.wallet_id,
            authority: self.authority,
            guardian_threshold: self.guardian_threshold as nat,
            guardian_count: self.guardian_count as nat,
            daily_limit: self.daily_limit as nat,
            daily_spent: self.daily_spent as nat,
            last_reset_day: self.last_reset_day as int,
            recovery_delay: self.recovery_delay as int,
            pending_recovery: match self.pending_recovery {
                Some(recovery) => Some(recovery@),
                None => None,
            },
            nonce: self.nonce as nat,
            is_frozen: self.is_frozen,
            guardians: self.guardians@,
        }
    }
}

impl RecoveryView {
    /// The approvals are finitely many slots of a registry with `slots`
    /// records, and the recovery has not been executed.
    pub open spec fn inv(self, slots: nat) -> bool {
        &&& self.approving_guardians.finite()
        &&& forall|slot: u8| self.approving_guardians.contains(slot) ==> slot < slots
        &&& !self.executed
    }

    /// Number of distinct guardians that approved.
    pub open spec fn approvals(self) -> nat {
        self.approving_guardians.len()
    }
}

impl WalletView {
    /// What holds of a wallet between operations.
    pub open spec fn inv(self) -> bool {
        &&& 0 < self.guardian_threshold
        &&& self.guardians.len() <= MAX_GUARDIANS
        &&& self.guardian_count == active_slots(self.guardians).len()
        &&& forall|slot: int|
            0 <= slot < self.guardians.len() ==> (#[trigger] self.guardians[slot]).wallet
                == self.wallet_id
        &&& self.pending_recovery matches Some(recovery) ==> recovery.inv(self.guardians.len())
    }
}

impl PendingRecovery {
    /// No slot is recorded twice, and the model is sound for `slots` records.
    pub open spec fn wf(&self, slots: nat) -> bool {
        &&& self.approving_guardians@.no_duplicates()
        &&& self@.inv(slots)
    }
}

impl SmartWallet {
    /// The wallet is one that operations can work on: its model satisfies
    /// [`WalletView::inv`] and its approvals are recorded without repetition.
    pub open spec fn wf(&self) -> bool {
        &&& self@.inv()
        &&& self.pending_recovery matches Some(recovery) ==> recovery.wf(self.guardians@.len())
    }
}

} // verus!
