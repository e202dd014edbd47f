//! The notification that each committed transition hands back to its caller.
//! Every event names the wallet by its identifier, and all but the first
//! carry the wallet's nonce after the transition.

use vstd::prelude::*;
use crate::keys::Pubkey;
use crate::state::GuardianType;

verus! {

/// A wallet was created.
#[derive(Clone, Copy, Debug, PartialEq, Eq)]
pub struct WalletInitialized {
    pub wallet_id: [u8; 32],
    pub owner: Pubkey,
}

/// A guardian was added to the registry.
#[derive(Clone, Copy, Debug, PartialEq, Eq)]
pub struct GuardianAdded {
    pub wallet_id: [u8; 32],
    pub guardian: Pubkey,
    pub guardian_type: GuardianType,
    /// The slot that identifies the guardian from now on.
    pub slot: u8,
    pub nonce: u64,
}

/// A guardian stopped counting toward quorums.
#[derive(Clone, Copy, Debug, PartialEq, Eq)]
pub struct GuardianDeactivated {
    pub wallet_id: [u8; 32],
    pub guardian: Pubkey,
    pub nonce: u64,
}

/// A transfer was approved and counted against the daily limit.
#[derive(Clone, Copy, Debug, PartialEq, Eq)]
pub struct TransferExecuted {
    pub wallet_id: [u8; 32],
    pub to: Pubkey,
    pub amount: u64,
    pub nonce: u64,
}

/// An instruction was approved for execution.
#[derive(Clone, Copy, Debug, PartialEq, Eq)]
pub struct TransactionExecuted {
    pub wallet_id: [u8; 32],
    pub instruction_hash: [u8; 32],
    pub nonce: u64,
}

/// A recovery was initiated.
#[derive(Clone, Copy, Debug, PartialEq, Eq)]
pub struct RecoveryInitiated {
    pub wallet_id: [u8; 32],
    pub new_authority: Pubkey,
    /// Earliest time at which the recovery can be executed, kept within the
    /// range of the clock.
    pub executable_at: i64,
    pub nonce: u64,
}

/// A guardian approved the pending recovery.
#[derive(Clone, Copy, Debug, PartialEq, Eq)]
pub struct RecoveryApproved {
    pub wallet_id: [u8; 32],
    pub guardian: Pubkey,
    /// Number of distinct guardians that have approved so far.
    pub total_approvals: u8,
    pub nonce: u64,
}

/// The pending recovery was executed and the authority replaced.
#[derive(Clone, Copy, Debug, PartialEq, Eq)]
pub struct RecoveryExecuted {
    pub wallet_id: [u8; 32],
    pub new_authority: Pubkey,
    pub nonce: u64,
}

/// The wallet was frozen.
#[derive(Clone, Copy, Debug, PartialEq, Eq)]
pub struct WalletFrozen {
    pub wallet_id: [u8; 32],
    pub frozen_by: Pubkey,
    pub nonce: u64,
}

/// The wallet was unfrozen by a quorum of guardians.
#[derive(Clone, Copy, Debug, PartialEq, Eq)]
pub struct WalletUnfrozen {
    pub wallet_id: [u8; 32],
    pub nonce: u64,
}

/// The daily limit was replaced.
#[derive(Clone, Copy, Debug, PartialEq, Eq)]
pub struct LimitUpdated {
    pub wallet_id: [u8; 32],
    pub new_limit: u64,
    pub nonce: u64,
}

} // verus!
