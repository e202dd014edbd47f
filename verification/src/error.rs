//! The ways an operation on a wallet can be refused.

use vstd::prelude::*;

verus! {

/// Why an operation was refused. A refused operation changes nothing.
#[derive(Clone, Copy, Debug, PartialEq, Eq, Structural)]
pub enum WalletError {
    /// A spend or an execution was attempted while the wallet is frozen.
    WalletFrozen,
    /// The transfer would take the day's spending above the daily limit.
    DailyLimitExceeded,
    /// Fewer signatures were supplied than the guardian threshold.
    InsufficientSignatures,
    /// The guardian registry already holds its maximum number of records.
    TooManyGuardians,
    /// The guardian named is not active.
    GuardianInactive,
    /// A recovery was initiated while another is outstanding.
    RecoveryAlreadyPending,
    /// A recovery was approved or executed while none is outstanding.
    NoRecoveryPending,
    /// Fewer guardians approved the recovery than the guardian threshold.
    InsufficientApprovals,
    /// The recovery delay has not elapsed since the recovery was initiated.
    RecoveryDelayNotMet,
    /// The threshold signature does not endorse the instruction.
    InvalidSignature,
    /// The caller is not the authority or the guardian that the operation asks for.
    Unauthorized,
    /// The wallet was configured with a guardian threshold of zero.
    InvalidConfig,
}

impl WalletError {
    /// The message shown for the error.
    pub fn message(&self) -> (text: &'static str)
        ensures
            text@ == match *self {
                WalletError::WalletFrozen => "Wallet is frozen"@,
                WalletError::DailyLimitExceeded => "Daily spending limit exceeded"@,
                WalletError::InsufficientSignatures => "Insufficient signatures"@,
                WalletError::TooManyGuardians => "Too many guardians (max 7)"@,
                WalletError::GuardianInactive => "Guardian is inactive"@,
                WalletError::RecoveryAlreadyPending => "Recovery already pending"@,
                WalletError::NoRecoveryPending => "No recovery pending"@,
                WalletError::InsufficientApprovals => "Insufficient guardian approvals"@,
                WalletError::RecoveryDelayNotMet => "Recovery delay not met"@,
                WalletError::InvalidSignature => "Invalid signature"@,
                WalletError::Unauthorized => "Unauthorized"@,
                WalletError::InvalidConfig => "Invalid configuration"@,
            },
    {
        match self {
            WalletError::WalletFrozen => "Wallet is frozen",
            WalletError::DailyLimitExceeded => "Daily spending limit exceeded",
            WalletError::InsufficientSignatures => "Insufficient signatures",
            WalletError::TooManyGuardians => "Too many guardians (max 7)",
            WalletError::GuardianInactive => "Guardian is inactive",
            WalletError::RecoveryAlreadyPending => "Recovery already pending",
            WalletError::NoRecoveryPending => "No recovery pending",
            WalletError::InsufficientApprovals => "Insufficient guardian approvals",
            WalletError::RecoveryDelayNotMet => "Recovery delay not met",
            WalletError::InvalidSignature => "Invalid signature",
            WalletError::Unauthorized => "Unauthorized",
            WalletError::InvalidConfig => "Invalid configuration",
        }
    }
}

} // verus!
