//! Authorization and recovery logic of a custodial smart wallet.
//!
//! A [`SmartWallet`] gates spending behind a daily limit, gates arbitrary
//! instructions behind a threshold signature, can be frozen by its authority,
//! and can have its authority replaced by a quorum of guardians after a delay.
//! Every operation either commits one transition and reports it as an event,
//! or fails and leaves the wallet as it was.
//!
//! The library performs no I/O and reads no clock: the caller names the
//! signer of each request and the current time, moves the tokens that a
//! transfer approves, and supplies the primitive that verifies threshold
//! signatures.
//!
//! Contracts are stated over [`WalletView`], the mathematical model of a
//! wallet, and the transition functions of each module; [`laws`] holds what
//! follows from them for whole histories of operations.
//!
//! # What the operations take for granted
//!
//! Each operation asks for a wallet that is well formed
//! ([`SmartWallet::wf`], which [`SmartWallet::is_well_formed`] tests at run
//! time) and whose nonce has not reached the end of its range, since every
//! committed transition moves the nonce forward by one.
//!
//! # Order of refusals
//!
//! A request is first held against the state of the wallet (frozen, registry
//! full, recovery slot taken or empty), then against who asks, then against
//! what is asked; the first obstacle found is the one reported.

pub mod error;
pub mod events;
pub mod gate;
pub mod keys;
pub mod laws;
pub mod lifecycle;
pub mod recovery;
pub mod registry;
pub mod spend;
pub mod state;
pub mod validate;

pub use error::WalletError;
pub use events::{
    GuardianAdded, GuardianDeactivated, LimitUpdated, RecoveryApproved, RecoveryExecuted,
    RecoveryInitiated, TransactionExecuted, TransferExecuted, WalletFrozen, WalletInitialized,
    WalletUnfrozen,
};
pub use gate::{
    authorize_execution, conclude_execution, execute_transaction, freeze_wallet, unfreeze_wallet,
};
pub use keys::Pubkey;
pub use lifecycle::initialize_wallet;
pub use recovery::{approve_recovery, execute_recovery, initiate_recovery};
pub use registry::{add_guardian, deactivate_guardian};
pub use spend::{day_index, transfer_spl, update_daily_limit, SECONDS_PER_DAY};
pub use state::{
    Guardian, GuardianType, PendingRecovery, RecoveryView, SmartWallet, WalletView, MAX_GUARDIANS,
};
