//! Social recovery: guardians propose a new authority, approve the proposal
//! one by one, and the proposal takes effect once a quorum has approved and
//! the recovery delay has passed.

use vstd::prelude::*;
use crate::error::WalletError;
use crate::events::{RecoveryApproved, RecoveryExecuted, RecoveryInitiated};
use crate::keys::Pubkey;
use crate::state::{PendingRecovery, RecoveryView, SmartWallet, WalletView};

verus! {

/// Whether `signer` is the key of the guardian registered in `slot`.
pub open spec fn holds_slot(wallet: WalletView, slot: u8, signer: Pubkey) -> bool {
    slot < wallet.guardians.len() && wallet.guardians[slot as int].pubkey == signer
}

/// Earliest instant at which a recovery initiated at `initiated_at` can be
/// executed, kept within the range of the clock.
pub open spec fn executable_at(initiated_at: int, recovery_delay: int) -> int {
    let instant = initiated_at + recovery_delay;
    if instant > i64::MAX {
        i64::MAX as int
    } else if instant < i64::MIN {
        i64::MIN as int
    } else {
        instant
    }
}

/// The transition of initiating a recovery toward `new_authority`.
///
/// Refused while a recovery is outstanding; then unless `signer` is the
/// guardian in `slot`; then unless that guardian is active. The new recovery
/// has no approvals yet: the initiator approves like everybody else.
pub open spec fn initiate_recovery_step(
    wallet: WalletView,
    slot: u8,
    signer: Pubkey,
    new_authority: Pubkey,
    now: int,
) -> Result<WalletView, WalletError> {
    if wallet.pending_recovery is Some {
        Err(WalletError::RecoveryAlreadyPending)
    } else if !holds_slot(wallet, slot, signer) {
        Err(WalletError::Unauthorized)
    } else if !wallet.guardians[slot as int].is_active {
        Err(WalletError::GuardianInactive)
    } else {
        Ok(
            WalletView {
                pending_recovery: Some(
                    RecoveryView {
                        new_authority,
                        initiated_at: now,
                        approving_guardians: Set::empty(),
                        executed: false,
                    },
                ),
                nonce: wallet.nonce + 1,
                ..wallet
            },
        )
    }
}

/// The transition of the guardian in `slot` approving the pending recovery.
///
/// Refused when no recovery is outstanding; then unless `signer` is the
/// guardian in `slot`; then unless that guardian is active. A guardian that
/// has approved already is accepted again and nothing changes, the nonce
/// included; otherwise its slot joins the approvals.
pub open spec fn approve_recovery_step(wallet: WalletView, slot: u8, signer: Pubkey) -> Result<
    WalletView,
    WalletError,
> {
    match wallet.pending_recovery {
        None => Err(WalletError::NoRecoveryPending),
        Some(recovery) => {
            if !holds_slot(wallet, slot, signer) {
                Err(WalletError::Unauthorized)
            } else if !wallet.guardians[slot as int].is_active {
                Err(WalletError::GuardianInactive)
            } else if recovery.approving_guardians.contains(slot) {
                Ok(wallet)
            } else {
                Ok(
                    WalletView {
                        pending_recovery: Some(
                            RecoveryView {
                                approving_guardians: recovery.approving_guardians.insert(slot),
                                ..recovery
                            },
                        ),
                        nonce: wallet.nonce + 1,
                        ..wallet
                    },
                )
            }
        },
    }
}

/// Whether enough distinct guardians have approved `recovery`.
pub open spec fn quorum_met(wallet: WalletView, recovery: RecoveryView) -> bool {
    recovery.approvals() >= wallet.guardian_threshold
}

/// Whether the recovery delay has passed at `now`.
pub open spec fn delay_met(wallet: WalletView, recovery: RecoveryView, now: int) -> bool {
    now >= recovery.initiated_at + wallet.recovery_delay
}

/// The transition of executing the pending recovery at `now`.
///
/// Anybody may ask. Refused when no recovery is outstanding; then when the
/// quorum is not met; then when the delay has not passed. Otherwise the
/// proposed key becomes the authority and the recovery slot is free again.
pub open spec fn execute_recovery_step(wallet: WalletView, now: int) -> Result<
    WalletView,
    WalletError,
> {
    match wallet.pending_recovery {
        None => Err(WalletError::NoRecoveryPending),
        Some(recovery) => {
            if !quorum_met(wallet, recovery) {
                Err(WalletError::InsufficientApprovals)
            } else if !delay_met(wallet, recovery, now) {
                Err(WalletError::RecoveryDelayNotMet)
            } else {
                Ok(
                    WalletView {
                        authority: recovery.new_authority,
                        pending_recovery: None,
                        nonce: wallet.nonce + 1,
                        ..wallet
                    },
                )
            }
        },
    }
}

/// A finite set of slots below `bound` has at most `bound` members.
pub proof fn lemma_slots_below(slots: Set<u8>, bound: nat)
    requires
        slots.finite(),
        forall|slot: u8| slots.contains(slot) ==> slot < bound,
    ensures
        slots.len() <= bound,
    decreases bound,
{
    if bound == 0 {
        assert(slots =~= Set::empty());
    } else if bound > 256 {
        lemma_slots_below(slots, (bound - 1) as nat);
    } else {
        let top = (bound - 1) as u8;
        lemma_slots_below(slots.remove(top), (bound - 1) as nat);
    }
}

/// Whether `slot` is among `slots`.
pub fn slot_recorded(slots: &Vec<u8>, slot: u8) -> (found: bool)
    ensures
        found == slots@.contains(slot),
{
    let mut i: usize = 0;
    while i < slots.len()
        invariant
            i <= slots.len(),
            forall|j: int| 0 <= j < i ==> slots[j] != slot,
        decreases slots.len() - i,
    {
        if slots[i] == slot {
            return true;
        }
        i += 1;
    }
    false
}

/// The instant `initiated_at + recovery_delay`, kept within the range of the
/// clock.
pub fn earliest_execution(initiated_at: i64, recovery_delay: i64) -> (instant: i64)
    ensures
        instant == executable_at(initiated_at as int, recovery_delay as int),
{
    let sum: i128 = initiated_at as i128 + recovery_delay as i128;
    if sum > i64::MAX as i128 {
        i64::MAX
    } else if sum < i64::MIN as i128 {
        i64::MIN
    } else {
        sum as i64
    }
}

/// Opens a recovery toward `new_authority` on behalf of the guardian in
/// `slot`. A frozen wallet can be recovered like any other.
pub fn initiate_recovery(
    wallet: &mut SmartWallet,
    slot: u8,
    signer: &Pubkey,
    new_authority: Pubkey,
    now: i64,
) -> (result: Result<RecoveryInitiated, WalletError>)
    requires
        old(wallet).wf(),
        old(wallet).nonce < u64::MAX,
    ensures
        final(wallet).wf(),
        match result {
            Ok(event) => {
                &&& initiate_recovery_step(old(wallet)@, slot, *signer, new_authority, now as int)
                    == Ok::<WalletView, WalletError>(final(wallet)@)
                &&& event == (RecoveryInitiated {
                    wallet_id: old(wallet).wallet_id,
                    new_authority,
                    executable_at: executable_at(
                        now as int,
                        old(wallet).recovery_delay as int,
                    ) as i64,
                    nonce: final(wallet).nonce,
                })
            },
            Err(error) => {
                &&& initiate_recovery_step(old(wallet)@, slot, *signer, new_authority, now as int)
                    == Err::<WalletView, WalletError>(error)
                &&& *final(wallet) == *old(wallet)
            },
        },
{
    if wallet.pending_recovery.is_some() {
        return Err(WalletError::RecoveryAlreadyPending);
    }
    let index = slot as usize;
    if index >= wallet.guardians.len() || wallet.guardians[index].pubkey != *signer {
        return Err(WalletError::Unauthorized);
    }
    if !wallet.guardians[index].is_active {
        return Err(WalletError::GuardianInactive);
    }
    let recovery = PendingRecovery {
        new_authority,
        initiated_at: now,
        approving_guardians: Vec::new(),
        executed: false,
    };
    assert(recovery@.approving_guardians =~= Set::empty());
    wallet.pending_recovery = Some(recovery);
    wallet.nonce = wallet.nonce + 1;
    Ok(
        RecoveryInitiated {
            wallet_id: wallet.wallet_id,
            new_authority,
            executable_at: earliest_execution(now, wallet.recovery_delay),
            nonce: wallet.nonce,
        },
    )
}

/// Records the approval of the guardian in `slot` for the pending recovery.
/// Approving again is accepted and changes nothing.
pub fn approve_recovery(wallet: &mut SmartWallet, slot: u8, signer: &Pubkey) -> (result: Result<
    RecoveryApproved,
    WalletError,
>)
    requires
        old(wallet).wf(),
        old(wallet).nonce < u64::MAX,
    ensures
        final(wallet).wf(),
        match result {
            Ok(event) => {
                &&& approve_recovery_step(old(wallet)@, slot, *signer) == Ok::<
                    WalletView,
                    WalletError,
                >(final(wallet)@)
                &&& old(wallet)@.pending_recovery.unwrap().approving_guardians.contains(slot)
                    ==> *final(wallet) == *old(wallet)
                &&& final(wallet)@.pending_recovery is Some
                &&& event == (RecoveryApproved {
                    wallet_id: old(wallet).wallet_id,
                    guardian: *signer,
                    total_approvals: final(wallet)@.pending_recovery.unwrap().approvals() as u8,
                    nonce: final(wallet).nonce,
                })
            },
            Err(error) => {
                &&& approve_recovery_step(old(wallet)@, slot, *signer) == Err::<
                    WalletView,
                    WalletError,
                >(error)
                &&& *final(wallet) == *old(wallet)
            },
        },
{
    if wallet.pending_recovery.is_none() {
        return Err(WalletError::NoRecoveryPending);
    }
    let index = slot as usize;
    if index >= wallet.guardians.len() || wallet.guardians[index].pubkey != *signer {
        return Err(WalletError::Unauthorized);
    }
    if !wallet.guardians[index].is_active {
        return Err(WalletError::GuardianInactive);
    }
    let ghost registered = wallet.guardians@.len();
    let mut fresh = false;
    let mut total: usize = 0;
    match &mut wallet.pending_recovery {
        Some(recovery) => {
            let ghost before = recovery.approving_guardians@;
            if !slot_recorded(&recovery.approving_guardians, slot) {
                recovery.approving_guardians.push(slot);
                fresh = true;
                proof {
                    before.lemma_push_to_set_commute(slot);
                }
            }
            total = recovery.approving_guardians.len();
            proof {
                recovery.approving_guardians@.unique_seq_to_set();
                lemma_slots_below(recovery.approving_guardians@.to_set(), registered);
            }
        },
        None => {},
    }
    if fresh {
        wallet.nonce = wallet.nonce + 1;
    }
    Ok(
        RecoveryApproved {
            wallet_id: wallet.wallet_id,
            guardian: *signer,
            total_approvals: total as u8,
            nonce: wallet.nonce,
        },
    )
}

/// Replaces the authority by the key that the pending recovery proposes,
/// provided a quorum has approved and the delay has passed.
pub fn execute_recovery(wallet: &mut SmartWallet, now: i64) -> (result: Result<
    RecoveryExecuted,
    WalletError,
>)
    requires
        old(wallet).wf(),
        old(wallet).nonce < u64::MAX,
    ensures
        final(wallet).wf(),
        result is Ok <==> (old(wallet)@.pending_recovery matches Some(recovery) && quorum_met(
            old(wallet)@,
            recovery,
        ) && delay_met(old(wallet)@, recovery, now as int)),
        match result {
            Ok(event) => {
                &&& execute_recovery_step(old(wallet)@, now as int) == Ok::<
                    WalletView,
                    WalletError,
                >(final(wallet)@)
                &&& event == (RecoveryExecuted {
                    wallet_id: old(wallet).wallet_id,
                    new_authority: final(wallet).authority,
                    nonce: final(wallet).nonce,
                })
            },
            Err(error) => {
                &&& execute_recovery_step(old(wallet)@, now as int) == Err::<
                    WalletView,
                    WalletError,
                >(error)
                &&& *final(wallet) == *old(wallet)
            },
        },
{
    let (approvals, initiated_at, new_authority) = match &wallet.pending_recovery {
        None => {
            return Err(WalletError::NoRecoveryPending);
        },
        Some(recovery) => {
            proof {
                recovery.approving_guardians@.unique_seq_to_set();
            }
            (recovery.approving_guardians.len(), recovery.initiated_at, recovery.new_authority)
        },
    };
    if approvals < wallet.guardian_threshold as usize {
        return Err(WalletError::InsufficientApprovals);
    }
    if (now as i128) < initiated_at as i128 + wallet.recovery_delay as i128 {
        return Err(WalletError::RecoveryDelayNotMet);
    }
    wallet.authority = new_authority;
    wallet.pending_recovery = None;
    wallet.nonce = wallet.nonce + 1;
    Ok(RecoveryExecuted { wallet_id: wallet.wallet_id, new_authority, nonce: wallet.nonce })
}

} // verus!
