//! What holds of whole histories of operations. Everything here is stated
//! over the transition functions that the operations' contracts use, so it
//! holds of every wallet that is only ever changed through them.

use vstd::prelude::*;
use crate::error::WalletError;
use crate::gate::{execute_transaction_step, freeze_step, unfreeze_step};
use crate::keys::Pubkey;
use crate::recovery::{
    approve_recovery_step,
    delay_met,
    execute_recovery_step,
    initiate_recovery_step,
    quorum_met,
};
use crate::registry::{
    add_guardian_step,
    deactivate_guardian_step,
    lemma_slots_bounded,
    lemma_slots_push,
    lemma_slots_update,
    new_guardian,
};
use crate::spend::{day_of, spent_on, transfer_step, update_limit_step};
use crate::state::{Guardian, GuardianType, WalletView, MAX_GUARDIANS};

verus! {

/// A request to a wallet, with all that its outcome depends on.
pub enum Operation {
    AddGuardian { signer: Pubkey, pubkey: Pubkey, guardian_type: GuardianType, added_at: i64 },
    DeactivateGuardian { signer: Pubkey, slot: u8 },
    Transfer { signer: Pubkey, amount: nat, now: int },
    /// `accepted` is the verdict on the threshold signature.
    ExecuteTransaction { signer: Pubkey, signatures: nat, accepted: bool },
    InitiateRecovery { slot: u8, signer: Pubkey, new_authority: Pubkey, now: int },
    ApproveRecovery { slot: u8, signer: Pubkey },
    ExecuteRecovery { now: int },
    Freeze { signer: Pubkey },
    Unfreeze { signers: Seq<Pubkey> },
    UpdateDailyLimit { signer: Pubkey, new_limit: nat },
}

/// The outcome of one request: the wallet after it, or why it was refused.
pub open spec fn step(wallet: WalletView, operation: Operation) -> Result<WalletView, WalletError> {
    match operation {
        Operation::AddGuardian { signer, pubkey, guardian_type, added_at } => add_guardian_step(
            wallet,
            signer,
            pubkey,
            guardian_type,
            added_at,
        ),
        Operation::DeactivateGuardian { signer, slot } => deactivate_guardian_step(
            wallet,
            signer,
            slot,
        ),
        Operation::Transfer { signer, amount, now } => transfer_step(wallet, signer, amount, now),
        Operation::ExecuteTransaction { signer, signatures, accepted } => execute_transaction_step(
            wallet,
            signer,
            signatures,
            accepted,
        ),
        Operation::InitiateRecovery { slot, signer, new_authority, now } => initiate_recovery_step(
            wallet,
            slot,
            signer,
            new_authority,
            now,
        ),
        Operation::ApproveRecovery { slot, signer } => approve_recovery_step(wallet, slot, signer),
        Operation::ExecuteRecovery { now } => execute_recovery_step(wallet, now),
        Operation::Freeze { signer } => freeze_step(wallet, signer),
        Operation::Unfreeze { signers } => unfreeze_step(wallet, signers),
        Operation::UpdateDailyLimit { signer, new_limit } => update_limit_step(
            wallet,
            signer,
            new_limit,
        ),
    }
}

/// The wallet after one request: a refused request leaves it as it was.
pub open spec fn after(wallet: WalletView, operation: Operation) -> WalletView {
    match step(wallet, operation) {
        Ok(next) => next,
        Err(_) => wallet,
    }
}

/// The wallet after a history of requests, made one after the other.
pub open spec fn run(wallet: WalletView, history: Seq<Operation>) -> WalletView
    decreases history.len(),
{
    if history.len() == 0 {
        wallet
    } else {
        after(run(wallet, history.drop_last()), history.last())
    }
}

/// Whether the request is an approval by a guardian that has approved the
/// pending recovery before.
pub open spec fn repeats_approval(wallet: WalletView, operation: Operation) -> bool {
    &&& operation matches Operation::ApproveRecovery { slot, .. }
    &&& wallet.pending_recovery matches Some(recovery)
    &&& recovery.approving_guardians.contains(slot)
}

/// Every request keeps the invariant of the wallet.
pub proof fn law_invariant_kept(wallet: WalletView, operation: Operation)
    requires
        wallet.inv(),
    ensures
        after(wallet, operation).inv(),
{
    let active = |guardian: Guardian| guardian.is_active;
    lemma_slots_bounded(wallet.guardians, active);
    match operation {
        Operation::AddGuardian { pubkey, guardian_type, added_at, .. } => {
            lemma_slots_push(
                wallet.guardians,
                new_guardian(wallet.wallet_id, pubkey, guardian_type, added_at),
                active,
            );
        },
        Operation::DeactivateGuardian { slot, .. } => {
            if step(wallet, operation) is Ok {
                let retired = Guardian { is_active: false, ..wallet.guardians[slot as int] };
                lemma_slots_update(wallet.guardians, slot as int, retired, active);
            }
        },
        _ => {},
    }
}

/// A history of requests keeps the invariant of the wallet.
pub proof fn law_invariant_kept_throughout(wallet: WalletView, history: Seq<Operation>)
    requires
        wallet.inv(),
    ensures
        run(wallet, history).inv(),
    decreases history.len(),
{
    if history.len() > 0 {
        law_invariant_kept_throughout(wallet, history.drop_last());
        law_invariant_kept(run(wallet, history.drop_last()), history.last());
    }
}

/// An accepted request moves the nonce forward by exactly one, and a request
/// that leaves the nonce where it was has changed nothing at all. The one
/// accepted request that changes nothing is a repeated approval.
pub proof fn law_nonce_counts_transitions(wallet: WalletView, operation: Operation)
    ensures
        step(wallet, operation) matches Ok(next) ==> {
            &&& !repeats_approval(wallet, operation) ==> next.nonce == wallet.nonce + 1
            &&& repeats_approval(wallet, operation) ==> next == wallet
        },
        after(wallet, operation).nonce == wallet.nonce ==> after(wallet, operation) == wallet,
        after(wallet, operation) != wallet ==> after(wallet, operation).nonce == wallet.nonce + 1,
{
}

/// Over a history the nonce never goes back, and it stays where it was only
/// if the wallet is exactly as before.
pub proof fn law_nonce_witnesses_change(wallet: WalletView, history: Seq<Operation>)
    ensures
        run(wallet, history).nonce >= wallet.nonce,
        run(wallet, history).nonce <= wallet.nonce + history.len(),
        run(wallet, history).nonce == wallet.nonce ==> run(wallet, history) == wallet,
    decreases history.len(),
{
    if history.len() > 0 {
        law_nonce_witnesses_change(wallet, history.drop_last());
        law_nonce_counts_transitions(run(wallet, history.drop_last()), history.last());
    }
}

/// Records are never removed: a request changes the length of the registry
/// only by adding a guardian, and then by one.
pub proof fn law_registry_keeps_records(wallet: WalletView, operation: Operation)
    ensures
        after(wallet, operation).guardians.len() == wallet.guardians.len() + if operation is AddGuardian
            && step(wallet, operation) is Ok {
            1nat
        } else {
            0nat
        },
{
}

/// Whether `later` is the record `earlier` with nothing changed but, at
/// most, its activity switched off.
pub open spec fn same_guardian(earlier: Guardian, later: Guardian) -> bool {
    &&& later.wallet == earlier.wallet
    &&& later.pubkey == earlier.pubkey
    &&& later.guardian_type == earlier.guardian_type
    &&& later.added_at == earlier.added_at
    &&& later.is_active ==> earlier.is_active
}

/// A guardian keeps its slot and its identity through every history: its
/// record is never moved, rewritten or reactivated.
pub proof fn law_guardians_persist(wallet: WalletView, history: Seq<Operation>, slot: int)
    requires
        0 <= slot < wallet.guardians.len(),
    ensures
        slot < run(wallet, history).guardians.len(),
        same_guardian(wallet.guardians[slot], run(wallet, history).guardians[slot]),
    decreases history.len(),
{
    if history.len() > 0 {
        law_guardians_persist(wallet, history.drop_last(), slot);
        law_registry_keeps_records(run(wallet, history.drop_last()), history.last());
    }
}

/// Once the registry holds its seven records, adding a guardian is refused
/// for being one too many, whoever asks and whatever has happened since:
/// deactivating guardians frees no slot.
pub proof fn law_registry_cap_is_final(
    wallet: WalletView,
    history: Seq<Operation>,
    signer: Pubkey,
    pubkey: Pubkey,
    guardian_type: GuardianType,
    now: i64,
)
    requires
        wallet.guardians.len() == MAX_GUARDIANS,
    ensures
        run(wallet, history).guardians.len() == MAX_GUARDIANS,
        add_guardian_step(run(wallet, history), signer, pubkey, guardian_type, now) == Err::<
            WalletView,
            WalletError,
        >(WalletError::TooManyGuardians),
    decreases history.len(),
{
    if history.len() > 0 {
        law_registry_cap_is_final(wallet, history.drop_last(), signer, pubkey, guardian_type, now);
        law_registry_keeps_records(run(wallet, history.drop_last()), history.last());
    }
}

/// A recovery is executed exactly when both its quorum and its delay are
/// met. With only the quorum missing the refusal names the approvals, with
/// only the delay missing it names the delay.
pub proof fn law_recovery_needs_quorum_and_delay(wallet: WalletView, now: int)
    requires
        wallet.pending_recovery is Some,
    ensures
        ({
            let recovery = wallet.pending_recovery.unwrap();
            let outcome = execute_recovery_step(wallet, now);
            &&& outcome is Ok <==> quorum_met(wallet, recovery) && delay_met(wallet, recovery, now)
            &&& !quorum_met(wallet, recovery) && delay_met(wallet, recovery, now) ==> outcome
                == Err::<WalletView, WalletError>(WalletError::InsufficientApprovals)
            &&& quorum_met(wallet, recovery) && !delay_met(wallet, recovery, now) ==> outcome
                == Err::<WalletView, WalletError>(WalletError::RecoveryDelayNotMet)
        }),
{
}

/// A frozen wallet refuses every transfer and every execution for being
/// frozen, while freezing and unfreezing go by the same rules frozen or not.
pub proof fn law_freeze_stops_spending_only(
    wallet: WalletView,
    signer: Pubkey,
    amount: nat,
    now: int,
    signatures: nat,
    accepted: bool,
    signers: Seq<Pubkey>,
)
    ensures
        wallet.is_frozen ==> transfer_step(wallet, signer, amount, now) == Err::<
            WalletView,
            WalletError,
        >(WalletError::WalletFrozen),
        wallet.is_frozen ==> execute_transaction_step(wallet, signer, signatures, accepted)
            == Err::<WalletView, WalletError>(WalletError::WalletFrozen),
        freeze_step(wallet, signer) is Ok <==> freeze_step(
            WalletView { is_frozen: !wallet.is_frozen, ..wallet },
            signer,
        ) is Ok,
        unfreeze_step(wallet, signers) is Ok <==> unfreeze_step(
            WalletView { is_frozen: !wallet.is_frozen, ..wallet },
            signers,
        ) is Ok,
{
}

/// The wallet after the guardian in `slot` has asked `times` times to
/// approve the pending recovery.
pub open spec fn approve_repeatedly(wallet: WalletView, slot: u8, signer: Pubkey, times: nat) -> WalletView
    decreases times,
{
    if times == 0 {
        wallet
    } else {
        after(
            approve_repeatedly(wallet, slot, signer, (times - 1) as nat),
            Operation::ApproveRecovery { slot, signer },
        )
    }
}

/// Number of approvals of the pending recovery, zero when there is none.
pub open spec fn approvals_of(wallet: WalletView) -> nat {
    match wallet.pending_recovery {
        Some(recovery) => recovery.approvals(),
        None => 0,
    }
}

/// However often a guardian approves, the wallet is as after its first
/// approval, and the guardian has added at most one to the approvals.
pub proof fn law_approval_counts_once(wallet: WalletView, slot: u8, signer: Pubkey, times: nat)
    requires
        wallet.inv(),
        times >= 1,
    ensures
        approve_repeatedly(wallet, slot, signer, times) == approve_repeatedly(
            wallet,
            slot,
            signer,
            1,
        ),
        approvals_of(approve_repeatedly(wallet, slot, signer, times)) <= approvals_of(wallet) + 1,
        approve_recovery_step(wallet, slot, signer) is Ok ==> approve_repeatedly(
            wallet,
            slot,
            signer,
            times,
        ).pending_recovery.unwrap().approving_guardians
            == wallet.pending_recovery.unwrap().approving_guardians.insert(slot),
    decreases times,
{
    let request = Operation::ApproveRecovery { slot, signer };
    let once = after(wallet, request);
    assert(approve_repeatedly(wallet, slot, signer, 0) == wallet);
    assert(approve_repeatedly(wallet, slot, signer, 1) == once);
    // After the first request the guardian is among the approvers, or the
    // request was refused for a reason that the wallet still gives: either
    // way the next request changes nothing.
    assert(after(once, request) == once) by {
        if approve_recovery_step(wallet, slot, signer) is Ok {
            let approved = wallet.pending_recovery.unwrap().approving_guardians;
            assert(once.pending_recovery.unwrap().approving_guardians =~= approved.insert(slot));
            assert(approve_recovery_step(once, slot, signer) == Ok::<WalletView, WalletError>(
                once,
            ));
        }
    }
    if times > 1 {
        law_approval_counts_once(wallet, slot, signer, (times - 1) as nat);
    }
}

/// A transfer as it is asked for.
pub struct TransferRequest {
    pub signer: Pubkey,
    pub amount: nat,
    pub now: int,
}

/// The wallet after the requests have been made one after the other.
pub open spec fn after_transfers(wallet: WalletView, requests: Seq<TransferRequest>) -> WalletView
    decreases requests.len(),
{
    if requests.len() == 0 {
        wallet
    } else {
        let first = requests.first();
        after_transfers(
            after(
                wallet,
                Operation::Transfer { signer: first.signer, amount: first.amount, now: first.now },
            ),
            requests.drop_first(),
        )
    }
}

/// The sum of the amounts of those requests that were accepted.
pub open spec fn accepted_total(wallet: WalletView, requests: Seq<TransferRequest>) -> nat
    decreases requests.len(),
{
    if requests.len() == 0 {
        0
    } else {
        let first = requests.first();
        let request = Operation::Transfer {
            signer: first.signer,
            amount: first.amount,
            now: first.now,
        };
        accepted_total(after(wallet, request), requests.drop_first()) + if step(wallet, request) is Ok {
            first.amount
        } else {
            0
        }
    }
}

/// What is left of the budget of `day`.
pub open spec fn budget_left(wallet: WalletView, day: int) -> nat {
    if spent_on(wallet, day) <= wallet.daily_limit {
        (wallet.daily_limit - spent_on(wallet, day)) as nat
    } else {
        0
    }
}

/// Transfers asked for within one day are accepted for no more in total than
/// the daily limit, and not even for more than was left of that day's budget.
/// The spending of an earlier day is dropped once, by the first transfer
/// accepted on the new day: after the requests the books show what was spent
/// on that day before them plus all that was accepted.
pub proof fn law_daily_budget_holds(wallet: WalletView, requests: Seq<TransferRequest>, day: int)
    requires
        forall|i: int| 0 <= i < requests.len() ==> day_of(#[trigger] requests[i].now) == day,
    ensures
        accepted_total(wallet, requests) <= budget_left(wallet, day),
        accepted_total(wallet, requests) <= wallet.daily_limit,
        after_transfers(wallet, requests) == wallet ==> accepted_total(wallet, requests) == 0,
        after_transfers(wallet, requests) != wallet ==> {
            &&& after_transfers(wallet, requests).daily_spent == spent_on(wallet, day)
                + accepted_total(wallet, requests)
            &&& after_transfers(wallet, requests).daily_spent <= wallet.daily_limit
            &&& after_transfers(wallet, requests).last_reset_day == if day
                > wallet.last_reset_day {
                day
            } else {
                wallet.last_reset_day
            }
        },
{
    lemma_transfers_in_one_day(wallet, requests, day);
}

/// The induction behind [`law_daily_budget_holds`], with the nonce as the
/// witness of whether anything was accepted.
proof fn lemma_transfers_in_one_day(wallet: WalletView, requests: Seq<TransferRequest>, day: int)
    requires
        forall|i: int| 0 <= i < requests.len() ==> day_of(#[trigger] requests[i].now) == day,
    ensures
        accepted_total(wallet, requests) <= budget_left(wallet, day),
        after_transfers(wallet, requests).nonce >= wallet.nonce,
        after_transfers(wallet, requests).nonce == wallet.nonce ==> {
            &&& after_transfers(wallet, requests) == wallet
            &&& accepted_total(wallet, requests) == 0
        },
        after_transfers(wallet, requests).nonce > wallet.nonce ==> {
            &&& after_transfers(wallet, requests).daily_spent == spent_on(wallet, day)
                + accepted_total(wallet, requests)
            &&& after_transfers(wallet, requests).daily_spent <= wallet.daily_limit
            &&& after_transfers(wallet, requests).daily_limit == wallet.daily_limit
            &&& after_transfers(wallet, requests).last_reset_day == if day
                > wallet.last_reset_day {
                day
            } else {
                wallet.last_reset_day
            }
        },
    decreases requests.len(),
{
    if requests.len() > 0 {
        let first = requests.first();
        let request = Operation::Transfer {
            signer: first.signer,
            amount: first.amount,
            now: first.now,
        };
        let next = after(wallet, request);
        let rest = requests.drop_first();
        assert(day_of(requests[0].now) == day);
        assert forall|i: int| 0 <= i < rest.len() implies day_of(#[trigger] rest[i].now)
            == day by {
            assert(rest[i] == requests[i + 1]);
        }
        // An accepted first request leaves `next` on `day` with its amount
        // on the books; a refused one leaves the wallet as it was.
        lemma_transfers_in_one_day(next, rest, day);
    }
}

} // verus!
