//! The guardian registry: which slots are active, which endorse a request,
//! and the operations that add and deactivate guardians.

use vstd::prelude::*;
use vstd::set_lib::*;
use crate::error::WalletError;
use crate::events::{GuardianAdded, GuardianDeactivated};
use crate::keys::Pubkey;
use crate::state::{Guardian, GuardianType, SmartWallet, WalletView, MAX_GUARDIANS};

verus! {

/// The slots of `guardians` whose record satisfies `pick`.
pub open spec fn slots_where(guardians: Seq<Guardian>, pick: spec_fn(Guardian) -> bool) -> Set<int> {
    Set::new(|slot: int| 0 <= slot < guardians.len() && pick(guardians[slot]))
}

/// The slots that hold an active guardian.
pub open spec fn active_slots(guardians: Seq<Guardian>) -> Set<int> {
    slots_where(guardians, |guardian: Guardian| guardian.is_active)
}

/// The slots that hold an active guardian whose key is among `signers`.
pub open spec fn endorsing_slots(guardians: Seq<Guardian>, signers: Seq<Pubkey>) -> Set<int> {
    slots_where(
        guardians,
        |guardian: Guardian| guardian.is_active && signers.contains(guardian.pubkey),
    )
}

/// A selection of slots is finite and no larger than the registry.
pub proof fn lemma_slots_bounded(guardians: Seq<Guardian>, pick: spec_fn(Guardian) -> bool)
    ensures
        slots_where(guardians, pick).finite(),
        slots_where(guardians, pick).len() <= guardians.len(),
{
    let all = set_int_range(0, guardians.len() as int);
    lemma_int_range(0, guardians.len() as int);
    lemma_set_subset_finite(all, slots_where(guardians, pick));
    lemma_len_subset(slots_where(guardians, pick), all);
}

/// Appending a record adds its slot to a selection exactly when it is picked.
pub proof fn lemma_slots_push(
    guardians: Seq<Guardian>,
    guardian: Guardian,
    pick: spec_fn(Guardian) -> bool,
)
    ensures
        slots_where(guardians.push(guardian), pick) == if pick(guardian) {
            slots_where(guardians, pick).insert(guardians.len() as int)
        } else {
            slots_where(guardians, pick)
        },
        slots_where(guardians.push(guardian), pick).len() == slots_where(guardians, pick).len()
            + if pick(guardian) {
            1nat
        } else {
            0nat
        },
{
    let before = slots_where(guardians, pick);
    let after = slots_where(guardians.push(guardian), pick);
    lemma_slots_bounded(guardians, pick);
    if pick(guardian) {
        assert(after =~= before.insert(guardians.len() as int));
    } else {
        assert(after =~= before);
    }
}

/// Replacing the record in one slot changes a selection in that slot only.
pub proof fn lemma_slots_update(
    guardians: Seq<Guardian>,
    slot: int,
    guardian: Guardian,
    pick: spec_fn(Guardian) -> bool,
)
    requires
        0 <= slot < guardians.len(),
    ensures
        slots_where(guardians.update(slot, guardian), pick) == if pick(guardian) {
            slots_where(guardians, pick).insert(slot)
        } else {
            slots_where(guardians, pick).remove(slot)
        },
{
}

/// The record of a guardian added to wallet `wallet_id` at `now`.
pub open spec fn new_guardian(
    wallet_id: [u8; 32],
    pubkey: Pubkey,
    guardian_type: GuardianType,
    now: i64,
) -> Guardian {
    Guardian { wallet: wallet_id, pubkey, guardian_type, added_at: now, is_active: true }
}

/// The transition of adding a guardian.
///
/// The registry keeps every record it was ever given, so it refuses once it
/// holds [`MAX_GUARDIANS`] records, whoever asks and however many of them
/// have been deactivated; then a signer other than the authority is refused.
/// The new guardian is active and takes the next free slot.
pub open spec fn add_guardian_step(
    wallet: WalletView,
    signer: Pubkey,
    pubkey: Pubkey,
    guardian_type: GuardianType,
    now: i64,
) -> Result<WalletView, WalletError> {
    if wallet.guardians.len() >= MAX_GUARDIANS {
        Err(WalletError::TooManyGuardians)
    } else if signer != wallet.authority {
        Err(WalletError::Unauthorized)
    } else {
        Ok(
            WalletView {
                guardians: wallet.guardians.push(
                    new_guardian(wallet.wallet_id, pubkey, guardian_type, now),
                ),
                guardian_count: wallet.guardian_count + 1,
                nonce: wallet.nonce + 1,
                ..wallet
            },
        )
    }
}

/// The transition of deactivating the guardian in `slot`.
///
/// Only the authority may; a slot that holds no active guardian is refused.
/// The record stays in its slot, and approvals that the guardian has already
/// given to a pending recovery stand.
pub open spec fn deactivate_guardian_step(wallet: WalletView, signer: Pubkey, slot: u8) -> Result<
    WalletView,
    WalletError,
> {
    if signer != wallet.authority {
        Err(WalletError::Unauthorized)
    } else if slot >= wallet.guardians.len() || !wallet.guardians[slot as int].is_active {
        Err(WalletError::GuardianInactive)
    } else {
        Ok(
            WalletView {
                guardians: wallet.guardians.update(
                    slot as int,
                    Guardian { is_active: false, ..wallet.guardians[slot as int] },
                ),
                guardian_count: (wallet.guardian_count - 1) as nat,
                nonce: wallet.nonce + 1,
                ..wallet
            },
        )
    }
}

/// Whether `key` is among `keys`.
pub fn key_among(key: &Pubkey, keys: &Vec<Pubkey>) -> (found: bool)
    ensures
        found == keys@.contains(*key),
{
    let mut i: usize = 0;
    while i < keys.len()
        invariant
            i <= keys.len(),
            forall|j: int| 0 <= j < i ==> keys[j] != *key,
        decreases keys.len() - i,
    {
        if keys[i] == *key {
            return true;
        }
        i += 1;
    }
    false
}

/// Number of active guardians in the registry.
pub fn count_active(guardians: &Vec<Guardian>) -> (count: usize)
    ensures
        count == active_slots(guardians@).len(),
        count <= guardians.len(),
{
    let ghost active = |guardian: Guardian| guardian.is_active;
    let mut count: usize = 0;
    let mut i: usize = 0;
    assert(slots_where(guardians@.take(0), active) =~= Set::empty());
    while i < guardians.len()
        invariant
            i <= guardians.len(),
            count <= i,
            count == slots_where(guardians@.take(i as int), active).len(),
            active == (|guardian: Guardian| guardian.is_active),
        decreases guardians.len() - i,
    {
        proof {
            lemma_slots_push(guardians@.take(i as int), guardians@[i as int], active);
            assert(guardians@.take(i as int).push(guardians@[i as int]) =~= guardians@.take(
                i as int + 1,
            ));
        }
        if guardians[i].is_active {
            count += 1;
        }
        i += 1;
    }
    assert(guardians@.take(i as int) =~= guardians@);
    count
}

/// Number of active guardians whose key is among `signers`. A guardian counts
/// once however often its key occurs among the signers.
pub fn count_endorsing(guardians: &Vec<Guardian>, signers: &Vec<Pubkey>) -> (count: usize)
    ensures
        count == endorsing_slots(guardians@, signers@).len(),
        count <= guardians.len(),
{
    let ghost endorsing = |guardian: Guardian|
        guardian.is_active && signers@.contains(guardian.pubkey);
    let mut count: usize = 0;
    let mut i: usize = 0;
    assert(slots_where(guardians@.take(0), endorsing) =~= Set::empty());
    while i < guardians.len()
        invariant
            i <= guardians.len(),
            count <= i,
            count == slots_where(guardians@.take(i as int), endorsing).len(),
            endorsing == (|guardian: Guardian|
                guardian.is_active && signers@.contains(guardian.pubkey)),
        decreases guardians.len() - i,
    {
        proof {
            lemma_slots_push(guardians@.take(i as int), guardians@[i as int], endorsing);
            assert(guardians@.take(i as int).push(guardians@[i as int]) =~= guardians@.take(
                i as int + 1,
            ));
        }
        if guardians[i].is_active && key_among(&guardians[i].pubkey, signers) {
            count += 1;
        }
        i += 1;
    }
    assert(guardians@.take(i as int) =~= guardians@);
    count
}

/// Adds an active guardian with key `guardian_pubkey` in the next free slot.
///
/// A wallet whose threshold is above its number of active guardians cannot
/// reach a quorum: guardians have to be added until
/// [`SmartWallet::quorum_reachable`] holds.
pub fn add_guardian(
    wallet: &mut SmartWallet,
    signer: &Pubkey,
    guardian_pubkey: Pubkey,
    guardian_type: GuardianType,
    now: i64,
) -> (result: Result<GuardianAdded, WalletError>)
    requires
        old(wallet).wf(),
        old(wallet).nonce < u64::MAX,
    ensures
        final(wallet).wf(),
        old(wallet).guardian_count == MAX_GUARDIANS ==> result == Err::<
            GuardianAdded,
            WalletError,
        >(WalletError::TooManyGuardians),
        match result {
            Ok(event) => {
                &&& add_guardian_step(old(wallet)@, *signer, guardian_pubkey, guardian_type, now)
                    == Ok::<WalletView, WalletError>(final(wallet)@)
                &&& event == (GuardianAdded {
                    wallet_id: old(wallet).wallet_id,
                    guardian: guardian_pubkey,
                    guardian_type,
                    slot: old(wallet).guardians@.len() as u8,
                    nonce: final(wallet).nonce,
                })
            },
            Err(error) => {
                &&& add_guardian_step(old(wallet)@, *signer, guardian_pubkey, guardian_type, now)
                    == Err::<WalletView, WalletError>(error)
                &&& *final(wallet) == *old(wallet)
            },
        },
{
    proof {
        lemma_slots_bounded(wallet.guardians@, |guardian: Guardian| guardian.is_active);
    }
    if wallet.guardians.len() >= MAX_GUARDIANS {
        return Err(WalletError::TooManyGuardians);
    }
    if *signer != wallet.authority {
        return Err(WalletError::Unauthorized);
    }
    let slot = wallet.guardians.len() as u8;
    let record = Guardian {
        wallet: wallet.wallet_id,
        pubkey: guardian_pubkey,
        guardian_type,
        added_at: now,
        is_active: true,
    };
    proof {
        lemma_slots_push(wallet.guardians@, record, |guardian: Guardian| guardian.is_active);
    }
    wallet.guardians.push(record);
    wallet.guardian_count = wallet.guardian_count + 1;
    wallet.nonce = wallet.nonce + 1;
    Ok(
        GuardianAdded {
            wallet_id: wallet.wallet_id,
            guardian: guardian_pubkey,
            guardian_type,
            slot,
            nonce: wallet.nonce,
        },
    )
}

/// Deactivates the guardian in `slot`: it no longer counts toward quorums,
/// and its record is kept.
///
/// Deactivating may leave fewer active guardians than the threshold; until
/// guardians are added again no quorum can be reached.
pub fn deactivate_guardian(wallet: &mut SmartWallet, signer: &Pubkey, slot: u8) -> (result: Result<
    GuardianDeactivated,
    WalletError,
>)
    requires
        old(wallet).wf(),
        old(wallet).nonce < u64::MAX,
    ensures
        final(wallet).wf(),
        match result {
            Ok(event) => {
                &&& deactivate_guardian_step(old(wallet)@, *signer, slot) == Ok::<
                    WalletView,
                    WalletError,
                >(final(wallet)@)
                &&& event == (GuardianDeactivated {
                    wallet_id: old(wallet).wallet_id,
                    guardian: old(wallet).guardians@[slot as int].pubkey,
                    nonce: final(wallet).nonce,
                })
            },
            Err(error) => {
                &&& deactivate_guardian_step(old(wallet)@, *signer, slot) == Err::<
                    WalletView,
                    WalletError,
                >(error)
                &&& *final(wallet) == *old(wallet)
            },
        },
{
    if *signer != wallet.authority {
        return Err(WalletError::Unauthorized);
    }
    let index = slot as usize;
    if index >= wallet.guardians.len() || !wallet.guardians[index].is_active {
        return Err(WalletError::GuardianInactive);
    }
    let record = wallet.guardians[index];
    let retired = Guardian {
        wallet: record.wallet,
        pubkey: record.pubkey,
        guardian_type: record.guardian_type,
        added_at: record.added_at,
        is_active: false,
    };
    proof {
        let active = |guardian: Guardian| guardian.is_active;
        lemma_slots_bounded(wallet.guardians@, active);
        lemma_slots_update(wallet.guardians@, index as int, retired, active);
    }
    wallet.guardians.set(index, retired);
    wallet.guardian_count = wallet.guardian_count - 1;
    wallet.nonce = wallet.nonce + 1;
    Ok(
        GuardianDeactivated {
            wallet_id: wallet.wallet_id,
            guardian: record.pubkey,
            nonce: wallet.nonce,
        },
    )
}

} // verus!
