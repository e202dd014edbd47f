//! Run-time checks of what the operations take for granted of a wallet that
//! did not come from this library, such as one read back from storage.

use vstd::prelude::*;
use crate::keys::bytes32_equal;
use crate::recovery::slot_recorded;
use crate::registry::count_active;
use crate::state::{Guardian, PendingRecovery, SmartWallet, MAX_GUARDIANS};

verus! {

/// Whether every record of `guardians` names the wallet `wallet_id`.
pub fn guardians_belong(guardians: &Vec<Guardian>, wallet_id: &[u8; 32]) -> (all: bool)
    ensures
        all == (forall|slot: int|
            0 <= slot < guardians@.len() ==> (#[trigger] guardians@[slot]).wallet == *wallet_id),
{
    let mut i: usize = 0;
    while i < guardians.len()
        invariant
            i <= guardians.len(),
            forall|slot: int| 0 <= slot < i ==> (#[trigger] guardians@[slot]).wallet == *wallet_id,
        decreases guardians.len() - i,
    {
        if !bytes32_equal(&guardians[i].wallet, wallet_id) {
            return false;
        }
        i += 1;
    }
    true
}

impl PendingRecovery {
    /// Whether the recovery fits a registry of `slots` records.
    pub fn is_well_formed(&self, slots: usize) -> (ok: bool)
        ensures
            ok == self.wf(slots as nat),
    {
        if self.executed {
            return false;
        }
        let approvals = &self.approving_guardians;
        let mut checked: Vec<u8> = Vec::new();
        let mut i: usize = 0;
        while i < approvals.len()
            invariant
                *approvals == self.approving_guardians,
                !self.executed,
                i <= approvals.len(),
                checked@ == approvals@.take(i as int),
                checked@.no_duplicates(),
                forall|j: int| 0 <= j < i ==> approvals@[j] < slots,
            decreases approvals.len() - i,
        {
            let slot = approvals[i];
            if slot as usize >= slots {
                proof {
                    assert(self@.approving_guardians.contains(slot));
                }
                return false;
            }
            if slot_recorded(&checked, slot) {
                return false;
            }
            checked.push(slot);
            i += 1;
        }
        assert(approvals@.take(i as int) =~= approvals@);
        true
    }
}

impl SmartWallet {
    /// Whether the wallet is one that the operations can work on.
    pub fn is_well_formed(&self) -> (ok: bool)
        ensures
            ok == self.wf(),
    {
        if self.guardian_threshold == 0 || self.guardians.len() > MAX_GUARDIANS {
            return false;
        }
        if self.guardian_count as usize != count_active(&self.guardians) {
            return false;
        }
        if !guardians_belong(&self.guardians, &self.wallet_id) {
            return false;
        }
        match &self.pending_recovery {
            Some(recovery) => recovery.is_well_formed(self.guardians.len()),
            None => true,
        }
    }

    /// Whether the wallet has as many active guardians as a quorum takes.
    /// While it has not, no recovery can gather its quorum and a frozen
    /// wallet stays frozen.
    pub fn quorum_reachable(&self) -> (reachable: bool)
        ensures
            reachable == (self.guardian_threshold <= self.guardian_count),
    {
        self.guardian_threshold <= self.guardian_count
    }
}

} // verus!
