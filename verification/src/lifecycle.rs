//! Creation of a wallet.

use vstd::prelude::*;
use crate::error::WalletError;
use crate::events::WalletInitialized;
use crate::keys::Pubkey;
use crate::spend::{day_index, day_of};
use crate::state::{SmartWallet, WalletView};

verus! {

/// The wallet as it is right after its creation at `now`: no guardians, no
/// recovery pending, nothing spent, not frozen, and no transition committed.
pub open spec fn new_wallet(
    owner: Pubkey,
    wallet_id: [u8; 32],
    authority: Pubkey,
    guardian_threshold: nat,
    daily_limit: nat,
    recovery_delay: int,
    now: int,
) -> WalletView {
    WalletView {
        owner,
        wallet_id,
        authority,
        guardian_threshold,
        guardian_count: 0,
        daily_limit,
        daily_spent: 0,
        last_reset_day: day_of(now),
        recovery_delay,
        pending_recovery: None,
        nonce: 0,
        is_frozen: false,
        guardians: Seq::empty(),
    }
}

/// Creates a wallet. A guardian threshold of zero is refused, and nothing
/// else is.
///
/// The threshold is not held against the number of guardians, which is zero
/// at this point: until as many guardians have been added as the threshold
/// asks for, and whenever the threshold is above [`MAX_GUARDIANS`], no
/// recovery can be executed and the wallet cannot be unfrozen. A recovery
/// delay of zero or less lets a recovery be executed as soon as it has its
/// quorum.
///
/// [`MAX_GUARDIANS`]: crate::state::MAX_GUARDIANS
pub fn initialize_wallet(
    owner: Pubkey,
    wallet_id: [u8; 32],
    authority: Pubkey,
    guardian_threshold: u8,
    daily_limit: u64,
    recovery_delay: i64,
    now: i64,
) -> (result: Result<(SmartWallet, WalletInitialized), WalletError>)
    ensures
        match result {
            Ok((wallet, event)) => {
                &&& guardian_threshold != 0
                &&& wallet.wf()
                &&& wallet@ == new_wallet(
                    owner,
                    wallet_id,
                    authority,
                    guardian_threshold as nat,
                    daily_limit as nat,
                    recovery_delay as int,
                    now as int,
                )
                &&& event == (WalletInitialized { wallet_id, owner })
            },
            Err(error) => guardian_threshold == 0 && error == WalletError::InvalidConfig,
        },
{
    if guardian_threshold == 0 {
        return Err(WalletError::InvalidConfig);
    }
    let wallet = SmartWallet {
        owner,
        wallet_id,
        authority,
        guardian_threshold,
        guardian_count: 0,
        daily_limit,
        daily_spent: 0,
        last_reset_day: day_index(now),
        recovery_delay,
        pending_recovery: None,
        nonce: 0,
        is_frozen: false,
        guardians: Vec::new(),
    };
    assert(crate::registry::active_slots(wallet.guardians@) =~= Set::empty());
    Ok((wallet, WalletInitialized { wallet_id, owner }))
}

} // verus!
