//! The spend limit accountant: a daily budget that starts afresh on the first
//! transfer of each new day.

use vstd::prelude::*;
use crate::error::WalletError;
use crate::events::{LimitUpdated, TransferExecuted};
use crate::keys::Pubkey;
use crate::state::{SmartWallet, WalletView};

verus! {

/// Length of a day in seconds.
pub const SECONDS_PER_DAY: i64 = 86400;

/// The day that holds the instant `now`: the number of whole days from the
/// epoch to `now`, rounded down, so that instants before the epoch fall on
/// negative days.
pub open spec fn day_of(now: int) -> int {
    now / 86400
}

/// What the wallet has spent on `day`: nothing if `day` is later than the day
/// of the last reset, the running amount otherwise.
pub open spec fn spent_on(wallet: WalletView, day: int) -> nat {
    if day > wallet.last_reset_day {
        0
    } else {
        wallet.daily_spent
    }
}

/// The transition of a transfer of `amount` requested by `signer` at `now`.
///
/// A frozen wallet refuses; then a signer other than the authority is
/// refused; then a transfer that would take the day's spending above the
/// limit. An accepted transfer, of zero too, is added to the day's spending
/// and moves the reset day forward to today if it was earlier.
pub open spec fn transfer_step(wallet: WalletView, signer: Pubkey, amount: nat, now: int) -> Result<
    WalletView,
    WalletError,
> {
    let day = day_of(now);
    if wallet.is_frozen {
        Err(WalletError::WalletFrozen)
    } else if signer != wallet.authority {
        Err(WalletError::Unauthorized)
    } else if spent_on(wallet, day) + amount > wallet.daily_limit {
        Err(WalletError::DailyLimitExceeded)
    } else {
        Ok(
            WalletView {
                daily_spent: spent_on(wallet, day) + amount,
                last_reset_day: if day > wallet.last_reset_day {
                    day
                } else {
                    wallet.last_reset_day
                },
                nonce: wallet.nonce + 1,
                ..wallet
            },
        )
    }
}

/// The transition of replacing the daily limit by `new_limit`: only the
/// authority may, and what was spent today stays spent.
pub open spec fn update_limit_step(wallet: WalletView, signer: Pubkey, new_limit: nat) -> Result<
    WalletView,
    WalletError,
> {
    if signer != wallet.authority {
        Err(WalletError::Unauthorized)
    } else {
        Ok(WalletView { daily_limit: new_limit, nonce: wallet.nonce + 1, ..wallet })
    }
}

/// The day that holds the instant `now`.
pub fn day_index(now: i64) -> (day: i64)
    ensures
        day == day_of(now as int),
{
    if now >= 0 {
        now / SECONDS_PER_DAY
    } else {
        (now + 1) / SECONDS_PER_DAY - 1
    }
}

/// Approves a transfer of `amount` to `to` at time `now` and counts it
/// against the daily limit, or refuses it and leaves the wallet untouched.
pub fn transfer_spl(
    wallet: &mut SmartWallet,
    signer: &Pubkey,
    to: &Pubkey,
    amount: u64,
    now: i64,
) -> (result: Result<TransferExecuted, WalletError>)
    requires
        old(wallet).wf(),
        old(wallet).nonce < u64::MAX,
    ensures
        final(wallet).wf(),
        match result {
            Ok(event) => {
                &&& transfer_step(old(wallet)@, *signer, amount as nat, now as int) == Ok::<
                    WalletView,
                    WalletError,
                >(final(wallet)@)
                &&& final(wallet).daily_spent <= final(wallet).daily_limit
                &&& event == (TransferExecuted {
                    wallet_id: old(wallet).wallet_id,
                    to: *to,
                    amount,
                    nonce: final(wallet).nonce,
                })
            },
            Err(error) => {
                &&& transfer_step(old(wallet)@, *signer, amount as nat, now as int) == Err::<
                    WalletView,
                    WalletError,
                >(error)
                &&& *final(wallet) == *old(wallet)
            },
        },
{
    if wallet.is_frozen {
        return Err(WalletError::WalletFrozen);
    }
    if *signer != wallet.authority {
        return Err(WalletError::Unauthorized);
    }
    let today = day_index(now);
    let new_day = today > wallet.last_reset_day;
    let spent: u64 = if new_day {
        0
    } else {
        wallet.daily_spent
    };
    if spent > wallet.daily_limit || amount > wallet.daily_limit - spent {
        return Err(WalletError::DailyLimitExceeded);
    }
    if new_day {
        wallet.last_reset_day = today;
    }
    wallet.daily_spent = spent + amount;
    wallet.nonce = wallet.nonce + 1;
    Ok(TransferExecuted { wallet_id: wallet.wallet_id, to: *to, amount, nonce: wallet.nonce })
}

/// Replaces the daily limit. The change holds from the next transfer on.
pub fn update_daily_limit(wallet: &mut SmartWallet, signer: &Pubkey, new_limit: u64) -> (result:
    Result<LimitUpdated, WalletError>)
    requires
        old(wallet).wf(),
        old(wallet).nonce < u64::MAX,
    ensures
        final(wallet).wf(),
        match result {
            Ok(event) => {
                &&& update_limit_step(old(wallet)@, *signer, new_limit as nat) == Ok::<
                    WalletView,
                    WalletError,
                >(final(wallet)@)
                &&& event == (LimitUpdated {
                    wallet_id: old(wallet).wallet_id,
                    new_limit,
                    nonce: final(wallet).nonce,
                })
            },
            Err(error) => {
                &&& update_limit_step(old(wallet)@, *signer, new_limit as nat) == Err::<
                    WalletView,
                    WalletError,
                >(error)
                &&& *final(wallet) == *old(wallet)
            },
        },
{
    if *signer != wallet.authority {
        return Err(WalletError::Unauthorized);
    }
    wallet.daily_limit = new_limit;
    wallet.nonce = wallet.nonce + 1;
    Ok(LimitUpdated { wallet_id: wallet.wallet_id, new_limit, nonce: wallet.nonce })
}

} // verus!
