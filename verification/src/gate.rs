//! The authorization gate: the freeze switch, and the checks that an
//! arbitrary instruction passes before it is executed in the wallet's name.

use vstd::prelude::*;
use crate::error::WalletError;
use crate::events::{TransactionExecuted, WalletFrozen, WalletUnfrozen};
use crate::keys::Pubkey;
use crate::registry::{count_endorsing, endorsing_slots};
use crate::state::{SmartWallet, WalletView};

verus! {

/// The SHA-256 digest of `data`.
pub uninterp spec fn sha256(data: Seq<u8>) -> Seq<u8>;

/// The transition of freezing the wallet: only the authority may, alone and
/// at once, whether or not the wallet is frozen already.
pub open spec fn freeze_step(wallet: WalletView, signer: Pubkey) -> Result<WalletView, WalletError> {
    if signer != wallet.authority {
        Err(WalletError::Unauthorized)
    } else {
        Ok(WalletView { is_frozen: true, nonce: wallet.nonce + 1, ..wallet })
    }
}

/// Whether the active guardians whose keys are among `signers` form a quorum.
pub open spec fn quorum_signed(wallet: WalletView, signers: Seq<Pubkey>) -> bool {
    endorsing_slots(wallet.guardians, signers).len() >= wallet.guardian_threshold
}

/// The transition of unfreezing the wallet on the word of `signers`.
///
/// The authority has no say: a quorum of active guardians must have signed,
/// each counted once. Whether or not the wallet is frozen makes no difference.
pub open spec fn unfreeze_step(wallet: WalletView, signers: Seq<Pubkey>) -> Result<
    WalletView,
    WalletError,
> {
    if !quorum_signed(wallet, signers) {
        Err(WalletError::InsufficientApprovals)
    } else {
        Ok(WalletView { is_frozen: false, nonce: wallet.nonce + 1, ..wallet })
    }
}

/// What stops an execution before the threshold signature is looked at:
/// a frozen wallet; then a signer other than the authority; then fewer
/// signatures than the guardian threshold.
pub open spec fn execution_gate(wallet: WalletView, signer: Pubkey, signatures: nat) -> Option<
    WalletError,
> {
    if wallet.is_frozen {
        Some(WalletError::WalletFrozen)
    } else if signer != wallet.authority {
        Some(WalletError::Unauthorized)
    } else if signatures < wallet.guardian_threshold {
        Some(WalletError::InsufficientSignatures)
    } else {
        None
    }
}

/// The transition of executing an instruction that came with `signatures`
/// signatures, given whether the threshold signature was `accepted`.
pub open spec fn execute_transaction_step(
    wallet: WalletView,
    signer: Pubkey,
    signatures: nat,
    accepted: bool,
) -> Result<WalletView, WalletError> {
    match execution_gate(wallet, signer, signatures) {
        Some(error) => Err(error),
        None => if accepted {
            Ok(WalletView { nonce: wallet.nonce + 1, ..wallet })
        } else {
            Err(WalletError::InvalidSignature)
        },
    }
}

/// Calls `anchor_lang::solana_program::hash::hash` on the bytes of `data` and
/// hands out the bytes of the `Hash` it returns. Trusted: that function
/// computes the SHA-256 digest of its argument, which is what `sha256` names.
#[verifier::external_body]
fn hash_instruction(data: &Vec<u8>) -> (digest: [u8; 32])
    ensures
        digest@ == sha256(data@),
{
    anchor_lang::solana_program::hash::hash(data.as_slice()).to_bytes()
}

/// Freezes the wallet: transfers and executions are refused from now on.
pub fn freeze_wallet(wallet: &mut SmartWallet, signer: &Pubkey) -> (result: Result<
    WalletFrozen,
    WalletError,
>)
    requires
        old(wallet).wf(),
        old(wallet).nonce < u64::MAX,
    ensures
        final(wallet).wf(),
        match result {
            Ok(event) => {
                &&& freeze_step(old(wallet)@, *signer) == Ok::<WalletView, WalletError>(
                    final(wallet)@,
                )
                &&& event == (WalletFrozen {
                    wallet_id: old(wallet).wallet_id,
                    frozen_by: *signer,
                    nonce: final(wallet).nonce,
                })
            },
            Err(error) => {
                &&& freeze_step(old(wallet)@, *signer) == Err::<WalletView, WalletError>(error)
                &&& *final(wallet) == *old(wallet)
            },
        },
{
    if *signer != wallet.authority {
        return Err(WalletError::Unauthorized);
    }
    wallet.is_frozen = true;
    wallet.nonce = wallet.nonce + 1;
    Ok(WalletFrozen { wallet_id: wallet.wallet_id, frozen_by: *signer, nonce: wallet.nonce })
}

/// Unfreezes the wallet, given the keys that signed the request.
pub fn unfreeze_wallet(wallet: &mut SmartWallet, signers: &Vec<Pubkey>) -> (result: Result<
    WalletUnfrozen,
    WalletError,
>)
    requires
        old(wallet).wf(),
        old(wallet).nonce < u64::MAX,
    ensures
        final(wallet).wf(),
        match result {
            Ok(event) => {
                &&& unfreeze_step(old(wallet)@, signers@) == Ok::<WalletView, WalletError>(
                    final(wallet)@,
                )
                &&& event == (WalletUnfrozen {
                    wallet_id: old(wallet).wallet_id,
                    nonce: final(wallet).nonce,
                })
            },
            Err(error) => {
                &&& unfreeze_step(old(wallet)@, signers@) == Err::<WalletView, WalletError>(error)
                &&& *final(wallet) == *old(wallet)
            },
        },
{
    if count_endorsing(&wallet.guardians, signers) < wallet.guardian_threshold as usize {
        return Err(WalletError::InsufficientApprovals);
    }
    wallet.is_frozen = false;
    wallet.nonce = wallet.nonce + 1;
    Ok(WalletUnfrozen { wallet_id: wallet.wallet_id, nonce: wallet.nonce })
}

/// The checks that come before the threshold signature is verified.
pub fn authorize_execution(wallet: &SmartWallet, signer: &Pubkey, signatures: usize) -> (result:
    Result<(), WalletError>)
    ensures
        result == match execution_gate(wallet@, *signer, signatures as nat) {
            Some(error) => Err::<(), WalletError>(error),
            None => Ok::<(), WalletError>(()),
        },
{
    if wallet.is_frozen {
        Err(WalletError::WalletFrozen)
    } else if *signer != wallet.authority {
        Err(WalletError::Unauthorized)
    } else if signatures < wallet.guardian_threshold as usize {
        Err(WalletError::InsufficientSignatures)
    } else {
        Ok(())
    }
}

/// Settles an execution once the verdict on its threshold signature is in:
/// `accepted` says whether the signature endorses `instruction_hash` under
/// the wallet's authority.
pub fn conclude_execution(
    wallet: &mut SmartWallet,
    signer: &Pubkey,
    signatures: usize,
    instruction_hash: [u8; 32],
    accepted: bool,
) -> (result: Result<TransactionExecuted, WalletError>)
    requires
        old(wallet).wf(),
        old(wallet).nonce < u64::MAX,
    ensures
        final(wallet).wf(),
        match result {
            Ok(event) => {
                &&& execute_transaction_step(old(wallet)@, *signer, signatures as nat, accepted)
                    == Ok::<WalletView, WalletError>(final(wallet)@)
                &&& event == (TransactionExecuted {
                    wallet_id: old(wallet).wallet_id,
                    instruction_hash,
                    nonce: final(wallet).nonce,
                })
            },
            Err(error) => {
                &&& execute_transaction_step(old(wallet)@, *signer, signatures as nat, accepted)
                    == Err::<WalletView, WalletError>(error)
                &&& *final(wallet) == *old(wallet)
            },
        },
{
    match authorize_execution(wallet, signer, signatures) {
        Err(error) => {
            return Err(error);
        },
        Ok(_) => {},
    }
    if !accepted {
        return Err(WalletError::InvalidSignature);
    }
    wallet.nonce = wallet.nonce + 1;
    Ok(TransactionExecuted { wallet_id: wallet.wallet_id, instruction_hash, nonce: wallet.nonce })
}

/// Executes an instruction in the wallet's name.
///
/// The cheap checks of [`authorize_execution`] come first, so that `verifier`
/// is only consulted for a request that could go through. It is then handed
/// the SHA-256 digest of `instruction_data`, the signatures and the wallet's
/// authority, and decides whether the signatures are a threshold signature of
/// the digest under that key. Its verdict is settled as by
/// [`conclude_execution`].
pub fn execute_transaction<V>(
    wallet: &mut SmartWallet,
    signer: &Pubkey,
    instruction_data: &Vec<u8>,
    signatures: &Vec<[u8; 64]>,
    verifier: V,
) -> (result: Result<TransactionExecuted, WalletError>) where
    V: Fn([u8; 32], &Vec<[u8; 64]>, Pubkey) -> bool,

    requires
        old(wallet).wf(),
        old(wallet).nonce < u64::MAX,
        forall|digest: [u8; 32]|
            call_requires(verifier, (digest, signatures, old(wallet).authority)),
    ensures
        final(wallet).wf(),
        match result {
            Ok(event) => {
                &&& event.instruction_hash@ == sha256(instruction_data@)
                &&& call_ensures(
                    verifier,
                    (event.instruction_hash, signatures, old(wallet).authority),
                    true,
                )
                &&& execute_transaction_step(old(wallet)@, *signer, signatures@.len(), true)
                    == Ok::<WalletView, WalletError>(final(wallet)@)
                &&& event == (TransactionExecuted {
                    wallet_id: old(wallet).wallet_id,
                    instruction_hash: event.instruction_hash,
                    nonce: final(wallet).nonce,
                })
            },
            Err(error) => {
                &&& *final(wallet) == *old(wallet)
                &&& match execution_gate(old(wallet)@, *signer, signatures@.len()) {
                    Some(refusal) => error == refusal,
                    None => {
                        &&& error == WalletError::InvalidSignature
                        &&& exists|digest: [u8; 32]|
                            digest@ == sha256(instruction_data@) && call_ensures(
                                verifier,
                                (digest, signatures, old(wallet).authority),
                                false,
                            )
                    },
                }
            },
        },
{
    match authorize_execution(wallet, signer, signatures.len()) {
        Err(error) => {
            return Err(error);
        },
        Ok(_) => {},
    }
    let digest = hash_instruction(instruction_data);
    let accepted = verifier(digest, signatures, wallet.authority);
    conclude_execution(wallet, signer, signatures.len(), digest, accepted)
}

} // verus!
