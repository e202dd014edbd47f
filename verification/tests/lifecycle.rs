use solana_wallet::keys::bytes32_equal;
use solana_wallet::validate::guardians_belong;
use solana_wallet::{
    add_guardian, approve_recovery, deactivate_guardian, execute_recovery, execute_transaction,
    freeze_wallet, initialize_wallet, initiate_recovery, transfer_spl, unfreeze_wallet,
    update_daily_limit, Guardian, GuardianType, PendingRecovery, Pubkey, SmartWallet, WalletError,
    WalletInitialized,
};

fn lkey(tag: u8) -> Pubkey {
    Pubkey::new_from_array([tag; 32])
}

#[test]
fn initialized_wallet_starts_clean() {
    let (wallet, event) =
        initialize_wallet(lkey(1), [8; 32], lkey(2), 3, 5000, 7200, 1_700_000_000).unwrap();
    assert_eq!(event, WalletInitialized { wallet_id: [8; 32], owner: lkey(1) });
    assert_eq!(
        wallet,
        SmartWallet {
            owner: lkey(1),
            wallet_id: [8; 32],
            authority: lkey(2),
            guardian_threshold: 3,
            guardian_count: 0,
            daily_limit: 5000,
            daily_spent: 0,
            last_reset_day: 19675,
            recovery_delay: 7200,
            pending_recovery: None,
            nonce: 0,
            is_frozen: false,
            guardians: vec![],
        }
    );
    assert!(wallet.is_well_formed());
}

#[test]
fn zero_threshold_is_invalid_config() {
    assert_eq!(
        initialize_wallet(lkey(1), [8; 32], lkey(2), 0, 5000, 7200, 0),
        Err(WalletError::InvalidConfig)
    );
}

#[test]
fn threshold_above_the_registry_is_accepted_but_unreachable() {
    let (wallet, _) = initialize_wallet(lkey(1), [8; 32], lkey(2), 255, 0, -1, -1).unwrap();
    assert_eq!(wallet.guardian_threshold, 255);
    assert_eq!(wallet.last_reset_day, -1);
    assert!(!wallet.quorum_reachable());
}

#[test]
fn every_accepted_operation_moves_the_nonce_by_one() {
    let (mut wallet, _) = initialize_wallet(lkey(1), [8; 32], lkey(2), 1, 5000, 0, 0).unwrap();
    let mut expected = 0;
    assert_eq!(wallet.nonce, expected);
    add_guardian(&mut wallet, &lkey(2), lkey(10), GuardianType::Email, 0).unwrap();
    expected += 1;
    assert_eq!(wallet.nonce, expected);
    add_guardian(&mut wallet, &lkey(2), lkey(11), GuardianType::Phone, 0).unwrap();
    expected += 1;
    assert_eq!(wallet.nonce, expected);
    transfer_spl(&mut wallet, &lkey(2), &lkey(9), 10, 0).unwrap();
    expected += 1;
    assert_eq!(wallet.nonce, expected);
    update_daily_limit(&mut wallet, &lkey(2), 9).unwrap();
    expected += 1;
    assert_eq!(wallet.nonce, expected);
    execute_transaction(&mut wallet, &lkey(2), &vec![1, 2, 3], &vec![[0; 64]], |_d, _s, _a| true)
        .unwrap();
    expected += 1;
    assert_eq!(wallet.nonce, expected);
    freeze_wallet(&mut wallet, &lkey(2)).unwrap();
    expected += 1;
    assert_eq!(wallet.nonce, expected);
    unfreeze_wallet(&mut wallet, &vec![lkey(10)]).unwrap();
    expected += 1;
    assert_eq!(wallet.nonce, expected);
    initiate_recovery(&mut wallet, 0, &lkey(10), lkey(70), 0).unwrap();
    expected += 1;
    assert_eq!(wallet.nonce, expected);
    approve_recovery(&mut wallet, 0, &lkey(10)).unwrap();
    expected += 1;
    assert_eq!(wallet.nonce, expected);
    deactivate_guardian(&mut wallet, &lkey(2), 1).unwrap();
    expected += 1;
    assert_eq!(wallet.nonce, expected);
    execute_recovery(&mut wallet, 0).unwrap();
    expected += 1;
    assert_eq!(wallet.nonce, expected);
    assert_eq!(expected, 11);
}

#[test]
fn refused_operations_leave_the_nonce_alone() {
    let (mut wallet, _) = initialize_wallet(lkey(1), [8; 32], lkey(2), 1, 5000, 0, 0).unwrap();
    add_guardian(&mut wallet, &lkey(2), lkey(10), GuardianType::Email, 0).unwrap();
    let before = wallet.clone();
    assert!(add_guardian(&mut wallet, &lkey(3), lkey(11), GuardianType::Email, 0).is_err());
    assert!(deactivate_guardian(&mut wallet, &lkey(2), 4).is_err());
    assert!(transfer_spl(&mut wallet, &lkey(2), &lkey(9), 5001, 0).is_err());
    assert!(update_daily_limit(&mut wallet, &lkey(3), 1).is_err());
    assert!(execute_transaction(&mut wallet, &lkey(2), &vec![], &vec![], |_d, _s, _a| true).is_err());
    assert!(freeze_wallet(&mut wallet, &lkey(3)).is_err());
    assert!(unfreeze_wallet(&mut wallet, &vec![lkey(2)]).is_err());
    assert!(initiate_recovery(&mut wallet, 0, &lkey(2), lkey(70), 0).is_err());
    assert!(approve_recovery(&mut wallet, 0, &lkey(10)).is_err());
    assert!(execute_recovery(&mut wallet, 0).is_err());
    assert_eq!(wallet, before);
    assert_eq!(wallet.nonce, 1);
}

fn stored_wallet() -> SmartWallet {
    let record = |tag: u8, is_active: bool| Guardian {
        wallet: [8; 32],
        pubkey: lkey(tag),
        guardian_type: GuardianType::Wallet,
        added_at: 0,
        is_active,
    };
    SmartWallet {
        owner: lkey(1),
        wallet_id: [8; 32],
        authority: lkey(2),
        guardian_threshold: 2,
        guardian_count: 2,
        daily_limit: 100,
        daily_spent: 500,
        last_reset_day: 3,
        recovery_delay: 60,
        pending_recovery: Some(PendingRecovery {
            new_authority: lkey(70),
            initiated_at: 10,
            approving_guardians: vec![2, 0],
            executed: false,
        }),
        nonce: 41,
        is_frozen: true,
        guardians: vec![record(10, true), record(11, false), record(12, true)],
    }
}

#[test]
fn well_formed_wallet_is_recognised() {
    assert!(stored_wallet().is_well_formed());
    let mut no_recovery = stored_wallet();
    no_recovery.pending_recovery = None;
    assert!(no_recovery.is_well_formed());
}

#[test]
fn ill_formed_wallets_are_recognised() {
    let mut wallet = stored_wallet();
    wallet.guardian_threshold = 0;
    assert!(!wallet.is_well_formed());

    let mut wallet = stored_wallet();
    wallet.guardian_count = 3;
    assert!(!wallet.is_well_formed());

    let mut wallet = stored_wallet();
    wallet.guardians[1].wallet = [7; 32];
    assert!(!wallet.is_well_formed());

    let mut wallet = stored_wallet();
    let extra = wallet.guardians[1];
    for _ in 0..5 {
        wallet.guardians.push(extra);
    }
    assert_eq!(wallet.guardians.len(), 8);
    assert!(!wallet.is_well_formed());

    let mut wallet = stored_wallet();
    wallet.pending_recovery.as_mut().unwrap().approving_guardians = vec![0, 2, 0];
    assert!(!wallet.is_well_formed());

    let mut wallet = stored_wallet();
    wallet.pending_recovery.as_mut().unwrap().approving_guardians = vec![0, 3];
    assert!(!wallet.is_well_formed());

    let mut wallet = stored_wallet();
    wallet.pending_recovery.as_mut().unwrap().executed = true;
    assert!(!wallet.is_well_formed());
}

#[test]
fn pending_recovery_is_checked_against_the_registry_size() {
    let recovery = PendingRecovery {
        new_authority: lkey(70),
        initiated_at: 10,
        approving_guardians: vec![6, 1, 4],
        executed: false,
    };
    assert!(recovery.is_well_formed(7));
    assert!(!recovery.is_well_formed(6));
    assert!(!recovery.is_well_formed(0));
}

#[test]
fn guardians_belong_to_one_wallet() {
    let wallet = stored_wallet();
    assert!(guardians_belong(&wallet.guardians, &[8; 32]));
    assert!(!guardians_belong(&wallet.guardians, &[9; 32]));
    assert!(guardians_belong(&vec![], &[9; 32]));
}

#[test]
fn keys_compare_byte_by_byte() {
    let mut bytes = [3u8; 32];
    assert!(bytes32_equal(&bytes, &[3u8; 32]));
    assert_eq!(Pubkey::new_from_array(bytes), lkey(3));
    bytes[31] = 4;
    assert!(!bytes32_equal(&bytes, &[3u8; 32]));
    assert_ne!(Pubkey::new_from_array(bytes), lkey(3));
    assert_eq!(Pubkey::new_from_array(bytes).to_bytes(), bytes);
    bytes[31] = 3;
    bytes[0] = 0;
    assert_ne!(Pubkey::new_from_array(bytes), lkey(3));
}

#[test]
fn every_error_has_its_message() {
    let expected = [
        (WalletError::WalletFrozen, "Wallet is frozen"),
        (WalletError::DailyLimitExceeded, "Daily spending limit exceeded"),
        (WalletError::InsufficientSignatures, "Insufficient signatures"),
        (WalletError::TooManyGuardians, "Too many guardians (max 7)"),
        (WalletError::GuardianInactive, "Guardian is inactive"),
        (WalletError::RecoveryAlreadyPending, "Recovery already pending"),
        (WalletError::NoRecoveryPending, "No recovery pending"),
        (WalletError::InsufficientApprovals, "Insufficient guardian approvals"),
        (WalletError::RecoveryDelayNotMet, "Recovery delay not met"),
        (WalletError::InvalidSignature, "Invalid signature"),
        (WalletError::Unauthorized, "Unauthorized"),
        (WalletError::InvalidConfig, "Invalid configuration"),
    ];
    for (error, text) in expected {
        assert_eq!(error.message(), text);
    }
}
