use solana_wallet::{
    add_guardian, approve_recovery, deactivate_guardian, execute_recovery, freeze_wallet,
    initialize_wallet, initiate_recovery, GuardianType, PendingRecovery, Pubkey, RecoveryApproved,
    RecoveryExecuted, RecoveryInitiated, SmartWallet, WalletError,
};

fn rkey(tag: u8) -> Pubkey {
    Pubkey::new_from_array([tag; 32])
}

const AUTHORITY: u8 = 2;
const GUARDIAN_A: u8 = 10;
const GUARDIAN_B: u8 = 11;
const GUARDIAN_C: u8 = 12;
const NEW_AUTHORITY: u8 = 77;

fn guarded_wallet(threshold: u8, delay: i64) -> SmartWallet {
    let (mut wallet, _) =
        initialize_wallet(rkey(1), [4; 32], rkey(AUTHORITY), threshold, 1000, delay, 0).unwrap();
    for tag in [GUARDIAN_A, GUARDIAN_B, GUARDIAN_C] {
        add_guardian(&mut wallet, &rkey(AUTHORITY), rkey(tag), GuardianType::Wallet, 0).unwrap();
    }
    wallet
}

#[test]
fn initiate_recovery_opens_an_empty_proposal() {
    let mut wallet = guarded_wallet(2, 3600);
    let event = initiate_recovery(&mut wallet, 0, &rkey(GUARDIAN_A), rkey(NEW_AUTHORITY), 5000);
    assert_eq!(
        event,
        Ok(RecoveryInitiated {
            wallet_id: [4; 32],
            new_authority: rkey(NEW_AUTHORITY),
            executable_at: 8600,
            nonce: 4,
        })
    );
    assert_eq!(
        wallet.pending_recovery,
        Some(PendingRecovery {
            new_authority: rkey(NEW_AUTHORITY),
            initiated_at: 5000,
            approving_guardians: vec![],
            executed: false,
        })
    );
    assert_eq!(wallet.authority, rkey(AUTHORITY));
    assert!(wallet.is_well_formed());
}

#[test]
fn executable_at_stays_within_the_clock() {
    let mut late = guarded_wallet(2, i64::MAX);
    let event = initiate_recovery(&mut late, 0, &rkey(GUARDIAN_A), rkey(NEW_AUTHORITY), 5000);
    assert_eq!(event.unwrap().executable_at, i64::MAX);
    let mut early = guarded_wallet(2, i64::MIN);
    let event = initiate_recovery(&mut early, 0, &rkey(GUARDIAN_A), rkey(NEW_AUTHORITY), -5000);
    assert_eq!(event.unwrap().executable_at, i64::MIN);
}

#[test]
fn second_recovery_is_refused_while_one_is_pending() {
    let mut wallet = guarded_wallet(2, 3600);
    initiate_recovery(&mut wallet, 0, &rkey(GUARDIAN_A), rkey(NEW_AUTHORITY), 5000).unwrap();
    let before = wallet.clone();
    assert_eq!(
        initiate_recovery(&mut wallet, 1, &rkey(GUARDIAN_B), rkey(78), 5001),
        Err(WalletError::RecoveryAlreadyPending)
    );
    assert_eq!(
        initiate_recovery(&mut wallet, 9, &rkey(3), rkey(78), 5001),
        Err(WalletError::RecoveryAlreadyPending)
    );
    assert_eq!(wallet, before);
}

#[test]
fn initiate_recovery_is_for_guardians() {
    let mut wallet = guarded_wallet(2, 3600);
    let before = wallet.clone();
    assert_eq!(
        initiate_recovery(&mut wallet, 0, &rkey(GUARDIAN_B), rkey(NEW_AUTHORITY), 5000),
        Err(WalletError::Unauthorized)
    );
    assert_eq!(
        initiate_recovery(&mut wallet, 3, &rkey(GUARDIAN_A), rkey(NEW_AUTHORITY), 5000),
        Err(WalletError::Unauthorized)
    );
    assert_eq!(
        initiate_recovery(&mut wallet, 0, &rkey(AUTHORITY), rkey(NEW_AUTHORITY), 5000),
        Err(WalletError::Unauthorized)
    );
    assert_eq!(wallet, before);
    deactivate_guardian(&mut wallet, &rkey(AUTHORITY), 0).unwrap();
    assert_eq!(
        initiate_recovery(&mut wallet, 0, &rkey(GUARDIAN_A), rkey(NEW_AUTHORITY), 5000),
        Err(WalletError::GuardianInactive)
    );
}

#[test]
fn approve_recovery_needs_a_pending_recovery() {
    let mut wallet = guarded_wallet(2, 3600);
    let before = wallet.clone();
    assert_eq!(
        approve_recovery(&mut wallet, 0, &rkey(GUARDIAN_A)),
        Err(WalletError::NoRecoveryPending)
    );
    assert_eq!(
        approve_recovery(&mut wallet, 9, &rkey(3)),
        Err(WalletError::NoRecoveryPending)
    );
    assert_eq!(wallet, before);
}

#[test]
fn approve_recovery_is_for_active_guardians() {
    let mut wallet = guarded_wallet(2, 3600);
    initiate_recovery(&mut wallet, 0, &rkey(GUARDIAN_A), rkey(NEW_AUTHORITY), 5000).unwrap();
    deactivate_guardian(&mut wallet, &rkey(AUTHORITY), 2).unwrap();
    let before = wallet.clone();
    assert_eq!(
        approve_recovery(&mut wallet, 1, &rkey(GUARDIAN_A)),
        Err(WalletError::Unauthorized)
    );
    assert_eq!(
        approve_recovery(&mut wallet, 3, &rkey(GUARDIAN_A)),
        Err(WalletError::Unauthorized)
    );
    assert_eq!(
        approve_recovery(&mut wallet, 2, &rkey(GUARDIAN_C)),
        Err(WalletError::GuardianInactive)
    );
    assert_eq!(wallet, before);
}

#[test]
fn repeated_approval_counts_once() {
    let mut wallet = guarded_wallet(2, 3600);
    initiate_recovery(&mut wallet, 0, &rkey(GUARDIAN_A), rkey(NEW_AUTHORITY), 5000).unwrap();
    let first = approve_recovery(&mut wallet, 1, &rkey(GUARDIAN_B)).unwrap();
    assert_eq!(
        first,
        RecoveryApproved {
            wallet_id: [4; 32],
            guardian: rkey(GUARDIAN_B),
            total_approvals: 1,
            nonce: 5,
        }
    );
    let after_first = wallet.clone();
    for _ in 0..5 {
        let again = approve_recovery(&mut wallet, 1, &rkey(GUARDIAN_B));
        assert_eq!(again, Ok(first));
        assert_eq!(wallet, after_first);
    }
    assert_eq!(wallet.pending_recovery.as_ref().unwrap().approving_guardians, vec![1]);
    assert_eq!(execute_recovery(&mut wallet, 1_000_000), Err(WalletError::InsufficientApprovals));
}

#[test]
fn two_distinct_approvers_meet_a_threshold_of_two() {
    let mut wallet = guarded_wallet(2, 3600);
    initiate_recovery(&mut wallet, 2, &rkey(GUARDIAN_C), rkey(NEW_AUTHORITY), 5000).unwrap();
    approve_recovery(&mut wallet, 0, &rkey(GUARDIAN_A)).unwrap();
    approve_recovery(&mut wallet, 0, &rkey(GUARDIAN_A)).unwrap();
    let third = approve_recovery(&mut wallet, 1, &rkey(GUARDIAN_B)).unwrap();
    assert_eq!(third.total_approvals, 2);
    let before = wallet.clone();
    assert_eq!(execute_recovery(&mut wallet, 5000 + 3599), Err(WalletError::RecoveryDelayNotMet));
    assert_eq!(wallet, before);
    let executed = execute_recovery(&mut wallet, 5000 + 3600);
    assert_eq!(
        executed,
        Ok(RecoveryExecuted {
            wallet_id: [4; 32],
            new_authority: rkey(NEW_AUTHORITY),
            nonce: before.nonce + 1,
        })
    );
    assert_eq!(wallet.authority, rkey(NEW_AUTHORITY));
    assert_eq!(wallet.pending_recovery, None);
    assert_eq!(wallet.nonce, 7);
    assert!(wallet.is_well_formed());
}

#[test]
fn execute_recovery_names_the_missing_condition() {
    let mut wallet = guarded_wallet(2, 3600);
    assert_eq!(execute_recovery(&mut wallet, 9000), Err(WalletError::NoRecoveryPending));
    initiate_recovery(&mut wallet, 0, &rkey(GUARDIAN_A), rkey(NEW_AUTHORITY), 5000).unwrap();
    approve_recovery(&mut wallet, 0, &rkey(GUARDIAN_A)).unwrap();
    // quorum missing, delay met
    assert_eq!(execute_recovery(&mut wallet, 9000), Err(WalletError::InsufficientApprovals));
    // both missing: the approvals are named first
    assert_eq!(execute_recovery(&mut wallet, 5001), Err(WalletError::InsufficientApprovals));
    approve_recovery(&mut wallet, 2, &rkey(GUARDIAN_C)).unwrap();
    // quorum met, delay missing
    assert_eq!(execute_recovery(&mut wallet, 8599), Err(WalletError::RecoveryDelayNotMet));
    // both met
    assert!(execute_recovery(&mut wallet, 8600).is_ok());
    assert_eq!(execute_recovery(&mut wallet, 8600), Err(WalletError::NoRecoveryPending));
}

#[test]
fn delay_beyond_the_clock_is_never_met() {
    let mut wallet = guarded_wallet(1, i64::MAX);
    initiate_recovery(&mut wallet, 0, &rkey(GUARDIAN_A), rkey(NEW_AUTHORITY), 1).unwrap();
    approve_recovery(&mut wallet, 0, &rkey(GUARDIAN_A)).unwrap();
    assert_eq!(execute_recovery(&mut wallet, i64::MAX), Err(WalletError::RecoveryDelayNotMet));
}

#[test]
fn negative_delay_lets_a_quorum_execute_at_once() {
    let mut wallet = guarded_wallet(1, -10);
    initiate_recovery(&mut wallet, 0, &rkey(GUARDIAN_A), rkey(NEW_AUTHORITY), 100).unwrap();
    approve_recovery(&mut wallet, 0, &rkey(GUARDIAN_A)).unwrap();
    assert_eq!(execute_recovery(&mut wallet, 89), Err(WalletError::RecoveryDelayNotMet));
    assert!(execute_recovery(&mut wallet, 90).is_ok());
}

#[test]
fn new_recovery_can_follow_an_executed_one() {
    let mut wallet = guarded_wallet(1, 0);
    initiate_recovery(&mut wallet, 0, &rkey(GUARDIAN_A), rkey(NEW_AUTHORITY), 100).unwrap();
    approve_recovery(&mut wallet, 1, &rkey(GUARDIAN_B)).unwrap();
    execute_recovery(&mut wallet, 100).unwrap();
    assert!(initiate_recovery(&mut wallet, 1, &rkey(GUARDIAN_B), rkey(78), 200).is_ok());
    assert_eq!(
        wallet.pending_recovery.as_ref().unwrap().approving_guardians,
        Vec::<u8>::new()
    );
}

#[test]
fn frozen_wallet_can_be_recovered() {
    let mut wallet = guarded_wallet(1, 0);
    freeze_wallet(&mut wallet, &rkey(AUTHORITY)).unwrap();
    initiate_recovery(&mut wallet, 0, &rkey(GUARDIAN_A), rkey(NEW_AUTHORITY), 100).unwrap();
    approve_recovery(&mut wallet, 0, &rkey(GUARDIAN_A)).unwrap();
    assert!(execute_recovery(&mut wallet, 100).is_ok());
    assert_eq!(wallet.authority, rkey(NEW_AUTHORITY));
    assert!(wallet.is_frozen);
}

#[test]
fn approval_of_a_guardian_deactivated_later_stands() {
    let mut wallet = guarded_wallet(2, 0);
    initiate_recovery(&mut wallet, 0, &rkey(GUARDIAN_A), rkey(NEW_AUTHORITY), 100).unwrap();
    approve_recovery(&mut wallet, 0, &rkey(GUARDIAN_A)).unwrap();
    approve_recovery(&mut wallet, 1, &rkey(GUARDIAN_B)).unwrap();
    deactivate_guardian(&mut wallet, &rkey(AUTHORITY), 0).unwrap();
    assert!(wallet.is_well_formed());
    assert!(execute_recovery(&mut wallet, 100).is_ok());
}
