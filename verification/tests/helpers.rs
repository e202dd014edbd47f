use solana_wallet::recovery::{earliest_execution, slot_recorded};
use solana_wallet::registry::{count_active, count_endorsing, key_among};
use solana_wallet::{Guardian, GuardianType, Pubkey};

fn hkey(tag: u8) -> Pubkey {
    Pubkey::new_from_array([tag; 32])
}

fn registry_of(entries: &[(u8, bool)]) -> Vec<Guardian> {
    entries
        .iter()
        .map(|(tag, is_active)| Guardian {
            wallet: [1; 32],
            pubkey: hkey(*tag),
            guardian_type: GuardianType::Phone,
            added_at: 7,
            is_active: *is_active,
        })
        .collect()
}

#[test]
fn key_among_finds_exact_keys_only() {
    let keys = vec![hkey(1), hkey(2), hkey(3)];
    assert!(key_among(&hkey(1), &keys));
    assert!(key_among(&hkey(3), &keys));
    assert!(!key_among(&hkey(4), &keys));
    assert!(!key_among(&hkey(1), &vec![]));
    let mut near = [2u8; 32];
    near[17] = 0;
    assert!(!key_among(&Pubkey::new_from_array(near), &keys));
}

#[test]
fn count_active_counts_active_records() {
    assert_eq!(count_active(&registry_of(&[])), 0);
    assert_eq!(count_active(&registry_of(&[(1, false)])), 0);
    assert_eq!(count_active(&registry_of(&[(1, true), (2, false), (3, true), (4, true)])), 3);
    assert_eq!(count_active(&registry_of(&[(1, true); 7])), 7);
}

#[test]
fn count_endorsing_counts_active_signing_guardians() {
    let registry = registry_of(&[(1, true), (2, false), (3, true), (4, true)]);
    assert_eq!(count_endorsing(&registry, &vec![]), 0);
    assert_eq!(count_endorsing(&registry, &vec![hkey(1), hkey(2), hkey(3), hkey(4)]), 3);
    assert_eq!(count_endorsing(&registry, &vec![hkey(2)]), 0);
    assert_eq!(count_endorsing(&registry, &vec![hkey(4), hkey(4), hkey(9)]), 1);
    assert_eq!(count_endorsing(&registry, &vec![hkey(3), hkey(1)]), 2);
    assert_eq!(count_endorsing(&vec![], &vec![hkey(3), hkey(1)]), 0);
}

#[test]
fn guardian_registered_twice_counts_in_each_slot() {
    let registry = registry_of(&[(5, true), (5, true), (6, true)]);
    assert_eq!(count_endorsing(&registry, &vec![hkey(5)]), 2);
}

#[test]
fn slot_recorded_finds_recorded_slots() {
    assert!(slot_recorded(&vec![4, 0, 6], 0));
    assert!(slot_recorded(&vec![4, 0, 6], 6));
    assert!(!slot_recorded(&vec![4, 0, 6], 5));
    assert!(!slot_recorded(&vec![], 0));
}

#[test]
fn earliest_execution_adds_the_delay_within_the_clock() {
    assert_eq!(earliest_execution(1000, 3600), 4600);
    assert_eq!(earliest_execution(1000, -3600), -2600);
    assert_eq!(earliest_execution(0, 0), 0);
    assert_eq!(earliest_execution(i64::MAX, 1), i64::MAX);
    assert_eq!(earliest_execution(i64::MAX - 5, 5), i64::MAX);
    assert_eq!(earliest_execution(i64::MIN, -1), i64::MIN);
    assert_eq!(earliest_execution(i64::MIN, i64::MAX), -1);
}
