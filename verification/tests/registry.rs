use trustlink_contract::registry::VerificationContract;
use trustlink_contract::types::{same_bytes, Principal, RegistryError, VerificationEntry};

fn who(n: u8) -> Principal {
    let mut bytes = [0u8; 20];
    bytes[19] = n;
    Principal { bytes }
}

fn digest(n: u8) -> [u8; 32] {
    [n; 32]
}

#[test]
fn new_registry_is_empty() {
    let r = VerificationContract::new();
    assert_eq!(r.get_total_users(), 0);
    assert_eq!(r.get_user_verification(who(1), 0), ([0u8; 32], 0, false));
    let (a, h, t) = r.get_all_stored_hashes_and_timestamps();
    assert!(a.is_empty() && h.is_empty() && t.is_empty());
    assert_eq!(r.get_completion_percentage(who(1)), 0);
}

#[test]
fn store_then_get_returns_what_was_stored() {
    for kind in 0u8..=5 {
        let mut r = VerificationContract::new();
        assert_eq!(r.store_verification(who(1), kind, digest(kind + 1), 1000 + kind as u64), Ok(()));
        assert_eq!(
            r.get_user_verification(who(1), kind),
            (digest(kind + 1), 1000 + kind as u64, true)
        );
        assert_eq!(
            r.get_my_verification(who(1), kind),
            (digest(kind + 1), 1000 + kind as u64, true)
        );
        assert_eq!(r.get_user_verification(who(2), kind), ([0u8; 32], 0, false));
    }
}

#[test]
fn store_rejects_codes_above_five() {
    for kind in [6u8, 7, 100, 255] {
        let mut r = VerificationContract::new();
        r.store_verification(who(1), 2, digest(9), 5).unwrap();
        assert_eq!(
            r.store_verification(who(1), kind, digest(1), 10),
            Err(RegistryError::InvalidVerificationType)
        );
        assert_eq!(
            r.store_verification(who(2), kind, digest(1), 10),
            Err(RegistryError::InvalidVerificationType)
        );
        assert_eq!(r.get_total_users(), 1);
        assert_eq!(r.get_user_verification(who(1), 2), (digest(9), 5, true));
        assert_eq!(r.get_user_verification(who(1), 6), ([0u8; 32], 0, false));
        assert_eq!(r.get_user_all_verifications(who(1)).0, vec![2u8]);
        assert!(r.get_user_all_verifications(who(2)).0.is_empty());
    }
}

#[test]
fn error_message_is_readable() {
    assert_eq!(
        RegistryError::InvalidVerificationType.message(),
        b"Invalid verification type".to_vec()
    );
}

#[test]
fn reads_above_six_give_the_sentinel() {
    let mut r = VerificationContract::new();
    for kind in 0u8..=5 {
        r.store_verification(who(1), kind, digest(3), 3).unwrap();
    }
    r.store_hash(who(1), digest(4), 4).unwrap();
    for kind in [7u8, 8, 200, 255] {
        assert_eq!(r.get_user_verification(who(1), kind), ([0u8; 32], 0, false));
        assert_eq!(r.get_my_verification(who(1), kind), ([0u8; 32], 0, false));
        assert!(!r.has_verification(who(1), kind));
    }
    assert!(r.has_verification(who(1), 6));
    assert_eq!(r.get_user_verification(who(1), 6), (digest(4), 4, true));
}

#[test]
fn second_store_does_not_count_again() {
    let mut r = VerificationContract::new();
    r.store_verification(who(1), 0, digest(1), 1).unwrap();
    assert_eq!(r.get_total_users(), 1);
    r.store_verification(who(1), 1, digest(2), 2).unwrap();
    r.store_verification(who(1), 0, digest(3), 3).unwrap();
    r.store_hash(who(1), digest(4), 4).unwrap();
    assert_eq!(r.get_total_users(), 1);
    let (addresses, _, _) = r.get_all_stored_hashes_and_timestamps();
    assert_eq!(addresses, vec![who(1)]);
}

#[test]
fn first_store_counts_once_per_principal() {
    let mut r = VerificationContract::new();
    r.store_hash(who(3), digest(3), 30).unwrap();
    assert_eq!(r.get_total_users(), 1);
    r.store_verification(who(1), 5, digest(1), 10).unwrap();
    assert_eq!(r.get_total_users(), 2);
    r.store_hash(who(2), digest(2), 20).unwrap();
    assert_eq!(r.get_total_users(), 3);
    r.store_hash(who(1), digest(7), 70).unwrap();
    assert_eq!(r.get_total_users(), 3);
    let (addresses, hashes, timestamps) = r.get_all_stored_hashes_and_timestamps();
    assert_eq!(addresses, vec![who(3), who(1), who(2)]);
    assert_eq!(hashes, vec![digest(3), digest(7), digest(2)]);
    assert_eq!(timestamps, vec![30u64, 70, 20]);
}

#[test]
fn deactivation_keeps_count_and_log() {
    let mut r = VerificationContract::new();
    r.store_hash(who(1), digest(1), 10).unwrap();
    r.store_hash(who(2), digest(2), 20).unwrap();
    assert_eq!(r.deactivate_verification(who(1), 6), Ok(()));
    assert_eq!(r.get_total_users(), 2);
    let (addresses, hashes, timestamps) = r.get_all_stored_hashes_and_timestamps();
    assert_eq!(addresses, vec![who(2)]);
    assert_eq!(hashes, vec![digest(2)]);
    assert_eq!(timestamps, vec![20u64]);
    assert_eq!(r.get_user_verification(who(1), 6), (digest(1), 10, false));
    assert_eq!(r.hash_document(who(1)), ([0u8; 32], 0));
}

#[test]
fn deactivation_rejects_codes_above_six() {
    let mut r = VerificationContract::new();
    r.store_verification(who(1), 0, digest(1), 10).unwrap();
    assert_eq!(
        r.deactivate_verification(who(1), 7),
        Err(RegistryError::InvalidVerificationType)
    );
    assert_eq!(
        r.deactivate_verification(who(1), 255),
        Err(RegistryError::InvalidVerificationType)
    );
    assert_eq!(r.get_user_verification(who(1), 0), (digest(1), 10, true));
    assert_eq!(r.get_total_users(), 1);
}

#[test]
fn deactivating_an_unwritten_slot_changes_nothing() {
    let mut r = VerificationContract::new();
    assert_eq!(r.deactivate_verification(who(1), 4), Ok(()));
    assert_eq!(r.get_user_verification(who(1), 4), ([0u8; 32], 0, false));
    assert_eq!(r.get_total_users(), 0);
    r.store_verification(who(1), 4, digest(1), 1).unwrap();
    assert_eq!(r.get_total_users(), 1);
}

#[test]
fn deactivation_touches_one_slot_of_one_principal() {
    let mut r = VerificationContract::new();
    r.store_verification(who(1), 2, digest(1), 10).unwrap();
    r.store_verification(who(1), 3, digest(2), 20).unwrap();
    r.store_verification(who(2), 2, digest(3), 30).unwrap();
    r.deactivate_verification(who(1), 2).unwrap();
    assert_eq!(r.get_user_verification(who(1), 2), (digest(1), 10, false));
    assert_eq!(r.get_user_verification(who(1), 3), (digest(2), 20, true));
    assert_eq!(r.get_user_verification(who(2), 2), (digest(3), 30, true));
}

#[test]
fn store_after_full_deactivation_is_a_first_write_again() {
    let mut r = VerificationContract::new();
    r.store_hash(who(1), digest(1), 10).unwrap();
    r.deactivate_verification(who(1), 6).unwrap();
    r.store_hash(who(1), digest(2), 20).unwrap();
    assert_eq!(r.get_total_users(), 2);
    let (addresses, hashes, timestamps) = r.get_all_stored_hashes_and_timestamps();
    assert_eq!(addresses, vec![who(1), who(1)]);
    assert_eq!(hashes, vec![digest(2), digest(2)]);
    assert_eq!(timestamps, vec![20u64, 20]);
}

#[test]
fn completion_percentage_truncates() {
    let mut r = VerificationContract::new();
    let expected = [16u8, 33, 50, 66, 83, 100];
    assert_eq!(r.get_completion_percentage(who(1)), 0);
    for kind in 0u8..=5 {
        r.store_verification(who(1), kind, digest(kind), 1).unwrap();
        assert_eq!(r.get_completion_percentage(who(1)), expected[kind as usize]);
    }
    assert_eq!(r.get_completion_percentage(who(2)), 0);
}

#[test]
fn completion_percentage_ignores_legacy_and_inactive() {
    let mut r = VerificationContract::new();
    r.store_hash(who(1), digest(1), 1).unwrap();
    assert_eq!(r.get_completion_percentage(who(1)), 0);
    r.store_verification(who(1), 1, digest(1), 1).unwrap();
    r.store_verification(who(1), 3, digest(1), 1).unwrap();
    r.store_verification(who(1), 5, digest(1), 1).unwrap();
    assert_eq!(r.get_completion_percentage(who(1)), 50);
    r.deactivate_verification(who(1), 3).unwrap();
    assert_eq!(r.get_completion_percentage(who(1)), 33);
}

#[test]
fn all_verifications_lists_only_active_in_ascending_order() {
    let mut r = VerificationContract::new();
    r.store_verification(who(1), 3, digest(3), 300).unwrap();
    r.store_verification(who(1), 1, digest(1), 100).unwrap();
    r.store_verification(who(1), 4, digest(4), 400).unwrap();
    r.deactivate_verification(who(1), 4).unwrap();
    let (types, hashes, timestamps, statuses) = r.get_user_all_verifications(who(1));
    assert_eq!(types, vec![1u8, 3]);
    assert_eq!(hashes, vec![digest(1), digest(3)]);
    assert_eq!(timestamps, vec![100u64, 300]);
    assert_eq!(statuses, vec![true, true]);
    assert_eq!(r.get_my_all_verifications(who(1)), (types, hashes, timestamps, statuses));
    let (types, hashes, timestamps, statuses) = r.get_user_all_verifications(who(2));
    assert!(types.is_empty() && hashes.is_empty() && timestamps.is_empty() && statuses.is_empty());
}

#[test]
fn all_verifications_includes_the_legacy_slot() {
    let mut r = VerificationContract::new();
    r.store_hash(who(1), digest(6), 600).unwrap();
    r.store_verification(who(1), 0, digest(0), 1).unwrap();
    let (types, hashes, timestamps, statuses) = r.get_user_all_verifications(who(1));
    assert_eq!(types, vec![0u8, 6]);
    assert_eq!(hashes, vec![digest(0), digest(6)]);
    assert_eq!(timestamps, vec![1u64, 600]);
    assert_eq!(statuses, vec![true, true]);
}

#[test]
fn verification_status_covers_the_six_primary_codes() {
    let mut r = VerificationContract::new();
    r.store_verification(who(1), 0, digest(1), 1).unwrap();
    r.store_verification(who(1), 2, digest(1), 1).unwrap();
    r.store_verification(who(1), 5, digest(1), 1).unwrap();
    r.store_hash(who(1), digest(1), 1).unwrap();
    assert_eq!(r.get_verification_status(who(1)), (true, false, true, false, false, true));
    assert_eq!(r.get_verification_status(who(2)), (false, false, false, false, false, false));
}

#[test]
fn has_verification_follows_the_active_flag() {
    let mut r = VerificationContract::new();
    assert!(!r.has_verification(who(1), 2));
    r.store_verification(who(1), 2, digest(1), 1).unwrap();
    assert!(r.has_verification(who(1), 2));
    assert!(!r.has_verification(who(1), 1));
    assert!(!r.has_verification(who(2), 2));
    r.deactivate_verification(who(1), 2).unwrap();
    assert!(!r.has_verification(who(1), 2));
}

#[test]
fn verify_document_needs_active_and_exact_match() {
    let mut r = VerificationContract::new();
    assert!(!r.verify_document(who(1), [0u8; 32], 0));
    r.store_hash(who(1), digest(5), 50).unwrap();
    assert!(r.verify_document(who(1), digest(5), 50));
    assert!(!r.verify_document(who(1), digest(5), 51));
    assert!(!r.verify_document(who(1), digest(6), 50));
    let mut near = digest(5);
    near[31] = 6;
    assert!(!r.verify_document(who(1), near, 50));
    assert!(!r.verify_document(who(2), digest(5), 50));
    r.deactivate_verification(who(1), 6).unwrap();
    assert!(!r.verify_document(who(1), digest(5), 50));
}

#[test]
fn hash_document_reads_the_legacy_slot() {
    let mut r = VerificationContract::new();
    assert_eq!(r.hash_document(who(1)), ([0u8; 32], 0));
    r.store_verification(who(1), 0, digest(9), 90).unwrap();
    assert_eq!(r.hash_document(who(1)), ([0u8; 32], 0));
    r.store_hash(who(1), digest(5), 50).unwrap();
    assert_eq!(r.hash_document(who(1)), (digest(5), 50));
    r.store_hash(who(1), digest(6), 60).unwrap();
    assert_eq!(r.hash_document(who(1)), (digest(6), 60));
}

#[test]
fn store_after_deactivate_restores_with_new_values() {
    for kind in 0u8..=5 {
        let mut r = VerificationContract::new();
        r.store_verification(who(1), kind, digest(1), 10).unwrap();
        r.deactivate_verification(who(1), kind).unwrap();
        assert_eq!(r.get_user_verification(who(1), kind), (digest(1), 10, false));
        r.store_verification(who(1), kind, digest(2), 20).unwrap();
        assert_eq!(r.get_user_verification(who(1), kind), (digest(2), 20, true));
    }
}

#[test]
fn named_stores_write_their_own_code() {
    let mut r = VerificationContract::new();
    r.store_identity_verification(who(1), digest(10), 100).unwrap();
    r.store_address_verification(who(1), digest(11), 101).unwrap();
    r.store_device_verification(who(1), digest(12), 102).unwrap();
    r.store_email_verification(who(1), digest(13), 103).unwrap();
    r.store_community_verification(who(1), digest(14), 104).unwrap();
    r.store_trust_score(who(1), digest(15), 105).unwrap();
    for kind in 0u8..=5 {
        assert_eq!(
            r.get_user_verification(who(1), kind),
            (digest(10 + kind), 100 + kind as u64, true)
        );
    }
    assert_eq!(r.get_total_users(), 1);
    assert_eq!(r.get_completion_percentage(who(1)), 100);
}

#[test]
fn legacy_listing_skips_principals_without_document() {
    let mut r = VerificationContract::new();
    r.store_verification(who(1), 0, digest(1), 10).unwrap();
    r.store_hash(who(2), digest(2), 20).unwrap();
    r.store_verification(who(3), 5, digest(3), 30).unwrap();
    assert_eq!(r.get_total_users(), 3);
    let (addresses, hashes, timestamps) = r.get_all_stored_hashes_and_timestamps();
    assert_eq!(addresses, vec![who(2)]);
    assert_eq!(hashes, vec![digest(2)]);
    assert_eq!(timestamps, vec![20u64]);
}

#[test]
fn principals_differ_by_any_byte() {
    let mut r = VerificationContract::new();
    let mut a = [0u8; 20];
    a[0] = 1;
    let mut b = [0u8; 20];
    b[19] = 1;
    r.store_verification(Principal { bytes: a }, 0, digest(1), 1).unwrap();
    assert!(r.has_verification(Principal { bytes: a }, 0));
    assert!(!r.has_verification(Principal { bytes: b }, 0));
    assert!(!r.has_verification(Principal { bytes: [0u8; 20] }, 0));
    assert!(Principal { bytes: a }.same(&Principal { bytes: a }));
    assert!(!Principal { bytes: a }.same(&Principal { bytes: b }));
}

#[test]
fn blank_entry_is_zero_and_inactive() {
    assert_eq!(
        VerificationEntry::blank(),
        VerificationEntry { data_hash: [0u8; 32], timestamp: 0, is_active: false }
    );
}

#[test]
fn same_bytes_compares_every_position() {
    assert!(same_bytes(&[1u8, 2, 3], &[1u8, 2, 3]));
    assert!(!same_bytes(&[1u8, 2, 3], &[1u8, 2, 4]));
    assert!(!same_bytes(&[0u8, 2, 3], &[1u8, 2, 3]));
    assert!(same_bytes::<0>(&[], &[]));
}
