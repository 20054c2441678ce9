use parsec_se_driver::key_slot::{
    allocate_key_slot, key_slot_to_key_name, validate_key_slot, KEY_NAME_PREFIX,
};
use parsec_se_driver::status::PSA_SUCCESS;

#[test]
fn key_names_of_chosen_slots() {
    assert_eq!(key_slot_to_key_name(0), "parsec-se-driver-key0");
    assert_eq!(key_slot_to_key_name(7), "parsec-se-driver-key7");
    assert_eq!(key_slot_to_key_name(10), "parsec-se-driver-key10");
    assert_eq!(key_slot_to_key_name(42), "parsec-se-driver-key42");
    assert_eq!(key_slot_to_key_name(1000), "parsec-se-driver-key1000");
    assert_eq!(
        key_slot_to_key_name(u64::MAX),
        "parsec-se-driver-key18446744073709551615"
    );
}

#[test]
fn key_names_match_decimal_formatting() {
    let mut slot: u64 = 1;
    for _ in 0..64 {
        assert_eq!(key_slot_to_key_name(slot), format!("parsec-se-driver-key{}", slot));
        assert_eq!(key_slot_to_key_name(slot - 1), format!("parsec-se-driver-key{}", slot - 1));
        slot = slot.wrapping_mul(3).wrapping_add(1);
    }
}

#[test]
fn key_names_are_distinct() {
    let slots = [0u64, 1, 9, 10, 11, 100, 101, 1000, 1_000_000, u64::MAX - 1, u64::MAX];
    for (i, a) in slots.iter().enumerate() {
        for (j, b) in slots.iter().enumerate() {
            let same = key_slot_to_key_name(*a) == key_slot_to_key_name(*b);
            assert_eq!(same, i == j);
        }
    }
}

#[test]
fn key_names_start_with_prefix_then_digits() {
    for slot in [0u64, 5, 123_456_789, u64::MAX].iter() {
        let name = key_slot_to_key_name(*slot);
        assert!(name.starts_with(KEY_NAME_PREFIX));
        let rest = &name[KEY_NAME_PREFIX.len()..];
        assert!(!rest.is_empty());
        assert!(rest.chars().all(|c| c.is_ascii_digit()));
    }
}

#[test]
fn allocated_slot_is_the_key_id() {
    assert_eq!(allocate_key_slot(0), 0);
    assert_eq!(allocate_key_slot(7), 7);
    assert_eq!(allocate_key_slot(u32::MAX), u32::MAX as u64);
    assert_eq!(key_slot_to_key_name(allocate_key_slot(12)), "parsec-se-driver-key12");
}

#[test]
fn every_slot_is_valid() {
    assert_eq!(validate_key_slot(0), PSA_SUCCESS);
    assert_eq!(validate_key_slot(u64::MAX), PSA_SUCCESS);
}
