use altair_consensus::flags::{add_flag, has_flag};
use altair_consensus::primitives::{
    TIMELY_HEAD_FLAG_INDEX, TIMELY_SOURCE_FLAG_INDEX, TIMELY_TARGET_FLAG_INDEX,
};

#[test]
fn add_flag_sets_the_bit_of_the_flag() {
    assert_eq!(add_flag(0, 0), 0b001);
    assert_eq!(add_flag(0, 1), 0b010);
    assert_eq!(add_flag(0, 2), 0b100);
    assert_eq!(add_flag(0b001, 2), 0b101);
    assert_eq!(add_flag(0, 7), 0b1000_0000);
}

#[test]
fn add_flag_is_idempotent() {
    for flags in 0..=255u8 {
        for index in 0..8u8 {
            let once = add_flag(flags, index);
            assert_eq!(add_flag(once, index), once);
        }
    }
}

#[test]
fn has_flag_tests_the_bit_of_the_flag() {
    assert!(has_flag(0b001, TIMELY_SOURCE_FLAG_INDEX as u8));
    assert!(!has_flag(0b001, TIMELY_TARGET_FLAG_INDEX as u8));
    assert!(!has_flag(0b001, TIMELY_HEAD_FLAG_INDEX as u8));
    assert!(has_flag(0b110, TIMELY_TARGET_FLAG_INDEX as u8));
    assert!(has_flag(0b110, TIMELY_HEAD_FLAG_INDEX as u8));
    assert!(!has_flag(0, 0));
    assert!(has_flag(0xff, 7));
}

#[test]
fn an_added_flag_is_present_and_the_others_are_untouched() {
    for flags in 0..=255u8 {
        for index in 0..8u8 {
            let added = add_flag(flags, index);
            assert!(has_flag(added, index));
            for other in 0..8u8 {
                if other != index {
                    assert_eq!(has_flag(added, other), has_flag(flags, other));
                }
            }
        }
    }
}

#[test]
fn the_rules_are_reachable_from_the_crate_root() {
    assert_eq!(altair_consensus::add_flag(0b010, 0), 0b011);
    assert!(altair_consensus::has_flag(0b010, 1));
    assert!(altair_consensus::Context::for_mainnet().is_well_formed());
}
