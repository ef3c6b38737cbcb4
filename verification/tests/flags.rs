//! Decomposition of flag words into known bits.

use vk_profiles_rs::flags::debug_flags;

#[test]
fn every_known_flag_present_is_selected_in_order() {
    let known = vec![0x1, 0x2, 0x4];
    let (selected, rest) = debug_flags(&known, 0x5);
    assert_eq!(selected, vec![0, 2]);
    assert_eq!(rest, 0);
}

#[test]
fn leftover_bits_are_reported_as_residual() {
    let known = vec![0x1, 0x2];
    let (selected, rest) = debug_flags(&known, 0xb);
    assert_eq!(selected, vec![0, 1]);
    assert_eq!(rest, 0x8);
}

#[test]
fn a_zero_flag_is_never_selected() {
    let known = vec![0x0, 0x2];
    let (selected, rest) = debug_flags(&known, 0x2);
    assert_eq!(selected, vec![1]);
    assert_eq!(rest, 0);
}

#[test]
fn claimed_bits_are_not_attributed_twice() {
    // The first flag claims both bits; the narrower duplicate no longer applies.
    let known = vec![0x3, 0x1];
    let (selected, rest) = debug_flags(&known, 0x3);
    assert_eq!(selected, vec![0]);
    assert_eq!(rest, 0);
}

#[test]
fn a_composite_flag_needs_all_its_bits() {
    let known = vec![0x6, 0x2];
    let (selected, rest) = debug_flags(&known, 0x2);
    assert_eq!(selected, vec![1]);
    assert_eq!(rest, 0);
}

#[test]
fn nothing_known_leaves_everything_residual() {
    let known: Vec<u64> = Vec::new();
    let (selected, rest) = debug_flags(&known, 0x30);
    assert!(selected.is_empty());
    assert_eq!(rest, 0x30);
}

#[test]
fn a_zero_word_selects_nothing() {
    let known = vec![0x1, 0x2, 0x4];
    let (selected, rest) = debug_flags(&known, 0);
    assert!(selected.is_empty());
    assert_eq!(rest, 0);
}
