use aether::volunteer::requirements::{meets_minimum, recommended_micro_batch, MIN_VRAM_MIB};

#[test]
fn below_floor_is_blocked_and_not_recommended() {
    assert!(!meets_minimum(Some(2048)));
    assert_eq!(recommended_micro_batch(Some(2048)), None);
}

#[test]
fn at_floor_passes_with_batch_one() {
    assert!(meets_minimum(Some(MIN_VRAM_MIB)));
    assert_eq!(recommended_micro_batch(Some(MIN_VRAM_MIB)), Some(1));
}

#[test]
fn ladder_matches_vram() {
    assert_eq!(recommended_micro_batch(Some(6 * 1024)), Some(1));
    assert_eq!(recommended_micro_batch(Some(8 * 1024)), Some(2));
    assert_eq!(recommended_micro_batch(Some(12 * 1024)), Some(2));
    assert_eq!(recommended_micro_batch(Some(16 * 1024)), Some(4));
    assert_eq!(recommended_micro_batch(Some(24 * 1024)), Some(8));
    assert_eq!(recommended_micro_batch(Some(48 * 1024)), Some(8));
}

#[test]
fn unknown_vram_is_not_gated_and_has_no_recommendation() {
    assert!(meets_minimum(None));
    assert_eq!(recommended_micro_batch(None), None);
}
