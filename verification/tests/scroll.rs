use site_core::scroll::{
    affordance_visible, scroll_to_top, Behavior, ScrollRequest, INFINITY_BITS, THRESHOLD_BITS,
};

fn visible_at(offset: f64) -> bool {
    affordance_visible(offset.to_bits())
}

#[test]
fn threshold_bits_are_those_of_one() {
    assert_eq!(THRESHOLD_BITS, 1.0f64.to_bits());
    assert_eq!(INFINITY_BITS, f64::INFINITY.to_bits());
}

#[test]
fn affordance_is_absent_at_the_threshold_and_below() {
    assert!(!visible_at(1.0));
    assert!(!visible_at(0.9999999999999999));
    assert!(!visible_at(0.5));
    assert!(!visible_at(0.0));
    assert!(!visible_at(f64::MIN_POSITIVE));
    assert!(!visible_at(5e-324));
}

#[test]
fn affordance_is_present_above_the_threshold() {
    assert!(visible_at(1.0000000000000002));
    assert!(visible_at(1.5));
    assert!(visible_at(2.0));
    assert!(visible_at(640.0));
    assert!(visible_at(f64::MAX));
    assert!(visible_at(f64::INFINITY));
}

#[test]
fn affordance_is_absent_for_negative_offsets() {
    assert!(!visible_at(-0.0));
    assert!(!visible_at(-1.0));
    assert!(!visible_at(-2.5));
    assert!(!visible_at(f64::MIN));
    assert!(!visible_at(f64::NEG_INFINITY));
}

#[test]
fn affordance_is_absent_for_an_offset_that_is_no_number() {
    assert!(!visible_at(f64::NAN));
    assert!(!visible_at(-f64::NAN));
    assert!(!affordance_visible(0x7FF0_0000_0000_0001));
    assert!(!affordance_visible(0xFFFF_FFFF_FFFF_FFFF));
}

#[test]
fn affordance_agrees_with_the_comparison_of_numbers() {
    let mut bits: u64 = 0x9E37_79B9_7F4A_7C15;
    for _ in 0..20000 {
        bits = bits.wrapping_mul(6364136223846793005).wrapping_add(1442695040888963407);
        let offset = f64::from_bits(bits);
        assert_eq!(affordance_visible(bits), offset > 1.0, "offset {:?}", offset);
        let near = f64::from_bits(THRESHOLD_BITS.wrapping_add(bits >> 40).wrapping_sub(1 << 23));
        assert_eq!(affordance_visible(near.to_bits()), near > 1.0, "offset {:?}", near);
    }
}

#[test]
fn using_the_affordance_asks_for_a_smooth_scroll_to_zero() {
    let request = scroll_to_top();
    assert_eq!(request, ScrollRequest { top: 0, behavior: Behavior::Smooth });
    assert_eq!(request.top, 0);
    assert_ne!(request.behavior, Behavior::Instant);
    assert_ne!(request.behavior, Behavior::Auto);
}
