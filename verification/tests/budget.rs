use fractal_core::budget::cap_boosted;
use fractal_core::budget::cap_scaled;
use fractal_core::budget::clamp_base;
use fractal_core::budget::fast_cap;
use fractal_core::budget::lower_base;
use fractal_core::budget::raise_base;
use fractal_core::budget::BASE_STEP;
use fractal_core::budget::BASE_STEP_FLOOR;
use fractal_core::budget::FAST_FLOOR;
use fractal_core::budget::ITERATION_CEILING;

#[test]
fn the_constants_have_their_documented_values() {
    assert_eq!(ITERATION_CEILING, 5000);
    assert_eq!(FAST_FLOOR, 80);
    assert_eq!(BASE_STEP, 10);
    assert_eq!(BASE_STEP_FLOOR, 10);
}

#[test]
fn clamp_base_holds_the_request_to_one_through_the_ceiling() {
    assert_eq!(clamp_base(0), 1);
    assert_eq!(clamp_base(1), 1);
    assert_eq!(clamp_base(500), 500);
    assert_eq!(clamp_base(5000), 5000);
    assert_eq!(clamp_base(5001), 5000);
    assert_eq!(clamp_base(u32::MAX), 5000);
}

#[test]
fn cap_scaled_keeps_values_within_the_ceiling() {
    assert_eq!(cap_scaled(0), 0);
    assert_eq!(cap_scaled(500), 500);
    assert_eq!(cap_scaled(4999), 4999);
    assert_eq!(cap_scaled(5000), 5000);
}

#[test]
fn cap_scaled_cuts_values_beyond_the_ceiling() {
    assert_eq!(cap_scaled(5001), 5000);
    assert_eq!(cap_scaled(u32::MAX), 5000);
}

#[test]
fn cap_boosted_adds_the_bonus() {
    assert_eq!(cap_boosted(500, 0), 500);
    assert_eq!(cap_boosted(500, 50), 550);
    assert_eq!(cap_boosted(500, 184), 684);
    assert_eq!(cap_boosted(4000, 1000), 5000);
}

#[test]
fn cap_boosted_stops_at_the_ceiling() {
    assert_eq!(cap_boosted(4990, 11), 5000);
    assert_eq!(cap_boosted(5000, 1), 5000);
    assert_eq!(cap_boosted(6000, 0), 5000);
    assert_eq!(cap_boosted(u32::MAX, u32::MAX), 5000);
    assert_eq!(cap_boosted(1, u32::MAX), 5000);
}

#[test]
fn the_effective_cap_is_never_below_a_base_within_the_ceiling() {
    for base in [1u32, 10, 500, 4999, 5000] {
        for bonus in [0u32, 1, 49, 50, 5000, u32::MAX] {
            let effective = cap_boosted(base, bonus);
            assert!(effective >= base);
            assert!(effective <= 5000);
        }
        for factor in [1u32, 2, 3, 100] {
            let effective = cap_scaled(base.saturating_mul(factor));
            assert!(effective >= base);
            assert!(effective <= 5000);
        }
    }
}

#[test]
fn the_effective_cap_does_not_decrease_with_a_growing_term() {
    let mut last_scaled = 0;
    let mut last_boosted = 0;
    for term in 0..6000u32 {
        let scaled = cap_scaled(term);
        let boosted = cap_boosted(700, term);
        assert!(scaled >= last_scaled);
        assert!(boosted >= last_boosted);
        last_scaled = scaled;
        last_boosted = boosted;
    }
}

#[test]
fn fast_cap_is_three_quarters_rounded_down() {
    assert_eq!(fast_cap(200), 150);
    assert_eq!(fast_cap(500), 375);
    assert_eq!(fast_cap(5000), 3750);
    assert_eq!(fast_cap(109), 81);
    assert_eq!(fast_cap(110), 82);
    assert_eq!(fast_cap(111), 83);
    assert_eq!(fast_cap(u32::MAX), 3_221_225_471);
}

#[test]
fn fast_cap_has_a_floor_of_eighty() {
    assert_eq!(fast_cap(0), 80);
    assert_eq!(fast_cap(50), 80);
    assert_eq!(fast_cap(80), 80);
    assert_eq!(fast_cap(106), 80);
    assert_eq!(fast_cap(107), 80);
    assert_eq!(fast_cap(108), 81);
}

#[test]
fn fast_cap_agrees_with_the_fraction_on_every_cap_up_to_the_ceiling() {
    for effective in 0..=5000u32 {
        let expected = ((effective as f64 * 0.75) as u32).max(80);
        assert_eq!(fast_cap(effective), expected);
    }
}

#[test]
fn raise_base_steps_up_by_ten() {
    assert_eq!(raise_base(500), 510);
    assert_eq!(raise_base(10), 20);
    assert_eq!(raise_base(4989), 4999);
    assert_eq!(raise_base(4990), 5000);
}

#[test]
fn raise_base_stops_at_the_ceiling() {
    assert_eq!(raise_base(4991), 5000);
    assert_eq!(raise_base(5000), 5000);
    assert_eq!(raise_base(u32::MAX), 5000);
}

#[test]
fn lower_base_steps_down_by_ten() {
    assert_eq!(lower_base(500), 490);
    assert_eq!(lower_base(21), 11);
    assert_eq!(lower_base(20), 10);
}

#[test]
fn lower_base_stops_at_ten() {
    assert_eq!(lower_base(19), 10);
    assert_eq!(lower_base(10), 10);
    assert_eq!(lower_base(3), 10);
    assert_eq!(lower_base(0), 10);
}
