use rmk::pointing::{
    compute_caret_taps, CaretConfig, CursorConfig, MotionAccumulator, PointingMode, ScrollConfig,
    SniperConfig, KC_DOWN, KC_LEFT, KC_RIGHT, KC_UP,
};

// === MotionAccumulator tests ===

#[test]
fn test_motion_accumulator_basic() {
    let mut acc = MotionAccumulator::default();

    // divisor=8: 3/8 = 0 remainder 3
    let (ox, oy) = acc.accumulate(3, 3, (1, 8), (1, 8));
    assert_eq!(ox, 0);
    assert_eq!(oy, 0);
    assert_eq!(acc.remainder_x(), 3);
    assert_eq!(acc.remainder_y(), 3);

    // 3+6=9, 9/8=1 remainder 1
    let (ox, oy) = acc.accumulate(6, 6, (1, 8), (1, 8));
    assert_eq!(ox, 1);
    assert_eq!(oy, 1);
    assert_eq!(acc.remainder_x(), 1);
    assert_eq!(acc.remainder_y(), 1);
}

#[test]
fn test_motion_accumulator_negative() {
    let mut acc = MotionAccumulator::default();

    // Negative motion: -10/4 = -2 remainder -2
    let (ox, oy) = acc.accumulate(-10, -10, (1, 4), (1, 4));
    assert_eq!(ox, -2);
    assert_eq!(oy, -2);
    assert_eq!(acc.remainder_x(), -2);
    assert_eq!(acc.remainder_y(), -2);
}

#[test]
fn test_motion_accumulator_reset() {
    let mut acc = MotionAccumulator::default();
    acc.accumulate(3, 5, (1, 8), (1, 8));
    assert_ne!(acc.remainder_x(), 0);

    acc.reset();
    assert_eq!(acc.remainder_x(), 0);
    assert_eq!(acc.remainder_y(), 0);
}

#[test]
fn test_motion_accumulator_zero_divisor_disables_axis() {
    let mut acc = MotionAccumulator::default();
    // divisor 0 should disable that axis (output 0)
    let (ox, oy) = acc.accumulate(5, -3, (1, 0), (1, 0));
    assert_eq!(ox, 0);
    assert_eq!(oy, 0);

    // One axis disabled, the other active
    let (ox, oy) = acc.accumulate(10, 10, (1, 0), (1, 2));
    assert_eq!(ox, 0); // X disabled
    assert_eq!(oy, 5); // 10/2 = 5

    // Remainder should not accumulate on disabled axis
    acc.reset();
    acc.accumulate(3, 3, (1, 0), (1, 8));
    acc.accumulate(3, 3, (1, 0), (1, 8));
    let (ox, oy) = acc.accumulate(3, 3, (1, 0), (1, 8));
    assert_eq!(ox, 0); // X always 0
    assert_eq!(oy, 1); // (3+3+3)/8 = 1 remainder 1
}

#[test]
fn test_motion_accumulator_asymmetric_divisors() {
    let mut acc = MotionAccumulator::default();
    // Different divisors for x and y
    let (ox, oy) = acc.accumulate(10, 10, (1, 2), (1, 5));
    assert_eq!(ox, 5); // 10/2
    assert_eq!(oy, 2); // 10/5
}

#[test]
fn test_motion_accumulator_persistent_keeps_total_in_remainder() {
    // accumulate_persistent does NOT subtract the output from the
    // remainder. The remainder is the full signed running total; the
    // output is just total / divisor. This is what caret mode needs:
    // the caller decides when to "spend" the remainder (via reset_x/y).
    let mut acc = MotionAccumulator::default();
    let (ox, oy) = acc.accumulate_persistent(150, 0, (1, 100), (1, 100));
    assert_eq!(ox, 1); // 150 / 100
    assert_eq!(oy, 0);
    assert_eq!(acc.remainder_x(), 150); // total, NOT 50
    assert_eq!(acc.remainder_y(), 0);

    // Second call: total_x = 150 + 50 = 200, out=2, remainder=200
    let (ox, oy) = acc.accumulate_persistent(50, 0, (1, 100), (1, 100));
    assert_eq!(ox, 2); // 200 / 100
    assert_eq!(oy, 0);
    assert_eq!(acc.remainder_x(), 200);
    assert_eq!(acc.remainder_y(), 0);
}

#[test]
fn test_motion_accumulator_persistent_independent_axes() {
    // X and Y remainders are independent in accumulate_persistent:
    // movement on one axis never touches the other's running total.
    let mut acc = MotionAccumulator::default();
    let (ox, oy) = acc.accumulate_persistent(150, 0, (1, 100), (1, 100));
    assert_eq!(ox, 1);
    assert_eq!(oy, 0);
    assert_eq!(acc.remainder_x(), 150);
    assert_eq!(acc.remainder_y(), 0);

    // Now move purely on Y. X total is preserved (still 150), Y starts fresh.
    let (ox, oy) = acc.accumulate_persistent(0, 150, (1, 100), (1, 100));
    assert_eq!(ox, 1); // X total 150 / 100
    assert_eq!(oy, 1); // Y total 150 / 100
    assert_eq!(acc.remainder_x(), 150);
    assert_eq!(acc.remainder_y(), 150);
}

#[test]
fn test_motion_accumulator_persistent_sub_threshold_accumulates() {
    // Several sub-threshold samples must build up the running total
    // in the remainder. The output (total / divisor) stays 0 until the
    // total crosses the threshold; then output jumps and remainder
    // continues to grow. Caret mode relies on the running total so
    // that slow deltas are not lost.
    let mut acc = MotionAccumulator::default();

    let (ox, oy) = acc.accumulate_persistent(30, 30, (1, 100), (1, 100));
    assert_eq!(ox, 0);
    assert_eq!(oy, 0);
    assert_eq!(acc.remainder_x(), 30);
    assert_eq!(acc.remainder_y(), 30);

    let (ox, oy) = acc.accumulate_persistent(30, 30, (1, 100), (1, 100));
    assert_eq!(ox, 0);
    assert_eq!(oy, 0);
    assert_eq!(acc.remainder_x(), 60);
    assert_eq!(acc.remainder_y(), 60);

    let (ox, oy) = acc.accumulate_persistent(30, 30, (1, 100), (1, 100));
    assert_eq!(ox, 0);
    assert_eq!(oy, 0);
    assert_eq!(acc.remainder_x(), 90);
    assert_eq!(acc.remainder_y(), 90);

    // Crosses threshold: total 90 + 20 = 110, out=1, remainder=110
    let (ox, oy) = acc.accumulate_persistent(20, 20, (1, 100), (1, 100));
    assert_eq!(ox, 1);
    assert_eq!(oy, 1);
    assert_eq!(acc.remainder_x(), 110);
    assert_eq!(acc.remainder_y(), 110);
}

#[test]
fn test_motion_accumulator_persistent_sign_change_in_total() {
    // accumulate_persistent uses a signed running total. A counter-
    // direction sample just subtracts from the total. The caret
    // handler has to detect the sign change and reset that axis
    // (reset_x / reset_y) to avoid direction bias: otherwise
    // small counter-direction samples silently "use up" the running
    // total and block taps in the new direction.
    let mut acc = MotionAccumulator::default();
    acc.accumulate_persistent(80, 0, (1, 100), (1, 100));
    assert_eq!(acc.remainder_x(), 80);

    // Counter-direction sample of 30: total = 80 - 30 = 50, no tap.
    let (ox, oy) = acc.accumulate_persistent(-30, 0, (1, 100), (1, 100));
    assert_eq!(ox, 0);
    assert_eq!(oy, 0);
    assert_eq!(acc.remainder_x(), 50);

    // Cross zero: total = 50 - 80 = -30, remainder becomes negative.
    // No tap fires (still sub-threshold), but the total is now signed.
    let (ox, oy) = acc.accumulate_persistent(-80, 0, (1, 100), (1, 100));
    assert_eq!(ox, 0);
    assert_eq!(oy, 0);
    assert_eq!(acc.remainder_x(), -30);
}

#[test]
fn test_motion_accumulator_persistent_reset_x_and_y() {
    // reset_x() and reset_y() clear the running total of one axis only,
    // leaving the other axis intact. The caret handler uses these on
    // sign change so a stale total in the previous direction cannot
    // bleed into the next sample.
    let mut acc = MotionAccumulator::default();
    acc.accumulate_persistent(80, 80, (1, 100), (1, 100));
    assert_eq!(acc.remainder_x(), 80);
    assert_eq!(acc.remainder_y(), 80);

    acc.reset_x();
    assert_eq!(acc.remainder_x(), 0);
    assert_eq!(acc.remainder_y(), 80);

    // Y continues to build; X is fresh
    let (ox, oy) = acc.accumulate_persistent(30, 30, (1, 100), (1, 100));
    assert_eq!(ox, 0); // 30 / 100
    assert_eq!(oy, 1); // (80 + 30) / 100
    assert_eq!(acc.remainder_x(), 30);
    assert_eq!(acc.remainder_y(), 110);

    acc.reset_y();
    assert_eq!(acc.remainder_x(), 30);
    assert_eq!(acc.remainder_y(), 0);
}

#[test]
fn test_motion_accumulator_persistent_asymmetric_divisors() {
    // Different divisors on X and Y are handled independently. Even
    // though the current CaretConfig uses the same divisor on both
    // axes, the accumulator must work when they differ.
    let mut acc = MotionAccumulator::default();
    let (ox, oy) = acc.accumulate_persistent(10, 10, (1, 2), (1, 5));
    assert_eq!(ox, 5); // 10 / 2
    assert_eq!(oy, 2); // 10 / 5
    assert_eq!(acc.remainder_x(), 10);
    assert_eq!(acc.remainder_y(), 10);
}

#[test]
fn test_motion_accumulator_persistent_divisor_edge_cases() {
    // divisor=1: every unit becomes output; remainder still tracks
    // the full signed total so successive calls keep growing it.
    let mut acc = MotionAccumulator::default();
    let (ox, oy) = acc.accumulate_persistent(7, -3, (1, 1), (1, 1));
    assert_eq!(ox, 7);
    assert_eq!(oy, -3);
    assert_eq!(acc.remainder_x(), 7);
    assert_eq!(acc.remainder_y(), -3);

    // divisor=0 on X: axis is disabled (output 0, remainder_x = 0).
    // divisor=255 on Y: maximal u8 divisor; 50/255 = 0, remainder_y = 50.
    let mut acc = MotionAccumulator::default();
    let (ox, oy) = acc.accumulate_persistent(50, 50, (1, 0), (1, 255));
    assert_eq!(ox, 0);
    assert_eq!(oy, 0);
    assert_eq!(acc.remainder_x(), 0);
    assert_eq!(acc.remainder_y(), 50);
}

// === compute_caret_taps tests ===

fn cfg() -> CaretConfig {
    CaretConfig::default()
}

fn acc() -> MotionAccumulator {
    MotionAccumulator::default()
}

#[test]
fn test_compute_caret_taps_zero_motion_returns_none() {
    let mut a = acc();
    assert!(compute_caret_taps(0, 0, &mut a, &cfg()).is_none());
}

#[test]
fn test_compute_caret_taps_sub_threshold_returns_none() {
    let mut a = acc();
    // |50|+|50| = 100, exactly at threshold → no tap
    assert!(compute_caret_taps(50, 50, &mut a, &cfg()).is_none());
    // Accumulator still tracks the running total even when sub-threshold
    assert_eq!(a.remainder_x(), 50);
    assert_eq!(a.remainder_y(), 50);
}

#[test]
fn test_compute_caret_taps_x_dominant_default_right() {
    let mut a = acc();
    let result = compute_caret_taps(150, 30, &mut a, &cfg());
    // |150|+|30| = 180 > 100. X dominant (150 >= 30). dx>0 + !invert → Right.
    // Loop: reduce_x=-100 → total=(50, 30), |50|+|30|=80<=100 → stop.
    assert_eq!(result, Some((KC_RIGHT, 1)));
    assert_eq!(a.remainder_x(), 50);
    assert_eq!(a.remainder_y(), 0); // non-dominant reset
}

#[test]
fn test_compute_caret_taps_x_dominant_negative_is_left() {
    let mut a = acc();
    let result = compute_caret_taps(-150, 30, &mut a, &cfg());
    assert_eq!(result, Some((KC_LEFT, 1)));
}

#[test]
fn test_compute_caret_taps_y_dominant_default_is_down() {
    let mut a = acc();
    let result = compute_caret_taps(30, 150, &mut a, &cfg());
    // Y dominant, dy>0, !invert → Down (default +Y = down per HID)
    assert_eq!(result, Some((KC_DOWN, 1)));
    assert_eq!(a.remainder_x(), 0); // non-dominant reset
    assert_eq!(a.remainder_y(), 50);
}

#[test]
fn test_compute_caret_taps_invert_y_flips_to_up() {
    let mut a = acc();
    let mut c = cfg();
    c.invert_y = true;
    let result = compute_caret_taps(30, 150, &mut a, &c);
    // dy>0 + invert_y → Up
    assert_eq!(result, Some((KC_UP, 1)));
}

#[test]
fn test_compute_caret_taps_invert_x_flips_to_left() {
    let mut a = acc();
    let mut c = cfg();
    c.invert_x = true;
    let result = compute_caret_taps(150, 30, &mut a, &c);
    // dx>0 + invert_x → Left
    assert_eq!(result, Some((KC_LEFT, 1)));
}

#[test]
fn test_compute_caret_taps_multiple_taps_in_one_event() {
    let mut a = acc();
    let result = compute_caret_taps(250, 0, &mut a, &cfg());
    // X dominant, |250|=250, threshold=100 → 2 taps
    // Iter 1: reduce_x=-100 → total=(150, 0), |150|>100 → tap
    // Iter 2: reduce_x=-100 → total=(50, 0), |50|<=100 → stop
    assert_eq!(result, Some((KC_RIGHT, 2)));
    assert_eq!(a.remainder_x(), 50);
    assert_eq!(a.remainder_y(), 0);
}

#[test]
fn test_compute_caret_taps_sub_threshold_accumulates_across_calls() {
    let mut a = acc();
    // 3 calls of (20, 20): total grows (20,20)→(40,40)→(60,60)
    assert!(compute_caret_taps(20, 20, &mut a, &cfg()).is_none()); // 40
    assert!(compute_caret_taps(20, 20, &mut a, &cfg()).is_none()); // 80
    // 3rd call: |60|+|60|=120 > 100 → tap
    assert_eq!(compute_caret_taps(20, 20, &mut a, &cfg()), Some((KC_RIGHT, 1)));
}

#[test]
fn test_compute_caret_taps_zero_divisor_disables_axis() {
    let mut a = acc();
    let mut c = cfg();
    c.disable_x = true;
    // dx=0, dy=120. |0|+|120|=120 > 100 → tap. Y dominant. dy>0 + !invert → Down.
    assert_eq!(compute_caret_taps(0, 120, &mut a, &c), Some((KC_DOWN, 1)));
}

#[test]
fn test_compute_caret_taps_direction_change_works() {
    let mut a = acc();
    // First a Right tap
    assert_eq!(
        compute_caret_taps(150, 30, &mut a, &cfg()),
        Some((KC_RIGHT, 1))
    );
    // After: remainder_x = 50, remainder_y = 0 (reset)
    assert_eq!(a.remainder_x(), 50);
    assert_eq!(a.remainder_y(), 0);

    // Now move left. -200 + 50 (carry-over) = -150 → |-150|=150>100 → tap
    assert_eq!(compute_caret_taps(-200, 0, &mut a, &cfg()), Some((KC_LEFT, 1)));
}

#[test]
fn test_compute_caret_taps_threshold_at_exactly_boundary() {
    let mut a = acc();
    // |100|+|0| = 100, exactly threshold → no tap
    assert!(compute_caret_taps(100, 0, &mut a, &cfg()).is_none());
    assert_eq!(a.remainder_x(), 100);
    // One more unit pushes over
    assert_eq!(compute_caret_taps(1, 0, &mut a, &cfg()), Some((KC_RIGHT, 1)));
}

#[test]
fn test_compute_caret_taps_diagonal_motion() {
    let mut a = acc();
    let result = compute_caret_taps(250, 250, &mut a, &cfg());
    // X dominant, |250|=250, threshold=100 → 2 taps
    // Iter 1: reduce_x=-100 → total=(150, 0), |150|>100 → tap
    // Iter 2: reduce_x=-100 → total=(50, 0), |50|<=100 → stop
    assert_eq!(result, Some((KC_RIGHT, 2)));
    assert_eq!(a.remainder_x(), 50);
    assert_eq!(a.remainder_y(), 0);
}

// === PointingMode tests ===

#[test]
fn test_pointing_mode_default_is_cursor() {
    assert_eq!(PointingMode::default(), PointingMode::Cursor(CursorConfig::default()));
}

#[test]
fn test_pointing_mode_array_default() {
    let modes: [PointingMode; 4] = [PointingMode::default(); 4];
    for mode in &modes {
        assert_eq!(*mode, PointingMode::Cursor(CursorConfig::default()));
    }
}

#[test]
fn test_motion_accumulator_change_resets_accumulator() {
    let mut acc = MotionAccumulator::default();
    acc.accumulate(3, 5, (1, 8), (1, 8));
    assert_eq!(acc.remainder_x(), 3);
    assert_eq!(acc.remainder_y(), 5);

    // Simulate what on_layer_change_event does
    acc.reset();
    assert_eq!(acc.remainder_x(), 0);
    assert_eq!(acc.remainder_y(), 0);
}

#[test]
fn test_pointing_cursor_multiplier_scales_motion() {
    let config = CursorConfig {
        multiplier_x: 2,
        multiplier_y: 3,
        invert_x: false,
        invert_y: false,
    };
    assert_eq!(10 * config.multiplier_x as i16, 20);
    assert_eq!(10 * config.multiplier_y as i16, 30);
}

#[test]
fn test_pointing_cursor_invert_axes() {
    let config = CursorConfig {
        multiplier_x: 1,
        multiplier_y: 1,
        invert_x: true,
        invert_y: true,
    };
    assert_eq!(-(10 * config.multiplier_x as i16), -10);
    assert_eq!(-(10 * config.multiplier_y as i16), -10);
}

// === Integration tests for PointingProcessor ===

#[test]
fn test_pointing_processor_mode_selection() {
    // Test that the processor correctly selects the mode based on current layer
    let modes = [
        PointingMode::Cursor(CursorConfig::default()),
        PointingMode::Scroll(ScrollConfig::default()),
        PointingMode::Sniper(SniperConfig {
            multiplier: 1,
            divisor: 4,
            invert_x: false,
            invert_y: false,
        }),
        PointingMode::Caret(CaretConfig::default()),
        PointingMode::Cursor(CursorConfig::default()),
    ];

    // Verify all modes are correctly stored
    for (i, expected_mode) in modes.iter().enumerate() {
        assert_eq!(&modes[i], expected_mode);
    }
}

#[test]
fn test_pointing_scroll_mode_zero_motion_prevention() {
    let mut acc = MotionAccumulator::default();
    let config = ScrollConfig {
        multiplier_x: 1,
        multiplier_y: 1,
        divisor_x: 8,
        divisor_y: 8,
        invert_x: false,
        invert_y: false,
    };

    // Small motion that doesn't produce output
    let (sx, sy) = acc.accumulate(
        3,
        3,
        (config.multiplier_x, config.divisor_x),
        (config.multiplier_y, config.divisor_y),
    );
    assert_eq!(sx, 0);
    assert_eq!(sy, 0);

    // Verify remainder is kept
    assert_eq!(acc.remainder_x(), 3);
    assert_eq!(acc.remainder_y(), 3);

    // Additional motion should accumulate
    let (sx, sy) = acc.accumulate(
        6,
        6,
        (config.multiplier_x, config.divisor_x),
        (config.multiplier_y, config.divisor_y),
    );
    assert_eq!(sx, 1); // (3+6)/8 = 1 remainder 1
    assert_eq!(sy, 1);
    assert_eq!(acc.remainder_x(), 1);
    assert_eq!(acc.remainder_y(), 1);
}

#[test]
fn test_pointing_sniper_mode_divisor() {
    let mut acc = MotionAccumulator::default();
    let config = SniperConfig {
        multiplier: 1,
        divisor: 4,
        invert_x: false,
        invert_y: false,
    };

    // Test that motion is divided correctly
    let (sx, sy) = acc.accumulate(
        10,
        -10,
        (config.multiplier, config.divisor),
        (config.multiplier, config.divisor),
    );
    assert_eq!(sx, 2); // 10/4 = 2 remainder 2
    assert_eq!(sy, -2); // -10/4 = -2 remainder -2
    assert_eq!(acc.remainder_x(), 2);
    assert_eq!(acc.remainder_y(), -2);
}

#[test]
fn test_motion_accumulator_negative_motion() {
    let mut acc = MotionAccumulator::default();

    // Test negative motion with divisor
    let (ox, oy) = acc.accumulate(-15, -20, (1, 4), (1, 5));
    assert_eq!(ox, -3); // -15/4 = -3 remainder -3
    assert_eq!(oy, -4); // -20/5 = -4 remainder 0
    assert_eq!(acc.remainder_x(), -3);
    assert_eq!(acc.remainder_y(), 0);

    // Mix positive and negative
    let (ox, oy) = acc.accumulate(5, 10, (1, 4), (1, 5));
    assert_eq!(ox, 0); // (-3+5)/4 = 0 remainder 2
    assert_eq!(oy, 2); // (0+10)/5 = 2 remainder 0
    assert_eq!(acc.remainder_x(), 2);
    assert_eq!(acc.remainder_y(), 0);
}

#[test]
fn test_pointing_scroll_config_default_values() {
    let config = ScrollConfig::default();
    assert_eq!(config.divisor_x, 8);
    assert_eq!(config.divisor_y, 8);
    assert!(!config.invert_x);
    assert!(!config.invert_y);
}

#[test]
fn test_pointing_sniper_config_default_values() {
    let config = SniperConfig::default();
    assert_eq!(config.divisor, 4);
    assert!(!config.invert_x);
    assert!(!config.invert_y);
}

#[test]
fn test_pointing_scroll_config_invert_y() {
    // invert_y=true means positive sensor Y → positive wheel (reversed from default)
    // Default (invert_y=false): sensor +Y → wheel -1 (scroll up)
    // With invert_y=true:        sensor +Y → wheel +1 (scroll down)
    let mut acc_default = MotionAccumulator::default();
    let mut acc_inverted = MotionAccumulator::default();

    let divisor = 1u8;
    let (_, sy_default) = acc_default.accumulate(0, 10, (1, divisor), (1, divisor));
    let (_, sy_inverted) = acc_inverted.accumulate(0, 10, (1, divisor), (1, divisor));

    // Default: wheel = -sy = -10
    let wheel_default = -sy_default;
    // Inverted: wheel = sy = 10
    let wheel_inverted = sy_inverted;

    assert_eq!(wheel_default, -10);
    assert_eq!(wheel_inverted, 10);
}

#[test]
fn test_pointing_sniper_config_invert_axes() {
    let mut acc = MotionAccumulator::default();
    let config = SniperConfig {
        multiplier: 1,
        divisor: 1,
        invert_x: true,
        invert_y: true,
    };

    let (sx, sy) = acc.accumulate(
        5,
        -3,
        (config.multiplier, config.divisor),
        (config.multiplier, config.divisor),
    );
    let out_x = if config.invert_x { -sx } else { sx };
    let out_y = if config.invert_y { -sy } else { sy };

    assert_eq!(out_x, -5);
    assert_eq!(out_y, 3);
}

#[test]
fn test_pointing_scroll_mode_asymmetric_divisors() {
    let mut acc = MotionAccumulator::default();
    let config = ScrollConfig {
        multiplier_x: 1,
        multiplier_y: 1,
        divisor_x: 4,
        divisor_y: 8,
        invert_x: false,
        invert_y: false,
    };

    // Test asymmetric divisors
    let (sx, sy) = acc.accumulate(
        16,
        16,
        (config.multiplier_x, config.divisor_x),
        (config.multiplier_x, config.divisor_y),
    );
    assert_eq!(sx, 4); // 16/4 = 4
    assert_eq!(sy, 2); // 16/8 = 2
}

#[test]
fn test_pointing_scroll_multiplier_amplifies_motion() {
    let mut acc = MotionAccumulator::default();
    let config = ScrollConfig {
        multiplier_x: 3,
        multiplier_y: 3,
        divisor_x: 8,
        divisor_y: 8,
        invert_x: false,
        invert_y: false,
    };
    let (sx, sy) = acc.accumulate(
        10,
        10,
        (config.multiplier_x, config.divisor_x),
        (config.multiplier_y, config.divisor_y),
    );
    assert_eq!(sx, 3); // (0+10*3)/8 = 3 r6
    assert_eq!(sy, 3);
    assert_eq!(acc.remainder_x(), 6);
    assert_eq!(acc.remainder_y(), 6);
}

#[test]
fn test_pointing_scroll_asymmetric_multipliers() {
    let mut acc = MotionAccumulator::default();
    let config = ScrollConfig {
        multiplier_x: 2,
        multiplier_y: 3,
        divisor_x: 8,
        divisor_y: 8,
        invert_x: false,
        invert_y: false,
    };
    let (sx, sy) = acc.accumulate(
        10,
        -10,
        (config.multiplier_x, config.divisor_x),
        (config.multiplier_y, config.divisor_y),
    );
    assert_eq!(sx, 2); // (0+10*2)/8 = 2 r4
    assert_eq!(sy, -3); // (0+(-10)*3)/8 = -3 r-6
    assert_eq!(acc.remainder_x(), 4);
    assert_eq!(acc.remainder_y(), -6);
}

#[test]
fn test_pointing_scroll_multiplier_accumulates_remainder() {
    let mut acc = MotionAccumulator::default();
    let config = ScrollConfig {
        multiplier_x: 3,
        multiplier_y: 3,
        divisor_x: 8,
        divisor_y: 8,
        invert_x: false,
        invert_y: false,
    };
    // First call: sub-threshold, only remainder accumulates
    let (sx, sy) = acc.accumulate(
        2,
        2,
        (config.multiplier_x, config.divisor_x),
        (config.multiplier_y, config.divisor_y),
    );
    assert_eq!(sx, 0); // (0+2*3)/8 = 0 r6
    assert_eq!(sy, 0);
    assert_eq!(acc.remainder_x(), 6);
    assert_eq!(acc.remainder_y(), 6);

    // Second call: crosses threshold, multiplier applies to remainder too
    let (sx, sy) = acc.accumulate(
        2,
        2,
        (config.multiplier_x, config.divisor_x),
        (config.multiplier_y, config.divisor_y),
    );
    assert_eq!(sx, 1); // (6+2*3)/8 = 12/8 = 1 r4
    assert_eq!(sy, 1);
    assert_eq!(acc.remainder_x(), 4);
    assert_eq!(acc.remainder_y(), 4);
}

#[test]
fn test_pointing_sniper_multiplier_amplifies_motion() {
    let mut acc = MotionAccumulator::default();
    let config = SniperConfig {
        multiplier: 3,
        divisor: 4,
        invert_x: false,
        invert_y: false,
    };
    let (sx, sy) = acc.accumulate(
        5,
        0,
        (config.multiplier, config.divisor),
        (config.multiplier, config.divisor),
    );
    assert_eq!(sx, 3); // (0+5*3)/4 = 3 r3
    assert_eq!(sy, 0);
    assert_eq!(acc.remainder_x(), 3);
    assert_eq!(acc.remainder_y(), 0);
}

#[test]
fn test_pointing_sniper_multiplier_with_negative() {
    let mut acc = MotionAccumulator::default();
    let config = SniperConfig {
        multiplier: 3,
        divisor: 4,
        invert_x: false,
        invert_y: false,
    };
    let (sx, sy) = acc.accumulate(
        -3,
        0,
        (config.multiplier, config.divisor),
        (config.multiplier, config.divisor),
    );
    assert_eq!(sx, -2); // (0+(-3)*3)/4 = -9/4 = -2 r-1
    assert_eq!(sy, 0);
    assert_eq!(acc.remainder_x(), -1);
    assert_eq!(acc.remainder_y(), 0);
}

#[test]
fn test_pointing_layer_mode_bounds_checking() {
    // Test that modes array is correctly sized
    let modes: [PointingMode; 8] = [PointingMode::default(); 8];
    assert_eq!(modes.len(), 8);

    // Verify all default to Cursor
    for mode in &modes {
        assert_eq!(*mode, PointingMode::Cursor(CursorConfig::default()));
    }
}

#[test]
fn test_motion_accumulator_saturation() {
    let mut acc = MotionAccumulator::default();

    // Test with large values that might overflow
    let (ox, oy) = acc.accumulate(i16::MAX, i16::MAX, (1, 1), (1, 1));
    assert_eq!(ox, i16::MAX);
    assert_eq!(oy, i16::MAX);

    // Reset and test negative saturation
    acc.reset();
    let (ox, oy) = acc.accumulate(i16::MIN, i16::MIN, (1, 1), (1, 1));
    assert_eq!(ox, i16::MIN);
    assert_eq!(oy, i16::MIN);
}
