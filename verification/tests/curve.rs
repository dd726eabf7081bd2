use ipmi_fan_control::curve::{
    all_speeds, calc_speed, fixed_speed, MAX_PERCENTAGE, PREVIEW_FIRST, PREVIEW_LAST,
};

fn eased_in_floating_point(temperature: u16, target: u16, threshold: u16, max: u16) -> u16 {
    if temperature <= target {
        0
    } else if temperature >= threshold {
        max
    } else {
        let range = (threshold - target) as f32;
        let position = (temperature - target) as f32;
        let ratio = position / range;
        let eased = ratio * ratio * ratio;
        (eased * max as f32).round() as u16
    }
}

#[test]
fn idle_at_and_below_target() {
    assert_eq!(calc_speed(35, 35, 70, 100), 0);
    assert_eq!(calc_speed(34, 35, 70, 100), 0);
    assert_eq!(calc_speed(0, 35, 70, 100), 0);
}

#[test]
fn full_speed_at_and_above_threshold() {
    assert_eq!(calc_speed(70, 35, 70, 100), 100);
    assert_eq!(calc_speed(71, 35, 70, 100), 100);
    assert_eq!(calc_speed(u16::MAX, 35, 70, 80), 80);
}

#[test]
fn default_curve_example() {
    assert_eq!(calc_speed(35, 35, 70, 100), 0);
    assert_eq!(calc_speed(70, 35, 70, 100), 100);
    assert_eq!(calc_speed(52, 35, 70, 100), 11);
}

#[test]
fn default_curve_exact_values() {
    assert_eq!(calc_speed(36, 35, 70, 100), 0);
    assert_eq!(calc_speed(53, 35, 70, 100), 14);
    assert_eq!(calc_speed(60, 35, 70, 100), 36);
    assert_eq!(calc_speed(69, 35, 70, 100), 92);
}

#[test]
fn exact_half_rounds_up() {
    // ratio 1/2, cubed 1/8, times 4 is exactly one half
    assert_eq!(calc_speed(50, 40, 60, 4), 1);
    // ratio 1/2, cubed 1/8, times 100 is 12.5
    assert_eq!(calc_speed(50, 40, 60, 100), 13);
    // just under one half stays down: 1/8 * 3 = 0.375
    assert_eq!(calc_speed(50, 40, 60, 3), 0);
}

#[test]
fn empty_band_is_a_step() {
    assert_eq!(calc_speed(50, 50, 50, 100), 0);
    assert_eq!(calc_speed(51, 50, 50, 100), 100);
    assert_eq!(calc_speed(50, 60, 40, 100), 0);
    assert_eq!(calc_speed(60, 60, 40, 100), 0);
    assert_eq!(calc_speed(61, 60, 40, 100), 100);
}

#[test]
fn widest_inputs_do_not_overflow() {
    assert_eq!(calc_speed(u16::MAX - 1, 0, u16::MAX, u16::MAX), 65532);
    assert_eq!(calc_speed(1, 0, u16::MAX, u16::MAX), 0);
    assert_eq!(calc_speed(u16::MAX, 0, u16::MAX, u16::MAX), u16::MAX);
}

#[test]
fn curve_is_monotonic_and_bounded() {
    for max in [0u16, 1, 37, 100, 255] {
        let mut previous = 0u16;
        for temperature in 0..=130u16 {
            let speed = calc_speed(temperature, 35, 70, max);
            assert!(speed >= previous);
            assert!(speed <= max);
            previous = speed;
        }
    }
}

#[test]
fn curve_is_deterministic() {
    for temperature in 20..=100u16 {
        assert_eq!(
            calc_speed(temperature, 35, 70, 100),
            calc_speed(temperature, 35, 70, 100)
        );
    }
}

#[test]
fn agrees_with_floating_point_on_documented_ranges() {
    for target in 20..=60u16 {
        for threshold in 40..=100u16 {
            for max in [0u16, 1, 33, 50, 99, 100] {
                for temperature in 15..=105u16 {
                    assert_eq!(
                        calc_speed(temperature, target, threshold, max),
                        eased_in_floating_point(temperature, target, threshold, max),
                        "temperature {temperature}, target {target}, threshold {threshold}, max {max}"
                    );
                }
            }
        }
    }
}

#[test]
fn agrees_with_floating_point_for_every_ceiling() {
    for max in 0..=100u16 {
        for temperature in 20..=100u16 {
            assert_eq!(
                calc_speed(temperature, 35, 70, max),
                eased_in_floating_point(temperature, 35, 70, max)
            );
        }
    }
}

#[test]
fn fixed_speed_is_clamped() {
    assert_eq!(fixed_speed(0), 0);
    assert_eq!(fixed_speed(42), 42);
    assert_eq!(fixed_speed(100), 100);
    assert_eq!(fixed_speed(101), MAX_PERCENTAGE);
    assert_eq!(fixed_speed(u16::MAX), 100);
}

#[test]
fn preview_table_covers_the_range() {
    let table = all_speeds(35, 70, 100);
    assert_eq!(table.len(), 81);
    assert_eq!(table[0], (PREVIEW_FIRST, 0));
    assert_eq!(table[80], (PREVIEW_LAST, 100));
    assert_eq!(table[15], (35, 0));
    assert_eq!(table[32], (52, 11));
    assert_eq!(table[50], (70, 100));
    for (i, row) in table.iter().enumerate() {
        assert_eq!(row.0, 20 + i as u16);
        assert_eq!(row.1, calc_speed(row.0, 35, 70, 100));
    }
}
