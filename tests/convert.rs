use cobot_rs::{angle_to_duty, angle_to_pulse_width, duty_to_angle};

#[test]
fn duty_examples_at_ten_bits() {
    assert_eq!(angle_to_duty(0, 1024), 25);
    assert_eq!(angle_to_duty(90, 1024), 76);
    assert_eq!(angle_to_duty(180, 1024), 128);
}

#[test]
fn pulse_width_examples() {
    assert_eq!(angle_to_pulse_width(0), 500);
    assert_eq!(angle_to_pulse_width(90), 1500);
    assert_eq!(angle_to_pulse_width(180), 2500);
    assert_eq!(angle_to_pulse_width(45), 1000);
    assert_eq!(angle_to_pulse_width(10), 611);
}

#[test]
fn pulse_width_clamps_large_angles() {
    assert_eq!(angle_to_pulse_width(181), 2500);
    assert_eq!(angle_to_pulse_width(u32::MAX), 2500);
}

#[test]
fn duty_stays_within_full_scale() {
    for max_duty in [1u32, 255, 1023, 1024, 16383, 65536, u32::MAX] {
        for angle in 0..=180u32 {
            let duty = angle_to_duty(angle, max_duty);
            assert!(duty <= max_duty, "angle {} max {}", angle, max_duty);
        }
    }
}

#[test]
fn duty_is_monotonic_in_angle() {
    for max_duty in [0u32, 1023, 1024, 65536, u32::MAX] {
        let mut previous = angle_to_duty(0, max_duty);
        for angle in 1..=400u32 {
            let duty = angle_to_duty(angle, max_duty);
            assert!(previous <= duty, "angle {} max {}", angle, max_duty);
            previous = duty;
        }
    }
}

#[test]
fn duty_clamps_angles_above_range() {
    for max_duty in [1024u32, 65536] {
        let top = angle_to_duty(180, max_duty);
        assert_eq!(angle_to_duty(181, max_duty), top);
        assert_eq!(angle_to_duty(360, max_duty), top);
        assert_eq!(angle_to_duty(u32::MAX, max_duty), top);
    }
}

#[test]
fn duty_at_largest_resolution() {
    assert_eq!(angle_to_duty(180, u32::MAX), 536_870_911);
    assert_eq!(angle_to_duty(0, u32::MAX), 107_374_182);
}

#[test]
fn duty_of_zero_resolution_is_zero() {
    assert_eq!(angle_to_duty(0, 0), 0);
    assert_eq!(angle_to_duty(180, 0), 0);
}

#[test]
fn round_trip_at_sixteen_bits() {
    for angle in (0..=180u32).step_by(10) {
        let back = duty_to_angle(angle_to_duty(angle, 65536), 65536);
        assert!(back + 2 >= angle && back <= angle + 2, "angle {} came back as {}", angle, back);
    }
}

#[test]
fn round_trip_exact_values() {
    assert_eq!(angle_to_duty(10, 65536), 2002);
    assert_eq!(duty_to_angle(2002, 65536), 9);
    assert_eq!(duty_to_angle(angle_to_duty(180, 65536), 65536), 180);
    assert_eq!(duty_to_angle(angle_to_duty(0, 65536), 65536), 0);
}

#[test]
fn zero_resolution_gives_zero_angle() {
    for duty in [0u32, 1, 76, 1024, u32::MAX] {
        assert_eq!(duty_to_angle(duty, 0), 0);
    }
}

#[test]
fn duty_to_angle_examples() {
    assert_eq!(duty_to_angle(76, 1024), 88);
    assert_eq!(duty_to_angle(128, 1024), 180);
    assert_eq!(duty_to_angle(0, 1024), 0);
    assert_eq!(duty_to_angle(25, 1024), 0);
    assert_eq!(duty_to_angle(1024, 1024), 180);
    assert_eq!(duty_to_angle(u32::MAX, 1), 180);
}
