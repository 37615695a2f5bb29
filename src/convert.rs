//! Conversion between servo angles, pulse widths and PWM duty values.

use vstd::arithmetic::div_mod::lemma_div_is_ordered;
use vstd::arithmetic::mul::lemma_mul_inequality;
use vstd::prelude::*;

verus! {

/// PWM frequency that the servos expect, in hertz.
pub const FREQUENCY_HZ: u32 = 50;

/// Pulse width for 0 degrees, in microseconds.
pub const MIN_PULSE_US: u32 = 500;

/// Pulse width for 180 degrees, in microseconds.
pub const MAX_PULSE_US: u32 = 2500;

/// Length of one PWM period at `FREQUENCY_HZ`, in microseconds.
pub const PERIOD_US: u32 = 20000;

/// Largest servo angle, in degrees.
pub const MAX_ANGLE: u32 = 180;

/// An angle forced into `[0, MAX_ANGLE]`.
pub open spec fn clamp_angle(angle: int) -> int {
    if angle > MAX_ANGLE {
        MAX_ANGLE as int
    } else if angle < 0 {
        0
    } else {
        angle
    }
}

/// Pulse width for an angle: linear from `MIN_PULSE_US` at 0 degrees to
/// `MAX_PULSE_US` at `MAX_ANGLE` degrees, rounded down.
pub open spec fn pulse_width_of(angle: int) -> int {
    MIN_PULSE_US + clamp_angle(angle) * (MAX_PULSE_US - MIN_PULSE_US) / (MAX_ANGLE as int)
}

/// Duty value for an angle at a given duty resolution: the fraction
/// `pulse / PERIOD_US` of `max_duty`, rounded down and capped at `max_duty`.
pub open spec fn duty_of(angle: int, max_duty: int) -> int {
    let duty = pulse_width_of(angle) * max_duty / (PERIOD_US as int);
    if duty > max_duty {
        max_duty
    } else {
        duty
    }
}

/// Angle that a duty value stands for: the pulse width formula inverted,
/// 0 below `MIN_PULSE_US`, `MAX_ANGLE` from `MAX_PULSE_US` on, and 0 when
/// the resolution is 0.
pub open spec fn angle_of(duty: int, max_duty: int) -> int {
    if max_duty <= 0 {
        0
    } else {
        let pulse = duty * PERIOD_US / max_duty;
        if pulse < MIN_PULSE_US {
            0
        } else if pulse >= MAX_PULSE_US {
            MAX_ANGLE as int
        } else {
            (pulse - MIN_PULSE_US) * MAX_ANGLE / ((MAX_PULSE_US - MIN_PULSE_US) as int)
        }
    }
}

/// Pulse width in microseconds for `angle`, which is first clamped to
/// `[0, MAX_ANGLE]`.
pub fn angle_to_pulse_width(angle: u32) -> (pulse_us: u32)
    ensures
        pulse_us == pulse_width_of(angle as int),
        MIN_PULSE_US <= pulse_us <= MAX_PULSE_US,
{
    let clamped: u32 = if angle > MAX_ANGLE {
        MAX_ANGLE
    } else {
        angle
    };
    MIN_PULSE_US + clamped * (MAX_PULSE_US - MIN_PULSE_US) / MAX_ANGLE
}

/// Duty value for `angle` on a channel whose full-scale duty is `max_duty`.
/// Angles above `MAX_ANGLE` count as `MAX_ANGLE`; the result never exceeds
/// `max_duty`.
pub fn angle_to_duty(angle: u32, max_duty: u32) -> (duty: u32)
    ensures
        duty == duty_of(angle as int, max_duty as int),
        duty <= max_duty,
{
    let pulse_us = angle_to_pulse_width(angle) as u64;
    let max = max_duty as u64;
    assert(pulse_us * max <= 2500 * 0xffff_ffff) by (nonlinear_arith)
        requires
            pulse_us <= 2500,
            max <= 0xffff_ffff,
    ;
    let duty = pulse_us * max / (PERIOD_US as u64);
    if duty > max {
        max_duty
    } else {
        duty as u32
    }
}

/// Angle that `duty` stands for on a channel whose full-scale duty is
/// `max_duty`; 0 when `max_duty` is 0.
pub fn duty_to_angle(duty: u32, max_duty: u32) -> (angle: u32)
    ensures
        angle == angle_of(duty as int, max_duty as int),
        angle <= MAX_ANGLE,
        max_duty == 0 ==> angle == 0,
{
    if max_duty == 0 {
        return 0;
    }
    let d = duty as u64;
    assert(d * 20000 <= 20000 * 0xffff_ffff) by (nonlinear_arith)
        requires
            d <= 0xffff_ffff,
    ;
    let pulse_us = d * (PERIOD_US as u64) / (max_duty as u64);
    if pulse_us < MIN_PULSE_US as u64 {
        0
    } else if pulse_us >= MAX_PULSE_US as u64 {
        MAX_ANGLE
    } else {
        let offset: u64 = pulse_us - MIN_PULSE_US as u64;
        assert(offset * 180 < 2000 * 180);
        (offset * (MAX_ANGLE as u64) / ((MAX_PULSE_US - MIN_PULSE_US) as u64)) as u32
    }
}

/// A duty value for an angle in `[0, MAX_ANGLE]` lies between 0 and the
/// channel's full-scale duty.
pub proof fn lemma_duty_in_range(angle: u32, max_duty: u32)
    requires
        angle <= MAX_ANGLE,
        max_duty > 0,
    ensures
        0 <= duty_of(angle as int, max_duty as int) <= max_duty,
{
    assert(pulse_width_of(angle as int) * max_duty >= 0) by (nonlinear_arith)
        requires
            pulse_width_of(angle as int) >= 0,
    ;
}

/// For a fixed full-scale duty, a larger angle never gives a smaller duty.
pub proof fn lemma_duty_monotonic(a1: u32, a2: u32, max_duty: u32)
    requires
        a1 < a2,
    ensures
        duty_of(a1 as int, max_duty as int) <= duty_of(a2 as int, max_duty as int),
{
    let c1 = clamp_angle(a1 as int);
    let c2 = clamp_angle(a2 as int);
    lemma_div_is_ordered(c1 * 2000, c2 * 2000, 180);
    let p1 = pulse_width_of(a1 as int);
    let p2 = pulse_width_of(a2 as int);
    lemma_mul_inequality(p1, p2, max_duty as int);
    lemma_div_is_ordered(p1 * max_duty, p2 * max_duty, 20000);
}

/// Every angle above `MAX_ANGLE` gives the duty of `MAX_ANGLE`.
pub proof fn lemma_duty_clamped(angle: u32, max_duty: u32)
    requires
        angle > MAX_ANGLE,
    ensures
        duty_of(angle as int, max_duty as int) == duty_of(MAX_ANGLE as int, max_duty as int),
{
}

/// At a 16-bit resolution (full scale 65536), converting a multiple of ten
/// degrees to a duty value and back is off by at most two degrees.
pub proof fn lemma_round_trip_16_bit(angle: u32)
    requires
        angle <= MAX_ANGLE,
        angle % 10 == 0,
    ensures
        angle - 2 <= angle_of(duty_of(angle as int, 65536), 65536) <= angle + 2,
{
    let p = pulse_width_of(angle as int);
    let d = duty_of(angle as int, 65536);
    assert(d == p * 65536 / 20000) by {
        assert(p <= 2500);
        assert(p * 65536 / 20000 <= 65536);
    }
    assert(p * 65536 - 20000 < d * 20000 <= p * 65536);
    let back = d * 20000 / 65536;
    assert(p - 1 <= back <= p);
}

} // verus!
