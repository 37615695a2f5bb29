use cobot_rs::{
    angle_to_duty, demo_servo_movements, Action, Leg, Motion, ServoController, ServoError, ServoOperation,
    Side, Step,
};

/// What a simulated run did: the writes that reached a channel, in order,
/// every pause, and how the motion ended.
struct Run {
    writes: Vec<(Leg, u32)>,
    attempts: Vec<Leg>,
    pauses: Vec<u32>,
    outcome: Result<(), ServoError>,
}

/// Runs a motion against simulated channels; the write with index
/// `fail_at` (counting attempts from 0) fails.
fn run(mut motion: Motion, fail_at: Option<usize>) -> Run {
    let mut writes = Vec::new();
    let mut attempts = Vec::new();
    let mut pauses = Vec::new();
    loop {
        match motion.action() {
            Action::Write { leg, duty } => {
                let ok = fail_at != Some(attempts.len());
                attempts.push(leg);
                if ok {
                    writes.push((leg, duty));
                }
                motion.record(ok);
            }
            Action::Pause { ms } => {
                pauses.push(ms);
                motion.record(true);
            }
            Action::Finished => {
                return Run { writes, attempts, pauses, outcome: Ok(()) };
            }
            Action::Failed(e) => {
                return Run { writes, attempts, pauses, outcome: Err(e) };
            }
        }
    }
}

fn controller() -> ServoController {
    ServoController::new(1024, 2048, 4096, 65536)
}

/// The writes that move every leg of `c` to `angle`, in channel order.
fn all_writes(c: &ServoController, angle: u32) -> Vec<(Leg, u32)> {
    [Leg::RightBack, Leg::LeftBack, Leg::RightFront, Leg::LeftFront]
        .into_iter()
        .map(|leg| (leg, angle_to_duty(angle, c.max_duty(leg))))
        .collect()
}

#[test]
fn set_all_writes_each_channel_once() {
    let c = controller();
    let r = run(c.set_all_servos_angle(90), None);
    assert_eq!(r.outcome, Ok(()));
    assert_eq!(r.writes, all_writes(&c, 90));
    assert_eq!(r.writes, vec![(Leg::RightBack, 76), (Leg::LeftBack, 153), (Leg::RightFront, 307), (Leg::LeftFront, 4915)]);
    assert!(r.pauses.is_empty());
}

#[test]
fn set_all_is_not_finished_before_last_write() {
    let c = controller();
    let mut m = c.set_all_servos_angle(90);
    for _ in 0..4 {
        assert!(!m.is_done());
        assert!(matches!(m.action(), Action::Write { .. }));
        m.record(true);
    }
    assert!(m.is_done());
    assert_eq!(m.action(), Action::Finished);
}

#[test]
fn second_write_failure_stops_set_all() {
    let c = controller();
    let r = run(c.set_all_servos_angle(90), Some(1));
    assert_eq!(r.attempts, vec![Leg::RightBack, Leg::LeftBack]);
    assert_eq!(r.writes, vec![(Leg::RightBack, 76)]);
    assert_eq!(r.outcome, Err(ServoError { leg: Leg::LeftBack }));
}

#[test]
fn failed_motion_ignores_later_outcomes() {
    let c = controller();
    let mut m = c.set_all_servos_angle(0);
    m.record(false);
    assert_eq!(m.action(), Action::Failed(ServoError { leg: Leg::RightBack }));
    m.record(true);
    m.record(false);
    assert_eq!(m.action(), Action::Failed(ServoError { leg: Leg::RightBack }));
}

#[test]
fn last_write_failure_reports_left_front() {
    let r = run(controller().center_all_servos(), Some(3));
    assert_eq!(r.attempts.len(), 4);
    assert_eq!(r.outcome, Err(ServoError { leg: Leg::LeftFront }));
}

#[test]
fn set_servo_angles_uses_each_angle() {
    let c = controller();
    let r = run(c.set_servo_angles(0, 45, 135, 180), None);
    assert_eq!(
        r.writes,
        vec![
            (Leg::RightBack, angle_to_duty(0, 1024)),
            (Leg::LeftBack, angle_to_duty(45, 2048)),
            (Leg::RightFront, angle_to_duty(135, 4096)),
            (Leg::LeftFront, angle_to_duty(180, 65536)),
        ]
    );
    assert_eq!(r.writes[0], (Leg::RightBack, 25));
}

#[test]
fn side_and_pair_updates_touch_two_channels() {
    let c = ServoController::new(1024, 1024, 1024, 1024);
    let d45 = angle_to_duty(45, 1024);
    let d135 = angle_to_duty(135, 1024);
    assert_eq!(run(c.set_right_servos(45, 135), None).writes, vec![(Leg::RightBack, d45), (Leg::RightFront, d135)]);
    assert_eq!(run(c.set_left_servos(45, 135), None).writes, vec![(Leg::LeftBack, d45), (Leg::LeftFront, d135)]);
    assert_eq!(run(c.set_front_servos(45, 135), None).writes, vec![(Leg::RightFront, d45), (Leg::LeftFront, d135)]);
    assert_eq!(run(c.set_back_servos(45, 135), None).writes, vec![(Leg::RightBack, d45), (Leg::LeftBack, d135)]);
    assert_eq!(run(c.set_side(Side::Left, 45, 135), None).writes, run(c.set_left_servos(45, 135), None).writes);
}

#[test]
fn side_update_stops_at_back_failure() {
    let r = run(controller().set_right_servos(10, 20), Some(0));
    assert_eq!(r.attempts, vec![Leg::RightBack]);
    assert_eq!(r.outcome, Err(ServoError { leg: Leg::RightBack }));
}

#[test]
fn walk_forward_runs_five_poses_with_delays() {
    let c = controller();
    let r = run(c.walk_forward(300), None);
    assert_eq!(r.outcome, Ok(()));
    assert_eq!(r.pauses, vec![300; 5]);
    let poses = [(45, 90, 45, 90), (135, 90, 135, 90), (90, 45, 90, 45), (90, 135, 90, 135), (90, 90, 90, 90)];
    let mut expected = Vec::new();
    for (rb, lb, rf, lf) in poses {
        expected.push((Leg::RightBack, angle_to_duty(rb, 1024)));
        expected.push((Leg::LeftBack, angle_to_duty(lb, 2048)));
        expected.push((Leg::RightFront, angle_to_duty(rf, 4096)));
        expected.push((Leg::LeftFront, angle_to_duty(lf, 65536)));
    }
    assert_eq!(r.writes, expected);
    let steps = c.walk_forward(300).steps().clone();
    assert_eq!(steps.len(), 25);
    for j in 0..5 {
        assert_eq!(steps[5 * j + 4], Step::Pause { ms: 300 });
    }
}

#[test]
fn walk_forward_aborts_on_failure() {
    let r = run(controller().walk_forward(300), Some(5));
    assert_eq!(r.attempts.len(), 6);
    assert_eq!(r.pauses, vec![300]);
    assert_eq!(r.outcome, Err(ServoError { leg: Leg::LeftBack }));
}

#[test]
fn wave_sweeps_front_right_then_centres() {
    let c = controller();
    let r = run(c.wave(50), None);
    assert_eq!(r.outcome, Ok(()));
    assert_eq!(r.pauses, vec![50; 38]);
    let mut angles: Vec<u32> = (0..=180).step_by(10).collect();
    angles.extend((0..=180u32).rev().step_by(10));
    let mut expected: Vec<(Leg, u32)> = angles.iter().map(|a| (Leg::RightFront, angle_to_duty(*a, 4096))).collect();
    expected.extend(all_writes(&c, 90));
    assert_eq!(r.writes, expected);
    assert_eq!(r.writes[0], (Leg::RightFront, 102));
    assert_eq!(r.writes[18], (Leg::RightFront, 512));
    assert_eq!(r.writes[19], (Leg::RightFront, 512));
    assert_eq!(r.writes[37], (Leg::RightFront, 102));
}

#[test]
fn demo_runs_fixed_script() {
    let c = ServoController::new(1024, 1024, 1024, 1024);
    let r = run(demo_servo_movements(&c), None);
    assert_eq!(r.outcome, Ok(()));
    assert_eq!(r.pauses, vec![1000, 1000, 1000, 1000, 500, 500]);
    assert_eq!(r.writes.len(), 4 + 4 + 4 + 4 + 2 + 2 + 4);
    assert_eq!(r.writes[0], (Leg::RightBack, 128));
    assert_eq!(r.writes[8], (Leg::RightBack, 25));
    assert_eq!(r.writes[16], (Leg::RightBack, angle_to_duty(45, 1024)));
    assert_eq!(r.writes[17], (Leg::RightFront, angle_to_duty(45, 1024)));
    assert_eq!(r.writes[18], (Leg::LeftBack, angle_to_duty(135, 1024)));
    assert_eq!(r.writes[23], (Leg::LeftFront, 76));
}

#[test]
fn startup_check_continues_after_failure() {
    let c = ServoController::new(1024, 1024, 1024, 1024);
    let r = run(c.startup_check(), Some(1));
    assert_eq!(r.outcome, Ok(()));
    assert_eq!(r.attempts.len(), 12);
    assert_eq!(r.writes.len(), 11);
    assert_eq!(r.pauses, vec![1000, 1000]);
    assert_eq!(r.writes[3], (Leg::RightBack, 25));
}

#[test]
fn max_duties_are_reported_in_channel_order() {
    let c = controller();
    assert_eq!(c.get_max_duties(), (1024, 2048, 4096, 65536));
    assert_eq!(c.max_duty(Leg::RightFront), 4096);
}

#[test]
fn operation_computes_duty() {
    let c = controller();
    let op = c.operation(Leg::LeftFront, 180);
    assert_eq!(op, ServoOperation { angle: 180, max_duty: 65536, leg: Leg::LeftFront });
    assert_eq!(op.duty(), 8192);
}

#[test]
fn leg_names() {
    assert_eq!(Leg::RightBack.name(), "right_back_leg");
    assert_eq!(Leg::LeftBack.name(), "left_back_leg");
    assert_eq!(Leg::RightFront.name(), "right_front_leg");
    assert_eq!(Leg::LeftFront.name(), "left_front_leg");
}

#[test]
fn policies_of_motions() {
    let c = controller();
    assert_eq!(c.set_all_servos_angle(90).policy(), cobot_rs::ErrorPolicy::FailFast);
    assert_eq!(c.startup_check().policy(), cobot_rs::ErrorPolicy::LogAndContinue);
}
