//! The four-servo coordinator: turns angle targets and gestures into
//! motion plans whose duty values are all computed before any write.

use crate::convert::{angle_to_duty, duty_of};
use crate::motion::{
    lemma_fail_fast_stops, lemma_runs_every_step, successes, Action, ErrorPolicy, Leg, Motion, MotionState, ServoError,
    Step,
};
use vstd::prelude::*;

verus! {

/// Which side of the robot a pair of legs is on.
#[derive(Clone, Copy, Debug, PartialEq, Eq, Structural)]
pub enum Side {
    Left,
    Right,
}

/// A request to compute one channel's duty value: the target angle and the
/// channel's full-scale duty, copied so that the computation never touches
/// the channel itself.
#[derive(Clone, Copy, Debug, PartialEq, Eq, Structural)]
pub struct ServoOperation {
    pub angle: u32,
    pub max_duty: u32,
    pub leg: Leg,
}

impl ServoOperation {
    /// The write that this operation asks for.
    pub open spec fn step(self) -> Step {
        Step::Write { leg: self.leg, duty: duty_of(self.angle as int, self.max_duty as int) as u32 }
    }

    /// The duty value for this operation's angle.
    pub fn duty(&self) -> (r: u32)
        ensures
            r == duty_of(self.angle as int, self.max_duty as int),
    {
        angle_to_duty(self.angle, self.max_duty)
    }
}

/// The four servo channels of the robot, each known by the full-scale duty
/// value that its PWM timer was configured with.
#[derive(Clone, Copy, Debug, PartialEq, Eq, Structural)]
pub struct ServoController {
    pub right_back_max_duty: u32,
    pub left_back_max_duty: u32,
    pub right_front_max_duty: u32,
    pub left_front_max_duty: u32,
}

impl ServoController {
    /// Full-scale duty of the channel of `leg`.
    pub open spec fn max_duty_of(self, leg: Leg) -> u32 {
        match leg {
            Leg::RightBack => self.right_back_max_duty,
            Leg::LeftBack => self.left_back_max_duty,
            Leg::RightFront => self.right_front_max_duty,
            Leg::LeftFront => self.left_front_max_duty,
        }
    }

    /// The write that moves `leg` to `angle`.
    pub open spec fn write_step(self, leg: Leg, angle: u32) -> Step {
        Step::Write { leg, duty: duty_of(angle as int, self.max_duty_of(leg) as int) as u32 }
    }

    /// Writes for all four legs, in the fixed channel order.
    pub open spec fn angles_plan(self, right_back: u32, left_back: u32, right_front: u32, left_front: u32) -> Seq<Step> {
        seq![
            self.write_step(Leg::RightBack, right_back),
            self.write_step(Leg::LeftBack, left_back),
            self.write_step(Leg::RightFront, right_front),
            self.write_step(Leg::LeftFront, left_front),
        ]
    }

    /// Writes that move all four legs to one angle.
    pub open spec fn all_plan(self, angle: u32) -> Seq<Step> {
        self.angles_plan(angle, angle, angle, angle)
    }

    /// Writes for two legs, `first` before `second`.
    pub open spec fn pair_plan(self, first: Leg, first_angle: u32, second: Leg, second_angle: u32) -> Seq<Step> {
        seq![self.write_step(first, first_angle), self.write_step(second, second_angle)]
    }

    /// Writes for the two legs of one side, back before front.
    pub open spec fn side_plan(self, side: Side, back_angle: u32, front_angle: u32) -> Seq<Step> {
        match side {
            Side::Right => self.pair_plan(Leg::RightBack, back_angle, Leg::RightFront, front_angle),
            Side::Left => self.pair_plan(Leg::LeftBack, back_angle, Leg::LeftFront, front_angle),
        }
    }

    /// The walk cycle: five poses, each followed by a pause of `delay_ms`.
    pub open spec fn walk_plan(self, delay_ms: u32) -> Seq<Step> {
        let pause = Step::Pause { ms: delay_ms };
        let lift_right = self.angles_plan(45, 90, 45, 90);
        let advance_right = self.angles_plan(135, 90, 135, 90);
        let lift_left = self.angles_plan(90, 45, 90, 45);
        let advance_left = self.angles_plan(90, 135, 90, 135);
        let center = self.all_plan(90);
        lift_right.push(pause) + advance_right.push(pause) + lift_left.push(pause) + advance_left.push(pause)
            + center.push(pause)
    }

    /// The sweep of the wave: the right front leg goes from 0 to 180 and
    /// back down in steps of 10 degrees, each write followed by a pause of
    /// `delay_ms`.
    pub open spec fn wave_sweep(self, delay_ms: u32) -> Seq<Step> {
        Seq::new(
            (4 * WAVE_POSITIONS) as nat,
            |k: int|
                if k % 2 == 0 {
                    self.write_step(Leg::RightFront, wave_angle(k / 2) as u32)
                } else {
                    Step::Pause { ms: delay_ms }
                },
        )
    }

    /// The wave: its sweep, then all legs centred.
    pub open spec fn wave_plan(self, delay_ms: u32) -> Seq<Step> {
        self.wave_sweep(delay_ms) + self.all_plan(90)
    }

    /// The demonstration script: all legs to 180, 90 and 0 degrees, a
    /// diagonal pose, each side in turn, then centred.
    pub open spec fn demo_plan(self) -> Seq<Step> {
        let second = Step::Pause { ms: 1000 };
        let half_second = Step::Pause { ms: 500 };
        self.all_plan(180).push(second) + self.all_plan(90).push(second) + self.all_plan(0).push(second)
            + self.angles_plan(45, 135, 135, 45).push(second) + self.side_plan(Side::Right, 45, 45).push(
            half_second,
        ) + self.side_plan(Side::Left, 135, 135).push(half_second) + self.all_plan(90)
    }

    /// The power-on check: all legs to 90, then 0, then 90 degrees, with a
    /// one-second pause between.
    pub open spec fn startup_plan(self) -> Seq<Step> {
        self.all_plan(90).push(Step::Pause { ms: 1000 }) + self.all_plan(0).push(Step::Pause { ms: 1000 })
            + self.all_plan(90)
    }
}

/// Number of positions in one sweep of the wave (0, 10, ..., 180).
pub const WAVE_POSITIONS: usize = 19;

/// Angle of the `j`-th write of the wave: up from 0, then down from 180.
pub open spec fn wave_angle(j: int) -> int {
    if j < WAVE_POSITIONS {
        10 * j
    } else {
        180 - 10 * (j - WAVE_POSITIONS)
    }
}

impl ServoController {
    /// A controller for four channels with the given full-scale duties.
    pub fn new(
        right_back_max_duty: u32,
        left_back_max_duty: u32,
        right_front_max_duty: u32,
        left_front_max_duty: u32,
    ) -> (c: ServoController)
        ensures
            c.max_duty_of(Leg::RightBack) == right_back_max_duty,
            c.max_duty_of(Leg::LeftBack) == left_back_max_duty,
            c.max_duty_of(Leg::RightFront) == right_front_max_duty,
            c.max_duty_of(Leg::LeftFront) == left_front_max_duty,
    {
        ServoController { right_back_max_duty, left_back_max_duty, right_front_max_duty, left_front_max_duty }
    }

    /// Full-scale duty of the channel of `leg`.
    pub fn max_duty(&self, leg: Leg) -> (r: u32)
        ensures
            r == self.max_duty_of(leg),
    {
        match leg {
            Leg::RightBack => self.right_back_max_duty,
            Leg::LeftBack => self.left_back_max_duty,
            Leg::RightFront => self.right_front_max_duty,
            Leg::LeftFront => self.left_front_max_duty,
        }
    }

    /// Full-scale duties of all four channels, in the fixed channel order
    /// (right back, left back, right front, left front).
    pub fn get_max_duties(&self) -> (r: (u32, u32, u32, u32))
        ensures
            r == (
                self.max_duty_of(Leg::RightBack),
                self.max_duty_of(Leg::LeftBack),
                self.max_duty_of(Leg::RightFront),
                self.max_duty_of(Leg::LeftFront),
            ),
    {
        (self.right_back_max_duty, self.left_back_max_duty, self.right_front_max_duty, self.left_front_max_duty)
    }

    /// The request to compute the duty that moves `leg` to `angle`.
    pub fn operation(&self, leg: Leg, angle: u32) -> (op: ServoOperation)
        ensures
            op == (ServoOperation { angle, max_duty: self.max_duty_of(leg), leg }),
            op.step() == self.write_step(leg, angle),
    {
        ServoOperation { angle, max_duty: self.max_duty(leg), leg }
    }

    /// Appends the writes for all four legs.
    fn push_angles(
        &self,
        steps: &mut Vec<Step>,
        right_back: u32,
        left_back: u32,
        right_front: u32,
        left_front: u32,
    )
        ensures
            final(steps)@ == old(steps)@ + self.angles_plan(right_back, left_back, right_front, left_front),
    {
        let mut ops: Vec<ServoOperation> = Vec::new();
        ops.push(self.operation(Leg::RightBack, right_back));
        ops.push(self.operation(Leg::LeftBack, left_back));
        ops.push(self.operation(Leg::RightFront, right_front));
        ops.push(self.operation(Leg::LeftFront, left_front));
        push_operations(steps, &ops);
        assert(ops@.map_values(|op: ServoOperation| op.step()) =~= self.angles_plan(
            right_back,
            left_back,
            right_front,
            left_front,
        ));
    }

    /// Appends the writes for two legs, `first` before `second`.
    fn push_pair(&self, steps: &mut Vec<Step>, first: Leg, first_angle: u32, second: Leg, second_angle: u32)
        ensures
            final(steps)@ == old(steps)@ + self.pair_plan(first, first_angle, second, second_angle),
    {
        let mut ops: Vec<ServoOperation> = Vec::new();
        ops.push(self.operation(first, first_angle));
        ops.push(self.operation(second, second_angle));
        push_operations(steps, &ops);
        assert(ops@.map_values(|op: ServoOperation| op.step()) =~= self.pair_plan(
            first,
            first_angle,
            second,
            second_angle,
        ));
    }

    /// Moves all four legs to `angle`.
    pub fn set_all_servos_angle(&self, angle: u32) -> (m: Motion)
        ensures
            m@ == MotionState::start(self.all_plan(angle), ErrorPolicy::FailFast),
    {
        self.set_servo_angles(angle, angle, angle, angle)
    }

    /// Moves each leg to its own angle.
    pub fn set_servo_angles(&self, right_back: u32, left_back: u32, right_front: u32, left_front: u32) -> (m:
        Motion)
        ensures
            m@ == MotionState::start(
                self.angles_plan(right_back, left_back, right_front, left_front),
                ErrorPolicy::FailFast,
            ),
    {
        let mut steps: Vec<Step> = Vec::new();
        self.push_angles(&mut steps, right_back, left_back, right_front, left_front);
        assert(steps@ =~= self.angles_plan(right_back, left_back, right_front, left_front));
        Motion::new(steps, ErrorPolicy::FailFast)
    }

    /// Moves the two legs of `side`, back before front.
    pub fn set_side(&self, side: Side, back_angle: u32, front_angle: u32) -> (m: Motion)
        ensures
            m@ == MotionState::start(self.side_plan(side, back_angle, front_angle), ErrorPolicy::FailFast),
    {
        let mut steps: Vec<Step> = Vec::new();
        match side {
            Side::Right => self.push_pair(&mut steps, Leg::RightBack, back_angle, Leg::RightFront, front_angle),
            Side::Left => self.push_pair(&mut steps, Leg::LeftBack, back_angle, Leg::LeftFront, front_angle),
        }
        assert(steps@ =~= self.side_plan(side, back_angle, front_angle));
        Motion::new(steps, ErrorPolicy::FailFast)
    }

    /// Moves the right legs, back before front.
    pub fn set_right_servos(&self, back_angle: u32, front_angle: u32) -> (m: Motion)
        ensures
            m@ == MotionState::start(self.side_plan(Side::Right, back_angle, front_angle), ErrorPolicy::FailFast),
    {
        self.set_side(Side::Right, back_angle, front_angle)
    }

    /// Moves the left legs, back before front.
    pub fn set_left_servos(&self, back_angle: u32, front_angle: u32) -> (m: Motion)
        ensures
            m@ == MotionState::start(self.side_plan(Side::Left, back_angle, front_angle), ErrorPolicy::FailFast),
    {
        self.set_side(Side::Left, back_angle, front_angle)
    }

    /// Moves the front legs, right before left.
    pub fn set_front_servos(&self, right_angle: u32, left_angle: u32) -> (m: Motion)
        ensures
            m@ == MotionState::start(
                self.pair_plan(Leg::RightFront, right_angle, Leg::LeftFront, left_angle),
                ErrorPolicy::FailFast,
            ),
    {
        let mut steps: Vec<Step> = Vec::new();
        self.push_pair(&mut steps, Leg::RightFront, right_angle, Leg::LeftFront, left_angle);
        assert(steps@ =~= self.pair_plan(Leg::RightFront, right_angle, Leg::LeftFront, left_angle));
        Motion::new(steps, ErrorPolicy::FailFast)
    }

    /// Moves the back legs, right before left.
    pub fn set_back_servos(&self, right_angle: u32, left_angle: u32) -> (m: Motion)
        ensures
            m@ == MotionState::start(
                self.pair_plan(Leg::RightBack, right_angle, Leg::LeftBack, left_angle),
                ErrorPolicy::FailFast,
            ),
    {
        let mut steps: Vec<Step> = Vec::new();
        self.push_pair(&mut steps, Leg::RightBack, right_angle, Leg::LeftBack, left_angle);
        assert(steps@ =~= self.pair_plan(Leg::RightBack, right_angle, Leg::LeftBack, left_angle));
        Motion::new(steps, ErrorPolicy::FailFast)
    }

    /// Moves all four legs to 90 degrees.
    pub fn center_all_servos(&self) -> (m: Motion)
        ensures
            m@ == MotionState::start(self.all_plan(90), ErrorPolicy::FailFast),
    {
        self.set_all_servos_angle(90)
    }

    /// One pass of the walk cycle, pausing `delay_ms` after each pose.
    pub fn walk_forward(&self, delay_ms: u32) -> (m: Motion)
        ensures
            m@ == MotionState::start(self.walk_plan(delay_ms), ErrorPolicy::FailFast),
    {
        let pause = Step::Pause { ms: delay_ms };
        let mut steps: Vec<Step> = Vec::new();
        self.push_angles(&mut steps, 45, 90, 45, 90);
        steps.push(pause);
        self.push_angles(&mut steps, 135, 90, 135, 90);
        steps.push(pause);
        self.push_angles(&mut steps, 90, 45, 90, 45);
        steps.push(pause);
        self.push_angles(&mut steps, 90, 135, 90, 135);
        steps.push(pause);
        self.push_angles(&mut steps, 90, 90, 90, 90);
        steps.push(pause);
        assert(steps@ =~= self.walk_plan(delay_ms));
        Motion::new(steps, ErrorPolicy::FailFast)
    }

    /// The wave gesture of the right front leg, pausing `delay_ms` after
    /// each of its writes, then all legs centred.
    pub fn wave(&self, delay_ms: u32) -> (m: Motion)
        ensures
            m@ == MotionState::start(self.wave_plan(delay_ms), ErrorPolicy::FailFast),
    {
        let ghost sweep = self.wave_sweep(delay_ms);
        let mut steps: Vec<Step> = Vec::new();
        let mut j: usize = 0;
        while j < 2 * WAVE_POSITIONS
            invariant
                j <= 2 * WAVE_POSITIONS,
                sweep == self.wave_sweep(delay_ms),
                steps@ =~= sweep.subrange(0, 2 * j),
            decreases 2 * WAVE_POSITIONS - j,
        {
            let angle: u32 = if j < WAVE_POSITIONS {
                10 * j as u32
            } else {
                (180 - 10 * (j - WAVE_POSITIONS)) as u32
            };
            let duty = angle_to_duty(angle, self.right_front_max_duty);
            steps.push(Step::Write { leg: Leg::RightFront, duty });
            steps.push(Step::Pause { ms: delay_ms });
            assert((2 * j) / 2 == j);
            assert((2 * j + 1) / 2 == j);
            assert(sweep[2 * j] == self.write_step(Leg::RightFront, angle));
            assert(sweep.subrange(0, 2 * j + 2) =~= sweep.subrange(0, 2 * j as int).push(sweep[2 * j]).push(
                sweep[2 * j + 1],
            ));
            j = j + 1;
        }
        assert(sweep.subrange(0, 4 * WAVE_POSITIONS) =~= sweep);
        self.push_angles(&mut steps, 90, 90, 90, 90);
        assert(steps@ =~= self.wave_plan(delay_ms));
        Motion::new(steps, ErrorPolicy::FailFast)
    }

    /// The power-on check: all legs to 90, 0 and 90 degrees with one-second
    /// pauses. A failed write does not stop it: the driver reports each
    /// failure and goes on.
    pub fn startup_check(&self) -> (m: Motion)
        ensures
            m@ == MotionState::start(self.startup_plan(), ErrorPolicy::LogAndContinue),
    {
        let mut steps: Vec<Step> = Vec::new();
        self.push_angles(&mut steps, 90, 90, 90, 90);
        steps.push(Step::Pause { ms: 1000 });
        self.push_angles(&mut steps, 0, 0, 0, 0);
        steps.push(Step::Pause { ms: 1000 });
        self.push_angles(&mut steps, 90, 90, 90, 90);
        assert(steps@ =~= self.startup_plan());
        Motion::new(steps, ErrorPolicy::LogAndContinue)
    }
}

/// The demonstration script, for checking the wiring of all four servos.
pub fn demo_servo_movements(servo_controller: &ServoController) -> (m: Motion)
    ensures
        m@ == MotionState::start(servo_controller.demo_plan(), ErrorPolicy::FailFast),
{
    let c = servo_controller;
    let mut steps: Vec<Step> = Vec::new();
    c.push_angles(&mut steps, 180, 180, 180, 180);
    steps.push(Step::Pause { ms: 1000 });
    c.push_angles(&mut steps, 90, 90, 90, 90);
    steps.push(Step::Pause { ms: 1000 });
    c.push_angles(&mut steps, 0, 0, 0, 0);
    steps.push(Step::Pause { ms: 1000 });
    c.push_angles(&mut steps, 45, 135, 135, 45);
    steps.push(Step::Pause { ms: 1000 });
    c.push_pair(&mut steps, Leg::RightBack, 45, Leg::RightFront, 45);
    steps.push(Step::Pause { ms: 500 });
    c.push_pair(&mut steps, Leg::LeftBack, 135, Leg::LeftFront, 135);
    steps.push(Step::Pause { ms: 500 });
    c.push_angles(&mut steps, 90, 90, 90, 90);
    assert(steps@ =~= c.demo_plan());
    Motion::new(steps, ErrorPolicy::FailFast)
}

/// Appends one write per operation, in order, each with the operation's
/// computed duty.
fn push_operations(steps: &mut Vec<Step>, ops: &Vec<ServoOperation>)
    ensures
        final(steps)@ == old(steps)@ + ops@.map_values(|op: ServoOperation| op.step()),
{
    let ghost start = steps@;
    let mut i: usize = 0;
    while i < ops.len()
        invariant
            i <= ops.len(),
            steps@ == start + ops@.subrange(0, i as int).map_values(|op: ServoOperation| op.step()),
        decreases ops.len() - i,
    {
        let op = ops[i];
        let duty = op.duty();
        steps.push(Step::Write { leg: op.leg, duty });
        assert(ops@.subrange(0, i + 1).map_values(|op: ServoOperation| op.step()) =~= ops@.subrange(
            0,
            i as int,
        ).map_values(|op: ServoOperation| op.step()).push(op.step()));
        i = i + 1;
    }
    assert(ops@.subrange(0, ops.len() as int) =~= ops@);
}

/// The `i`-th channel in the fixed write order: right back, left back,
/// right front, left front.
pub open spec fn channel_order(i: int) -> Leg {
    if i == 0 {
        Leg::RightBack
    } else if i == 1 {
        Leg::LeftBack
    } else if i == 2 {
        Leg::RightFront
    } else {
        Leg::LeftFront
    }
}

/// The angles (right back, left back, right front, left front) of the
/// `j`-th pose of the walk cycle: lift right, advance right, lift left,
/// advance left, centre.
pub open spec fn walk_pose(j: int) -> (u32, u32, u32, u32) {
    if j == 0 {
        (45, 90, 45, 90)
    } else if j == 1 {
        (135, 90, 135, 90)
    } else if j == 2 {
        (90, 45, 90, 45)
    } else if j == 3 {
        (90, 135, 90, 135)
    } else {
        (90, 90, 90, 90)
    }
}

/// Moving all legs to one angle writes each of the four channels exactly
/// once, in the fixed order, with the duty for that angle at the channel's
/// own resolution; with every write succeeding, the motion is not done
/// before the fourth write and finishes right after it.
pub proof fn lemma_set_all_writes_each_channel(c: ServoController, angle: u32)
    ensures
        c.all_plan(angle).len() == 4,
        forall|i: int|
            0 <= i < 4 ==> c.all_plan(angle)[i] == (Step::Write {
                leg: channel_order(i),
                duty: duty_of(angle as int, c.max_duty_of(channel_order(i)) as int) as u32,
            }),
        forall|i: int, j: int| 0 <= i < j < 4 ==> channel_order(i) != channel_order(j),
        forall|k: nat|
            k < 4 ==> !MotionState::start(c.all_plan(angle), ErrorPolicy::FailFast).record_all(
                #[trigger] successes(k),
            ).is_done(),
        MotionState::start(c.all_plan(angle), ErrorPolicy::FailFast).record_all(successes(4)).action()
            == Action::Finished,
{
    assert forall|k: nat|
        k < 4 implies !MotionState::start(c.all_plan(angle), ErrorPolicy::FailFast).record_all(
        #[trigger] successes(k),
    ).is_done() by {
        lemma_runs_every_step(c.all_plan(angle), ErrorPolicy::FailFast, k);
    }
    lemma_runs_every_step(c.all_plan(angle), ErrorPolicy::FailFast, 4);
}

/// The walk cycle is five updates of all four legs in the fixed pose order,
/// each followed by a pause of the caller's delay.
pub proof fn lemma_walk_forward_poses(c: ServoController, delay_ms: u32)
    ensures
        c.walk_plan(delay_ms).len() == 25,
        forall|j: int|
            0 <= j < 5 ==> #[trigger] c.walk_plan(delay_ms).subrange(5 * j, 5 * j + 5) == c.angles_plan(
                walk_pose(j).0,
                walk_pose(j).1,
                walk_pose(j).2,
                walk_pose(j).3,
            ).push(Step::Pause { ms: delay_ms }),
{
    let w = c.walk_plan(delay_ms);
    let pause = Step::Pause { ms: delay_ms };
    assert(w.subrange(0, 5) =~= c.angles_plan(45, 90, 45, 90).push(pause));
    assert(w.subrange(5, 10) =~= c.angles_plan(135, 90, 135, 90).push(pause));
    assert(w.subrange(10, 15) =~= c.angles_plan(90, 45, 90, 45).push(pause));
    assert(w.subrange(15, 20) =~= c.angles_plan(90, 135, 90, 135).push(pause));
    assert(w.subrange(20, 25) =~= c.angles_plan(90, 90, 90, 90).push(pause));
}

/// When moving all legs to one angle, a failed write on the second channel
/// (left back) ends the motion: the right back write came first, no write
/// of the right front or left front channel follows, and the failure names
/// the left back channel whatever is reported afterwards.
pub proof fn lemma_set_all_stops_at_second_failure(c: ServoController, angle: u32, later: Seq<bool>)
    ensures
        MotionState::start(c.all_plan(angle), ErrorPolicy::FailFast).action() == (Action::Write {
            leg: Leg::RightBack,
            duty: duty_of(angle as int, c.max_duty_of(Leg::RightBack) as int) as u32,
        }),
        MotionState::start(c.all_plan(angle), ErrorPolicy::FailFast).record(true).action() == (Action::Write {
            leg: Leg::LeftBack,
            duty: duty_of(angle as int, c.max_duty_of(Leg::LeftBack) as int) as u32,
        }),
        MotionState::start(c.all_plan(angle), ErrorPolicy::FailFast).record(true).record(false).action()
            == Action::Failed(ServoError { leg: Leg::LeftBack }),
        MotionState::start(c.all_plan(angle), ErrorPolicy::FailFast).record(true).record(false).record_all(later)
            == MotionState::start(c.all_plan(angle), ErrorPolicy::FailFast).record(true).record(false),
{
    let s = MotionState::start(c.all_plan(angle), ErrorPolicy::FailFast).record(true);
    lemma_fail_fast_stops(s, later);
}

} // verus!
