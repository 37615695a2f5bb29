//! Motion plans and the fail-fast runner that hands their steps, one at a
//! time, to whoever drives the hardware.

use vstd::prelude::*;

verus! {

/// One servo of the robot, named by leg position.
#[derive(Clone, Copy, Debug, PartialEq, Eq, Structural)]
pub enum Leg {
    RightBack,
    LeftBack,
    RightFront,
    LeftFront,
}

/// Name of a leg as it appears in diagnostics.
pub open spec fn leg_name(leg: Leg) -> Seq<char> {
    match leg {
        Leg::RightBack => "right_back_leg"@,
        Leg::LeftBack => "left_back_leg"@,
        Leg::RightFront => "right_front_leg"@,
        Leg::LeftFront => "left_front_leg"@,
    }
}

impl Leg {
    /// Name of the leg for diagnostics, such as `"right_back_leg"`.
    pub fn name(self) -> (r: &'static str)
        ensures
            r@ == leg_name(self),
    {
        match self {
            Leg::RightBack => "right_back_leg",
            Leg::LeftBack => "left_back_leg",
            Leg::RightFront => "right_front_leg",
            Leg::LeftFront => "left_front_leg",
        }
    }
}

/// One step of a motion plan: a duty write on one channel, or a pause.
#[derive(Clone, Copy, Debug, PartialEq, Eq, Structural)]
pub enum Step {
    Write { leg: Leg, duty: u32 },
    Pause { ms: u32 },
}

/// What a runner does when a duty write fails.
#[derive(Clone, Copy, Debug, PartialEq, Eq, Structural)]
pub enum ErrorPolicy {
    /// Stop at the first failed write and report its channel.
    FailFast,
    /// Go on with the next step; the driver reports the failure itself.
    LogAndContinue,
}

/// A failed duty write, naming the channel it was meant for.
#[derive(Clone, Copy, Debug, PartialEq, Eq, Structural)]
pub struct ServoError {
    pub leg: Leg,
}

/// What the driver must do next.
#[derive(Clone, Copy, Debug, PartialEq, Eq, Structural)]
pub enum Action {
    /// Write `duty` to the channel of `leg`, then report the outcome.
    Write { leg: Leg, duty: u32 },
    /// Sleep for `ms` milliseconds, then report success.
    Pause { ms: u32 },
    /// Every step ran.
    Finished,
    /// A write failed and the rest of the plan was abandoned.
    Failed(ServoError),
}

/// Abstract state of a motion: its plan, the index of the next step, the
/// channel whose write stopped it (if any) and its error policy.
pub struct MotionState {
    pub steps: Seq<Step>,
    pub next: nat,
    pub failed: Option<Leg>,
    pub policy: ErrorPolicy,
}

impl MotionState {
    /// A motion about to run the first step of `steps`.
    pub open spec fn start(steps: Seq<Step>, policy: ErrorPolicy) -> MotionState {
        MotionState { steps, next: 0, failed: None, policy }
    }

    /// The motion has nothing more to do.
    pub open spec fn is_done(self) -> bool {
        self.failed is Some || self.next >= self.steps.len()
    }

    /// The action that the driver is asked to perform in this state.
    pub open spec fn action(self) -> Action {
        if let Some(leg) = self.failed {
            Action::Failed(ServoError { leg })
        } else if self.next >= self.steps.len() {
            Action::Finished
        } else {
            match self.steps[self.next as int] {
                Step::Write { leg, duty } => Action::Write { leg, duty },
                Step::Pause { ms } => Action::Pause { ms },
            }
        }
    }

    /// The state after the driver reports the outcome `ok` of the current
    /// action. A failed write stops a fail-fast motion; anything else moves
    /// on to the next step. A finished motion stays as it is.
    pub open spec fn record(self, ok: bool) -> MotionState {
        if self.is_done() {
            self
        } else if !ok && self.steps[self.next as int] is Write && self.policy == ErrorPolicy::FailFast {
            MotionState { failed: Some(self.steps[self.next as int]->leg), ..self }
        } else {
            MotionState { next: self.next + 1, ..self }
        }
    }

    /// The state after the outcomes `oks`, reported in order.
    pub open spec fn record_all(self, oks: Seq<bool>) -> MotionState
        decreases oks.len(),
    {
        if oks.len() == 0 {
            self
        } else {
            self.record(oks[0]).record_all(oks.drop_first())
        }
    }
}

/// A plan being run: the driver asks for `action`, performs it, and hands
/// the outcome to `record`, until the action is `Finished` or `Failed`.
pub struct Motion {
    steps: Vec<Step>,
    next: usize,
    failed: Option<Leg>,
    policy: ErrorPolicy,
}

impl View for Motion {
    type V = MotionState;

    closed spec fn view(&self) -> MotionState {
        MotionState { steps: self.steps@, next: self.next as nat, failed: self.failed, policy: self.policy }
    }
}

impl Motion {
    /// A motion that runs `steps` from the first one under `policy`.
    pub fn new(steps: Vec<Step>, policy: ErrorPolicy) -> (m: Motion)
        ensures
            m@ == MotionState::start(steps@, policy),
    {
        Motion { steps, next: 0, failed: None, policy }
    }

    /// The steps of the plan.
    pub fn steps(&self) -> (r: &Vec<Step>)
        ensures
            r@ == self@.steps,
    {
        &self.steps
    }

    /// What the motion does when a write fails.
    pub fn policy(&self) -> (r: ErrorPolicy)
        ensures
            r == self@.policy,
    {
        self.policy
    }

    /// Whether the motion has nothing more to do.
    pub fn is_done(&self) -> (r: bool)
        ensures
            r == self@.is_done(),
    {
        self.failed.is_some() || self.next >= self.steps.len()
    }

    /// The action that the driver is to perform now.
    pub fn action(&self) -> (r: Action)
        ensures
            r == self@.action(),
    {
        if let Some(leg) = self.failed {
            Action::Failed(ServoError { leg })
        } else if self.next >= self.steps.len() {
            Action::Finished
        } else {
            match self.steps[self.next] {
                Step::Write { leg, duty } => Action::Write { leg, duty },
                Step::Pause { ms } => Action::Pause { ms },
            }
        }
    }

    /// Takes the outcome of the current action: `ok` is false when a duty
    /// write failed.
    pub fn record(&mut self, ok: bool)
        ensures
            final(self)@ == old(self)@.record(ok),
    {
        if self.failed.is_some() || self.next >= self.steps.len() {
            return;
        }
        match self.steps[self.next] {
            Step::Write { leg, .. } => {
                if !ok && self.policy == ErrorPolicy::FailFast {
                    self.failed = Some(leg);
                    return;
                }
            },
            Step::Pause { .. } => {},
        }
        self.next = self.next + 1;
    }
}

/// `k` successful outcomes in a row.
pub open spec fn successes(k: nat) -> Seq<bool> {
    Seq::new(k, |i: int| true)
}

/// A finished motion ignores every further outcome.
pub proof fn lemma_done_is_final(s: MotionState, oks: Seq<bool>)
    requires
        s.is_done(),
    ensures
        s.record_all(oks) == s,
    decreases oks.len(),
{
    if oks.len() > 0 {
        lemma_done_is_final(s.record(oks[0]), oks.drop_first());
    }
}

/// Run with every outcome a success, a motion offers the steps of its plan
/// one by one and in order, and reports `Finished` only after the last.
pub proof fn lemma_runs_every_step(steps: Seq<Step>, policy: ErrorPolicy, k: nat)
    requires
        k <= steps.len(),
    ensures
        MotionState::start(steps, policy).record_all(successes(k)) == (MotionState {
            steps,
            next: k,
            failed: None,
            policy,
        }),
        k < steps.len() ==> !MotionState::start(steps, policy).record_all(successes(k)).is_done(),
        k == steps.len() ==> MotionState::start(steps, policy).record_all(successes(k)).action()
            == Action::Finished,
    decreases k,
{
    let s = MotionState::start(steps, policy);
    if k > 0 {
        lemma_runs_every_step(steps, policy, (k - 1) as nat);
        let before = MotionState { steps, next: (k - 1) as nat, failed: None, policy };
        lemma_record_all_snoc(s, successes((k - 1) as nat), true);
        assert(successes((k - 1) as nat).push(true) =~= successes(k));
        assert(before.record(true) == (MotionState { steps, next: k, failed: None, policy }));
    } else {
        assert(successes(0) =~= Seq::<bool>::empty());
    }
}

/// Reporting one more outcome after a sequence of outcomes.
pub proof fn lemma_record_all_snoc(s: MotionState, oks: Seq<bool>, ok: bool)
    ensures
        s.record_all(oks.push(ok)) == s.record_all(oks).record(ok),
    decreases oks.len(),
{
    if oks.len() == 0 {
        assert(oks.push(ok).drop_first() =~= Seq::<bool>::empty());
        assert(s.record(ok).record_all(Seq::<bool>::empty()) == s.record(ok));
        assert(s.record_all(oks) == s);
    } else {
        lemma_record_all_snoc(s.record(oks[0]), oks.drop_first(), ok);
        assert(oks.push(ok).drop_first() =~= oks.drop_first().push(ok));
        assert(oks.push(ok)[0] == oks[0]);
    }
}

/// Under the fail-fast policy a failed write ends the motion: it reports the
/// channel of that write, and no outcome reported afterwards changes that.
pub proof fn lemma_fail_fast_stops(s: MotionState, oks: Seq<bool>)
    requires
        s.policy == ErrorPolicy::FailFast,
        s.action() is Write,
    ensures
        s.record(false).action() == Action::Failed(ServoError { leg: s.action()->Write_leg }),
        s.record(false).record_all(oks) == s.record(false),
{
    lemma_done_is_final(s.record(false), oks);
}

} // verus!
