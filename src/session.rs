use vstd::prelude::*;

verus! {

/// The experiment a session runs; chosen once and fixed thereafter.
#[derive(Clone, Copy, Debug, PartialEq, Eq, Structural)]
pub enum Mode {
    /// A ball bouncing off a wall.
    Wall,
    /// A probe disk fired at a hidden disk.
    Disk,
}

/// A measurement the trainee enters, range-checked and then perturbed.
#[derive(Clone, Copy, Debug, PartialEq, Eq, Structural, Hash)]
pub enum Input {
    /// Launch speed of the ball or probe.
    LaunchSpeed,
    /// Launch angle: to the wall's normal, or to the disk baseline.
    LaunchAngle,
    /// Spin of the ball before it meets the wall.
    AngularSpeed,
    /// Mass of the probe disk.
    ProbeMass,
    /// Offset of the probe's launch point across its direction of flight.
    LaunchPosition,
}

/// A hidden physical constant, drawn afresh in every trial.
#[derive(Clone, Copy, Debug, PartialEq, Eq, Structural, Hash)]
pub enum Hidden {
    /// Radius of the ball.
    Radius,
    /// Coefficient of restitution.
    Restitution,
    /// Coefficient of friction between ball and wall.
    Friction,
    /// Moment-of-inertia coefficient of the ball.
    Moment,
    /// Distance travelled, for the realism delay.
    Distance,
    /// Processing time, for the realism delay.
    Processing,
    /// Radius of the probe disk.
    ProbeRadius,
    /// Radius of the hidden disk.
    MysteryRadius,
    /// Mass of the hidden disk.
    MysteryMass,
    /// First coordinate of the hidden disk's centre.
    PositionX,
    /// Second coordinate of the hidden disk's centre.
    PositionY,
}

/// The next thing the driver of a session must do.
#[derive(Clone, Copy, Debug, PartialEq, Eq, Structural)]
pub enum Action {
    /// Announce the start of the trial with this number.
    Announce(u64),
    /// Ask for a raw measurement, and check it against its range.
    Ask(Input),
    /// Perturb the measurement just accepted (two normal deviates).
    Perturb(Input),
    /// Draw one hidden constant.
    Sample(Hidden),
    /// Run the collision model on the perturbed inputs and drawn constants.
    Collide,
    /// Tell the trainee that the experiment is running.
    Running,
    /// Suspend for the realism delay.
    Wait,
    /// Reveal that the probe missed.
    ReportMiss,
    /// Reveal the outcome of the collision.
    ReportOutcome,
}

/// What the driver reports back once it has performed an action.
#[derive(Clone, Copy, Debug, PartialEq, Eq, Structural)]
pub enum Event {
    /// The action was carried out.
    Done,
    /// The measurement asked for was not a number or lay outside its range.
    Rejected,
    /// The collision model ran; `true` when the probe hit its target.
    Outcome(bool),
}

/// The hidden constants drawn before the collision model runs.
pub open spec fn constants_before_collision(mode: Mode) -> Seq<Hidden> {
    match mode {
        Mode::Wall => seq![Hidden::Radius, Hidden::Restitution, Hidden::Friction, Hidden::Moment],
        Mode::Disk => seq![
            Hidden::ProbeRadius,
            Hidden::MysteryRadius,
            Hidden::MysteryMass,
            Hidden::Processing,
            Hidden::Restitution,
            Hidden::PositionX,
            Hidden::PositionY,
        ],
    }
}

/// The measurements of a trial, in the order they are asked for.
pub open spec fn inputs_of(mode: Mode) -> Seq<Input> {
    match mode {
        Mode::Wall => seq![Input::LaunchSpeed, Input::LaunchAngle, Input::AngularSpeed],
        Mode::Disk => seq![
            Input::ProbeMass,
            Input::LaunchPosition,
            Input::LaunchAngle,
            Input::LaunchSpeed,
        ],
    }
}

/// Each measurement is asked for and then perturbed, before the next is asked.
pub open spec fn reading(inputs: Seq<Input>) -> Seq<Action>
    decreases inputs.len(),
{
    if inputs.len() == 0 {
        seq![]
    } else {
        seq![Action::Ask(inputs[0]), Action::Perturb(inputs[0])] + reading(inputs.drop_first())
    }
}

pub open spec fn sampling(constants: Seq<Hidden>) -> Seq<Action> {
    constants.map_values(|k: Hidden| Action::Sample(k))
}

/// The actions that follow the collision model.
pub open spec fn aftermath(mode: Mode, hit: bool) -> Seq<Action> {
    match mode {
        Mode::Wall => seq![
            Action::Running,
            Action::Sample(Hidden::Distance),
            Action::Sample(Hidden::Processing),
            Action::Wait,
            Action::ReportOutcome,
        ],
        Mode::Disk => if hit {
            seq![Action::Running, Action::Wait, Action::ReportOutcome]
        } else {
            seq![Action::Sample(Hidden::Distance), Action::Wait, Action::ReportMiss]
        },
    }
}

/// The actions of the trial numbered `trial` up to and including the collision.
pub open spec fn prelude(mode: Mode, trial: u64) -> Seq<Action> {
    seq![Action::Announce(trial)] + reading(inputs_of(mode)) + sampling(
        constants_before_collision(mode),
    ) + seq![Action::Collide]
}

/// All actions of the trial numbered `trial`, with `hit` the collision's outcome.
pub open spec fn script(mode: Mode, trial: u64, hit: bool) -> Seq<Action> {
    prelude(mode, trial) + aftermath(mode, hit)
}

/// The number of the trial that follows the one numbered `trial`; the count
/// stops at the largest representable number.
pub open spec fn following(trial: u64) -> u64 {
    if trial < u64::MAX {
        (trial + 1) as u64
    } else {
        trial
    }
}

/// A running session: the trial under way and the position in its script.
#[derive(Clone, Copy, Debug)]
pub struct Session {
    pub mode: Mode,
    /// Number of the current trial, counted from one.
    pub trial: u64,
    /// Index of the current action in the trial's script.
    pub pos: usize,
    /// Whether the collision of the current trial was a hit.
    pub hit: bool,
}

impl Session {
    pub open spec fn wf(&self) -> bool {
        self.pos < script(self.mode, self.trial, self.hit).len()
    }

    /// The action the driver must perform now.
    pub open spec fn action(&self) -> Action {
        script(self.mode, self.trial, self.hit)[self.pos as int]
    }

    /// The session after the driver reports `e` for the current action.
    ///
    /// A rejected action is performed again. The collision records whether
    /// the probe hit. After the last action of a trial the next trial begins.
    pub open spec fn next(self, e: Event) -> Session {
        if e == Event::Rejected {
            self
        } else if self.action() == Action::Collide {
            Session { pos: (self.pos + 1) as usize, hit: e == Event::Outcome(true), ..self }
        } else if self.pos + 1 == script(self.mode, self.trial, self.hit).len() {
            Session { trial: following(self.trial), pos: 0, hit: false, ..self }
        } else {
            Session { pos: (self.pos + 1) as usize, ..self }
        }
    }

    /// A session in `mode`, at the start of the first trial.
    pub fn new(mode: Mode) -> (r: Session)
        ensures
            r.wf(),
            r.mode == mode,
            r.trial == 1,
            r.pos == 0,
            r.hit == false,
            r.action() == Action::Announce(1),
    {
        proof {
            lemma_script_shape(mode, 1, false);
        }
        Session { mode, trial: 1, pos: 0, hit: false }
    }

    /// The action the driver must perform now.
    pub fn current(&self) -> (r: Action)
        requires
            self.wf(),
        ensures
            r == self.action(),
    {
        let all = script_of(self.mode, self.trial, self.hit);
        all[self.pos]
    }

    /// Records the driver's report `e` on the current action.
    pub fn advance(&mut self, e: Event)
        requires
            old(self).wf(),
        ensures
            final(self).wf(),
            *final(self) == old(self).next(e),
    {
        proof {
            lemma_script_shape(self.mode, self.trial, self.hit);
            lemma_script_shape(self.mode, self.trial, e == Event::Outcome(true));
            lemma_script_shape(self.mode, following(self.trial), false);
        }
        if e == Event::Rejected {
            return;
        }
        let len = script_of(self.mode, self.trial, self.hit).len();
        if self.current() == Action::Collide {
            self.pos = self.pos + 1;
            self.hit = e == Event::Outcome(true);
        } else if self.pos + 1 == len {
            if self.trial < u64::MAX {
                self.trial = self.trial + 1;
            }
            self.pos = 0;
            self.hit = false;
        } else {
            self.pos = self.pos + 1;
        }
    }
}

/// The number of actions up to and including the collision.
pub open spec fn prelude_len(mode: Mode) -> nat {
    match mode {
        Mode::Wall => 12,
        Mode::Disk => 17,
    }
}

/// The script's first action announces the trial, the collision stands at the
/// end of the prelude, which does not depend on the outcome, and the script
/// runs on after it.
pub proof fn lemma_script_shape(mode: Mode, trial: u64, hit: bool)
    ensures
        prelude(mode, trial).len() == prelude_len(mode),
        script(mode, trial, hit).len() > prelude_len(mode),
        script(mode, trial, hit)[0] == Action::Announce(trial),
        script(mode, trial, hit)[prelude_len(mode) - 1] == Action::Collide,
        forall|i: int|
            0 <= i < prelude_len(mode) ==> script(mode, trial, hit)[i] == prelude(mode, trial)[i],
        forall|i: int|
            0 <= i < prelude_len(mode) - 1 ==> script(mode, trial, hit)[i] != Action::Collide,
        forall|i: int|
            prelude_len(mode) <= i < script(mode, trial, hit).len() ==> script(mode, trial, hit)[i]
                != Action::Collide,
{
    reveal_with_fuel(reading, 5);
    let p = prelude(mode, trial);
    let s = script(mode, trial, hit);
    assert(s[0] == p[0]);
    assert(s =~= p + aftermath(mode, hit));
}

/// Builds the script of the trial numbered `trial`.
fn script_of(mode: Mode, trial: u64, hit: bool) -> (r: Vec<Action>)
    ensures
        r@ == script(mode, trial, hit),
{
    let mut r: Vec<Action> = Vec::new();
    r.push(Action::Announce(trial));
    match mode {
        Mode::Wall => {
            r.push(Action::Ask(Input::LaunchSpeed));
            r.push(Action::Perturb(Input::LaunchSpeed));
            r.push(Action::Ask(Input::LaunchAngle));
            r.push(Action::Perturb(Input::LaunchAngle));
            r.push(Action::Ask(Input::AngularSpeed));
            r.push(Action::Perturb(Input::AngularSpeed));
            r.push(Action::Sample(Hidden::Radius));
            r.push(Action::Sample(Hidden::Restitution));
            r.push(Action::Sample(Hidden::Friction));
            r.push(Action::Sample(Hidden::Moment));
            r.push(Action::Collide);
            r.push(Action::Running);
            r.push(Action::Sample(Hidden::Distance));
            r.push(Action::Sample(Hidden::Processing));
            r.push(Action::Wait);
            r.push(Action::ReportOutcome);
        },
        Mode::Disk => {
            r.push(Action::Ask(Input::ProbeMass));
            r.push(Action::Perturb(Input::ProbeMass));
            r.push(Action::Ask(Input::LaunchPosition));
            r.push(Action::Perturb(Input::LaunchPosition));
            r.push(Action::Ask(Input::LaunchAngle));
            r.push(Action::Perturb(Input::LaunchAngle));
            r.push(Action::Ask(Input::LaunchSpeed));
            r.push(Action::Perturb(Input::LaunchSpeed));
            r.push(Action::Sample(Hidden::ProbeRadius));
            r.push(Action::Sample(Hidden::MysteryRadius));
            r.push(Action::Sample(Hidden::MysteryMass));
            r.push(Action::Sample(Hidden::Processing));
            r.push(Action::Sample(Hidden::Restitution));
            r.push(Action::Sample(Hidden::PositionX));
            r.push(Action::Sample(Hidden::PositionY));
            r.push(Action::Collide);
            if hit {
                r.push(Action::Running);
                r.push(Action::Wait);
                r.push(Action::ReportOutcome);
            } else {
                r.push(Action::Sample(Hidden::Distance));
                r.push(Action::Wait);
                r.push(Action::ReportMiss);
            }
        },
    }
    proof {
        reveal_with_fuel(reading, 5);
        assert(r@ =~= script(mode, trial, hit));
    }
    r
}

/// Every trial, whatever its number and whatever happened in the trials
/// before it, draws each hidden constant of its mode before its collision,
/// and a session that finishes a trial starts the next one from its first
/// action: no drawn constant is carried from one trial into another.
pub proof fn lemma_constants_drawn_every_trial(s: Session, e: Event, k: Hidden)
    requires
        s.wf(),
        constants_before_collision(s.mode).contains(k),
    ensures
        exists|i: int|
            0 <= i < prelude_len(s.mode) - 1 && #[trigger] script(s.mode, s.trial, s.hit)[i]
                == Action::Sample(k),
        s.pos + 1 == script(s.mode, s.trial, s.hit).len() && e != Event::Rejected ==> {
            &&& s.next(e).pos == 0
            &&& s.next(e).trial == following(s.trial)
            &&& exists|i: int|
                0 <= i < prelude_len(s.mode) - 1 && #[trigger] script(
                    s.mode,
                    s.next(e).trial,
                    s.next(e).hit,
                )[i] == Action::Sample(k)
        },
{
    reveal_with_fuel(reading, 5);
    lemma_script_shape(s.mode, s.trial, s.hit);
    lemma_script_shape(s.mode, following(s.trial), false);
    let c = constants_before_collision(s.mode);
    let j = choose|j: int| 0 <= j < c.len() && c[j] == k;
    let at = 1 + 2 * inputs_of(s.mode).len() + j;
    let t2 = following(s.trial);
    if s.pos + 1 == script(s.mode, s.trial, s.hit).len() && e != Event::Rejected {
        assert(s.action() != Action::Collide);
        let n = s.next(e);
        assert(n.pos == 0);
        assert(n.hit == false);
        assert(n.trial == t2);
        assert(script(s.mode, n.trial, n.hit)[at] == Action::Sample(k));
    }
    assert(script(s.mode, s.trial, s.hit)[at] == Action::Sample(k));
    assert(script(s.mode, t2, false)[at] == Action::Sample(k));
}

/// Within a trial every perturbation of a measurement comes before any draw of
/// a hidden constant.
pub proof fn lemma_perturbations_before_draws(mode: Mode, trial: u64, hit: bool, i: int, j: int)
    requires
        0 <= i < script(mode, trial, hit).len(),
        0 <= j < script(mode, trial, hit).len(),
        script(mode, trial, hit)[i] is Perturb,
        script(mode, trial, hit)[j] is Sample,
    ensures
        i < j,
{
    reveal_with_fuel(reading, 5);
    lemma_script_shape(mode, trial, hit);
    let s = script(mode, trial, hit);
    assert(s =~= prelude(mode, trial) + aftermath(mode, hit));
    if mode == Mode::Wall {
        assert(s.len() == 17);
    } else {
        assert(s.len() == 20);
    }
}

/// A measurement that is rejected is asked for again, and one that is
/// accepted is perturbed at once, before anything else happens.
pub proof fn lemma_ask_until_accepted(s: Session, m: Input)
    requires
        s.wf(),
        s.action() == Action::Ask(m),
    ensures
        s.next(Event::Rejected) == s,
        s.next(Event::Rejected).action() == Action::Ask(m),
        s.next(Event::Done).wf(),
        s.next(Event::Done).action() == Action::Perturb(m),
{
    reveal_with_fuel(reading, 5);
    lemma_script_shape(s.mode, s.trial, s.hit);
}

} // verus!
