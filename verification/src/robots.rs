//! Robot operating modes and the order of work in a control cycle.
use crate::vendor::performers::Stage;
use std::time::Duration;
use vstd::prelude::*;

verus! {

/// Operating mode of the robot, as the driver station commands it.
#[derive(Debug, Clone, Copy, PartialEq, Eq, Structural, Hash)]
pub enum RobotMode {
    Disabled,
    Teleop,
    Autonomous,
    Test,
}

impl RobotMode {
    #[must_use]
    pub fn is_disabled(&self) -> (b: bool)
        ensures
            b == (*self == RobotMode::Disabled),
    {
        matches!(self, RobotMode::Disabled)
    }

    #[must_use]
    pub fn is_autonomous(&self) -> (b: bool)
        ensures
            b == (*self == RobotMode::Autonomous),
    {
        matches!(self, RobotMode::Autonomous)
    }

    #[must_use]
    pub fn is_teleop(&self) -> (b: bool)
        ensures
            b == (*self == RobotMode::Teleop),
    {
        matches!(self, RobotMode::Teleop)
    }

    #[must_use]
    pub fn is_test(&self) -> (b: bool)
        ensures
            b == (*self == RobotMode::Test),
    {
        matches!(self, RobotMode::Test)
    }
}

/// What a robot program supplies: one callback per lifecycle event.
///
/// Only `construct`, `robot_init`, `robot_periodic` and
/// `robot_teleop_periodic` must be written; the others do nothing unless
/// overridden.
pub trait UserRobot {
    fn construct() -> Self where Self: Sized;

    /// Runs once, when the program starts.
    fn robot_init(&mut self);

    /// Runs every cycle, whatever the mode.
    fn robot_periodic(&mut self, time_delta: Duration);

    /// Runs when the robot enters the disabled mode.
    fn robot_disabled_init(&mut self) {
    }

    /// Runs every cycle while the robot is disabled.
    fn robot_disabled_periodic(&mut self, _time_delta: Duration) {
    }

    /// Runs when the robot leaves the disabled mode.
    fn robot_disabled_end(&mut self) {
    }

    /// Runs when the robot enters the autonomous mode.
    fn robot_autonomous_init(&mut self) {
    }

    /// Runs every cycle while the robot is autonomous.
    fn robot_autonomous_periodic(&mut self, _time_delta: Duration) {
    }

    /// Runs when the robot leaves the autonomous mode.
    fn robot_autonomous_end(&mut self) {
    }

    /// Runs when the robot enters the teleoperated mode.
    fn robot_teleop_init(&mut self) {
    }

    /// Runs every cycle while the robot is teleoperated.
    fn robot_teleop_periodic(&mut self, time_delta: Duration);

    /// Runs when the robot leaves the teleoperated mode.
    fn robot_teleop_end(&mut self) {
    }

    /// Runs when the robot enters the test mode.
    fn robot_test_init(&mut self) {
    }

    /// Runs every cycle while the robot is in test mode.
    fn robot_test_periodic(&mut self, _time_delta: Duration) {
    }

    /// Runs when the robot leaves the test mode.
    fn robot_test_end(&mut self) {
    }

    /// Runs once after `robot_init`, in simulation only.
    fn sim_init(&mut self) {
    }

    /// Runs every cycle, in simulation only.
    fn sim_periodic(&mut self, _time_delta: Duration) {
    }
}

/// What the runtime drives: a robot program wrapped with its control loop.
pub trait RobotCore<Robo: UserRobot> {
    fn construct() -> Self where Self: Sized;

    /// Runs the control loop. Called once, after the hardware layer is up.
    fn start(&mut self);

    /// Called once when the program ends, before the hardware layer goes down.
    fn end(&mut self);

    /// The mode the robot is in now.
    fn get_mode(&self) -> RobotMode;
}

/// A callback of [`UserRobot`].
#[derive(Debug, Clone, Copy, PartialEq, Eq, Structural, Hash)]
pub enum Hook {
    /// `robot_init`
    RobotInit,
    /// `robot_periodic`
    RobotPeriodic,
    /// `sim_init`
    SimInit,
    /// `sim_periodic`
    SimPeriodic,
    /// The `init` callback of a mode.
    ModeInit(RobotMode),
    /// The `periodic` callback of a mode.
    ModePeriodic(RobotMode),
    /// The `end` callback of a mode.
    ModeEnd(RobotMode),
}

/// A stopwatch of the control loop. Each periodic callback is told the time
/// since the previous reading of its stopwatch, and the reading restarts it.
#[derive(Debug, Clone, Copy, PartialEq, Eq, Structural, Hash)]
pub enum Stopwatch {
    /// Read by `robot_periodic`.
    Robot,
    /// Read by the `periodic` callback of whichever mode the robot is in: a
    /// change of mode does not restart it.
    Mode,
    /// Read by `sim_periodic`.
    Simulation,
}

impl Hook {
    /// The stopwatch that times this callback, if it is a periodic one.
    pub open spec fn spec_stopwatch(self) -> Option<Stopwatch> {
        match self {
            Hook::RobotPeriodic => Some(Stopwatch::Robot),
            Hook::ModePeriodic(_) => Some(Stopwatch::Mode),
            Hook::SimPeriodic => Some(Stopwatch::Simulation),
            _ => None,
        }
    }

    /// The stopwatch to read, and restart, before this callback is called.
    #[verifier::when_used_as_spec(spec_stopwatch)]
    pub fn stopwatch(self) -> (watch: Option<Stopwatch>)
        ensures
            watch == self.spec_stopwatch(),
    {
        match self {
            Hook::RobotPeriodic => Some(Stopwatch::Robot),
            Hook::ModePeriodic(_) => Some(Stopwatch::Mode),
            Hook::SimPeriodic => Some(Stopwatch::Simulation),
            _ => None,
        }
    }
}

/// One step of the control loop, for the runtime to carry out.
#[derive(Debug, Clone, Copy, PartialEq, Eq, Structural, Hash)]
pub enum Action {
    /// Arm the alarm to fire every `period_micros` microseconds, without
    /// skipping alarms that were missed.
    ArmAlarm { period_micros: u64 },
    /// Run the performers of a stage.
    RunStage(Stage),
    /// Call a callback of the user robot.
    Call(Hook),
    /// Sleep until the alarm fires.
    AwaitAlarm,
}

/// Alarm period used when none was chosen, in microseconds.
pub const DEFAULT_PERIOD_MICROS: u64 = 20_000;

/// `action` in simulation, nothing otherwise.
pub open spec fn in_simulation(simulated: bool, action: Action) -> Seq<Action> {
    if simulated {
        seq![action]
    } else {
        Seq::empty()
    }
}

/// The callbacks owed when the mode goes from `last` to `mode`: none while
/// the mode stays, else the `end` of the old mode and then the `init` of
/// the new one.
pub open spec fn transition_actions(last: RobotMode, mode: RobotMode) -> Seq<Action> {
    if last == mode {
        Seq::empty()
    } else {
        seq![Action::Call(Hook::ModeEnd(last)), Action::Call(Hook::ModeInit(mode))]
    }
}

/// What happens before the first cycle, in order.
pub open spec fn startup_actions(period_micros: u64, simulated: bool) -> Seq<Action> {
    seq![
        Action::ArmAlarm { period_micros },
        Action::RunStage(Stage::Init),
        Action::Call(Hook::RobotInit),
    ] + in_simulation(simulated, Action::Call(Hook::SimInit))
}

/// What happens in one cycle, in order, when the previous cycle ran in
/// `last` and this one runs in `mode`.
pub open spec fn cycle_actions(last: RobotMode, mode: RobotMode, simulated: bool) -> Seq<Action> {
    transition_actions(last, mode) + seq![Action::RunStage(Stage::PreUser)] + in_simulation(
        simulated,
        Action::RunStage(Stage::PreUserSim),
    ) + seq![Action::Call(Hook::RobotPeriodic), Action::Call(Hook::ModePeriodic(mode))]
        + in_simulation(simulated, Action::Call(Hook::SimPeriodic)) + seq![
        Action::RunStage(Stage::PostUser),
    ] + in_simulation(simulated, Action::RunStage(Stage::PostUserSim)) + seq![Action::AwaitAlarm]
}

/// Plans what happens before the first cycle: the alarm is armed, the
/// performers of the `Init` stage run, then the robot's `robot_init` and,
/// in simulation, its `sim_init`.
pub fn startup(period_micros: u64, simulated: bool) -> (actions: Vec<Action>)
    ensures
        actions@ == startup_actions(period_micros, simulated),
{
    let mut actions: Vec<Action> = Vec::new();
    actions.push(Action::ArmAlarm { period_micros });
    actions.push(Action::RunStage(Stage::Init));
    actions.push(Action::Call(Hook::RobotInit));
    if simulated {
        actions.push(Action::Call(Hook::SimInit));
    }
    actions
}

/// The state of the control loop between two cycles.
#[derive(Debug, Clone, Copy, PartialEq, Eq, Structural, Hash)]
pub struct ControlLoop {
    /// The mode of the most recent cycle, or the mode at start before any.
    pub last_mode: RobotMode,
    /// Whether the program runs against a simulator.
    pub simulated: bool,
}

impl ControlLoop {
    /// The loop of a robot that is in `mode`, before its first cycle. No
    /// mode callback is owed for `mode`: the first cycle counts as a
    /// continuation of it.
    pub fn new(mode: RobotMode, simulated: bool) -> (control: Self)
        ensures
            control.last_mode == mode,
            control.simulated == simulated,
    {
        ControlLoop { last_mode: mode, simulated }
    }

    /// Plans the cycle that runs in `mode` and remembers `mode` for the next.
    pub fn cycle(&mut self, mode: RobotMode) -> (actions: Vec<Action>)
        ensures
            actions@ == cycle_actions(old(self).last_mode, mode, old(self).simulated),
            final(self).last_mode == mode,
            final(self).simulated == old(self).simulated,
    {
        let mut actions: Vec<Action> = Vec::new();
        if mode != self.last_mode {
            actions.push(Action::Call(Hook::ModeEnd(self.last_mode)));
            actions.push(Action::Call(Hook::ModeInit(mode)));
        }
        actions.push(Action::RunStage(Stage::PreUser));
        if self.simulated {
            actions.push(Action::RunStage(Stage::PreUserSim));
        }
        actions.push(Action::Call(Hook::RobotPeriodic));
        actions.push(Action::Call(Hook::ModePeriodic(mode)));
        if self.simulated {
            actions.push(Action::Call(Hook::SimPeriodic));
        }
        actions.push(Action::RunStage(Stage::PostUser));
        if self.simulated {
            actions.push(Action::RunStage(Stage::PostUserSim));
        }
        actions.push(Action::AwaitAlarm);
        self.last_mode = mode;
        actions
    }
}

} // verus!
