use frclib::robots::{
    startup, Action, ControlLoop, Hook, RobotMode, Stopwatch, UserRobot, DEFAULT_PERIOD_MICROS,
};
use frclib::vendor::performers::Stage;
use frclib::EventTypes;
use std::time::Duration;

#[allow(dead_code)]
struct Robot {
    name: String,
}

impl UserRobot for Robot {
    fn construct() -> Self
    where
        Self: Sized,
    {
        Self { name: "Robot".to_string() }
    }

    fn robot_init(&mut self) {}

    fn robot_periodic(&mut self, _: Duration) {}

    fn robot_teleop_periodic(&mut self, _: Duration) {}
}

#[test]
fn main() {
    let mut robot = Robot::construct();
    assert_eq!(robot.name, "Robot");
    robot.robot_init();
    robot.robot_periodic(Duration::from_millis(20));
    robot.robot_teleop_periodic(Duration::from_millis(20));
    robot.robot_disabled_init();
    robot.sim_periodic(Duration::from_millis(20));
    assert_eq!(robot.name, "Robot");
}

#[test]
fn mode_predicates_select_one_mode() {
    let modes =
        [RobotMode::Disabled, RobotMode::Teleop, RobotMode::Autonomous, RobotMode::Test];
    for mode in modes {
        assert_eq!(mode.is_disabled(), mode == RobotMode::Disabled);
        assert_eq!(mode.is_teleop(), mode == RobotMode::Teleop);
        assert_eq!(mode.is_autonomous(), mode == RobotMode::Autonomous);
        assert_eq!(mode.is_test(), mode == RobotMode::Test);
        let hits = [mode.is_disabled(), mode.is_teleop(), mode.is_autonomous(), mode.is_test()];
        assert_eq!(hits.iter().filter(|hit| **hit).count(), 1);
    }
}

#[test]
fn event_types_are_distinct() {
    assert_ne!(EventTypes::Init, EventTypes::Periodic);
    assert_ne!(EventTypes::Overrun, EventTypes::End);
    assert_eq!(EventTypes::Init, EventTypes::Init);
}

#[test]
fn performers_are_enabled_with_the_robot() {
    let modes =
        [RobotMode::Disabled, RobotMode::Teleop, RobotMode::Autonomous, RobotMode::Test];
    for mode in modes {
        assert!(!Stage::Init.enabled(mode));
        for stage in [Stage::PreUser, Stage::PreUserSim, Stage::PostUser, Stage::PostUserSim] {
            assert_eq!(stage.enabled(mode), mode != RobotMode::Disabled);
        }
    }
}

#[test]
fn default_period_is_twenty_milliseconds() {
    assert_eq!(DEFAULT_PERIOD_MICROS, 20_000);
}

#[test]
fn startup_arms_the_alarm_first() {
    let actions = startup(20_000, false);
    assert_eq!(
        actions,
        vec![
            Action::ArmAlarm { period_micros: 20_000 },
            Action::RunStage(Stage::Init),
            Action::Call(Hook::RobotInit),
        ]
    );
}

#[test]
fn startup_in_simulation_calls_sim_init_last() {
    let actions = startup(5_000, true);
    assert_eq!(
        actions,
        vec![
            Action::ArmAlarm { period_micros: 5_000 },
            Action::RunStage(Stage::Init),
            Action::Call(Hook::RobotInit),
            Action::Call(Hook::SimInit),
        ]
    );
}

#[test]
fn new_loop_remembers_the_mode_at_start() {
    let control = ControlLoop::new(RobotMode::Test, true);
    assert_eq!(control.last_mode, RobotMode::Test);
    assert!(control.simulated);
}

#[test]
fn cycle_in_the_same_mode_calls_no_mode_edge() {
    let mut control = ControlLoop::new(RobotMode::Disabled, false);
    let actions = control.cycle(RobotMode::Disabled);
    assert_eq!(
        actions,
        vec![
            Action::RunStage(Stage::PreUser),
            Action::Call(Hook::RobotPeriodic),
            Action::Call(Hook::ModePeriodic(RobotMode::Disabled)),
            Action::RunStage(Stage::PostUser),
            Action::AwaitAlarm,
        ]
    );
    assert_eq!(control.last_mode, RobotMode::Disabled);
}

#[test]
fn change_of_mode_ends_the_old_mode_before_it_starts_the_new() {
    let mut control = ControlLoop::new(RobotMode::Disabled, false);
    let actions = control.cycle(RobotMode::Autonomous);
    assert_eq!(
        actions,
        vec![
            Action::Call(Hook::ModeEnd(RobotMode::Disabled)),
            Action::Call(Hook::ModeInit(RobotMode::Autonomous)),
            Action::RunStage(Stage::PreUser),
            Action::Call(Hook::RobotPeriodic),
            Action::Call(Hook::ModePeriodic(RobotMode::Autonomous)),
            Action::RunStage(Stage::PostUser),
            Action::AwaitAlarm,
        ]
    );
    assert_eq!(control.last_mode, RobotMode::Autonomous);
    let next = control.cycle(RobotMode::Autonomous);
    assert_eq!(next.len(), 5);
    let back = control.cycle(RobotMode::Test);
    assert_eq!(back[0], Action::Call(Hook::ModeEnd(RobotMode::Autonomous)));
    assert_eq!(back[1], Action::Call(Hook::ModeInit(RobotMode::Test)));
}

#[test]
fn simulated_cycle_adds_the_simulation_steps() {
    let mut control = ControlLoop::new(RobotMode::Teleop, true);
    let actions = control.cycle(RobotMode::Teleop);
    assert_eq!(
        actions,
        vec![
            Action::RunStage(Stage::PreUser),
            Action::RunStage(Stage::PreUserSim),
            Action::Call(Hook::RobotPeriodic),
            Action::Call(Hook::ModePeriodic(RobotMode::Teleop)),
            Action::Call(Hook::SimPeriodic),
            Action::RunStage(Stage::PostUser),
            Action::RunStage(Stage::PostUserSim),
            Action::AwaitAlarm,
        ]
    );
    assert!(control.simulated);
}

#[test]
fn every_pair_of_modes_plans_a_cycle() {
    let modes =
        [RobotMode::Disabled, RobotMode::Teleop, RobotMode::Autonomous, RobotMode::Test];
    for last in modes {
        for mode in modes {
            for simulated in [false, true] {
                let mut control = ControlLoop { last_mode: last, simulated };
                let actions = control.cycle(mode);
                let edges = if last == mode { 0 } else { 2 };
                let extra = if simulated { 3 } else { 0 };
                assert_eq!(actions.len(), 5 + edges + extra);
                assert_eq!(actions[actions.len() - 1], Action::AwaitAlarm);
                let periodic = actions
                    .iter()
                    .filter(|a| **a == Action::Call(Hook::ModePeriodic(mode)))
                    .count();
                assert_eq!(periodic, 1);
                assert_eq!(control.last_mode, mode);
            }
        }
    }
}

#[test]
fn periodic_callbacks_have_a_stopwatch() {
    assert_eq!(Hook::RobotPeriodic.stopwatch(), Some(Stopwatch::Robot));
    assert_eq!(Hook::SimPeriodic.stopwatch(), Some(Stopwatch::Simulation));
    for mode in [RobotMode::Disabled, RobotMode::Teleop, RobotMode::Autonomous, RobotMode::Test] {
        assert_eq!(Hook::ModePeriodic(mode).stopwatch(), Some(Stopwatch::Mode));
        assert_eq!(Hook::ModeInit(mode).stopwatch(), None);
        assert_eq!(Hook::ModeEnd(mode).stopwatch(), None);
    }
    assert_eq!(Hook::RobotInit.stopwatch(), None);
    assert_eq!(Hook::SimInit.stopwatch(), None);
}
