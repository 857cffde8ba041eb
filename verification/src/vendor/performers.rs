//! Extension points of the control loop.
//!
//! A performer is a piece of vendor code that runs at a fixed point of the
//! loop. The loop tells each performer whether the robot is enabled.
use crate::robots::RobotMode;
use vstd::prelude::*;

verus! {

/// A point of the control loop at which performers run.
#[derive(Debug, Clone, Copy, PartialEq, Eq, Structural, Hash)]
pub enum Stage {
    /// Once, before any user code.
    Init,
    /// Every cycle, before the user code.
    PreUser,
    /// Every cycle in simulation, after `PreUser` and before the user code.
    PreUserSim,
    /// Every cycle, after the user code.
    PostUser,
    /// Every cycle in simulation, after `PostUser`.
    PostUserSim,
}

impl Stage {
    /// What the performers of this stage are told about the robot: enabled
    /// in every mode but `Disabled`, and never enabled at `Init`.
    pub open spec fn spec_enabled(self, mode: RobotMode) -> bool {
        self != Stage::Init && mode != RobotMode::Disabled
    }

    /// The flag handed to the performers of this stage while the robot is in
    /// `mode`.
    #[verifier::when_used_as_spec(spec_enabled)]
    pub fn enabled(self, mode: RobotMode) -> (flag: bool)
        ensures
            flag == self.spec_enabled(mode),
    {
        match self {
            Stage::Init => false,
            _ => !mode.is_disabled(),
        }
    }
}

} // verus!
