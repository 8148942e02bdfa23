use vstd::prelude::*;

verus! {

/// The run mode the e-kit is in: what the user asked for, or what protection forced.
#[derive(Clone, Copy, PartialEq, Eq, Structural, Debug)]
pub enum EKitSystemRunMode {
    Off,
    Cooldown,
    Cool,
    Half,
    Full,
}

/// The run modes a user may ask for.
#[derive(Clone, Copy, PartialEq, Eq, Structural, Debug)]
pub enum EKitUserRunMode {
    Off,
    Cool,
    Half,
    Full,
}

/// The body of a run-mode request as it travels over the network.
#[derive(Clone, Copy, PartialEq, Eq, Structural, Debug)]
pub struct PostEKitRunMode {
    pub run_mode: EKitUserRunMode,
}

/// The system run mode that a user run mode stands for.
pub open spec fn system_mode_of(mode: EKitUserRunMode) -> EKitSystemRunMode {
    match mode {
        EKitUserRunMode::Off => EKitSystemRunMode::Off,
        EKitUserRunMode::Cool => EKitSystemRunMode::Cool,
        EKitUserRunMode::Half => EKitSystemRunMode::Half,
        EKitUserRunMode::Full => EKitSystemRunMode::Full,
    }
}

impl EKitUserRunMode {
    /// Returns the system run mode this user run mode stands for.
    pub fn to_system_run_mode(self) -> (r: EKitSystemRunMode)
        ensures
            r == system_mode_of(self),
    {
        match self {
            EKitUserRunMode::Off => EKitSystemRunMode::Off,
            EKitUserRunMode::Cool => EKitSystemRunMode::Cool,
            EKitUserRunMode::Half => EKitSystemRunMode::Half,
            EKitUserRunMode::Full => EKitSystemRunMode::Full,
        }
    }
}

} // verus!
