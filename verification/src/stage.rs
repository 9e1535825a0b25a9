//! The stages of an experiment.

use vstd::prelude::*;

verus! {

/// The phase of an experiment's lifecycle.
#[derive(Clone, Copy, Debug, PartialEq, Eq, Structural)]
pub enum ExperimentStage {
    Uninitialized,
    Configuration,
    Stabilization,
    CarryOut,
    Terminated,
}

impl ExperimentStage {
    /// Position of the stage in the lifecycle order.
    pub open spec fn rank(self) -> nat {
        match self {
            ExperimentStage::Uninitialized => 0,
            ExperimentStage::Configuration => 1,
            ExperimentStage::Stabilization => 2,
            ExperimentStage::CarryOut => 3,
            ExperimentStage::Terminated => 4,
        }
    }
}

} // verus!
