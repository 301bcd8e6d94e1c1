//! The errors a caller can meet: a request that is refused before any
//! search, a search that finds nothing, and a worker that is lost.

use vstd::prelude::*;

verus! {

/// Why a request is refused before the search starts.
#[derive(Clone, Copy, Debug, PartialEq, Eq, Structural)]
pub enum ConfigError {
    /// The robot's width or height is not a finite value above zero.
    NonPositiveDimension,
    /// The maximum steering angle is not strictly between zero and a
    /// quarter turn.
    SteeringOutOfRange,
    /// The workspace boundary is degenerate.
    DegenerateBoundary,
    /// The obstacle at `index` is degenerate, and none before it is.
    DegenerateObstacle { index: usize },
    /// The step size is not a finite value above zero.
    NonPositiveStepSize,
    /// The iteration budget is zero.
    ZeroIterationBudget,
}

/// Why a caller did not get a path.
#[derive(Clone, Copy, Debug, PartialEq, Eq, Structural)]
pub enum PlanError {
    /// The request was refused; no search took place.
    InvalidRequest(ConfigError),
    /// The search used up its iteration budget without reaching the goal.
    NoPathFound,
    /// The worker ended without reporting, so no result will ever arrive.
    WorkerLost,
}

impl ConfigError {
    /// The text that `message` gives for each error.
    pub open spec fn text(self) -> Seq<char> {
        match self {
            ConfigError::NonPositiveDimension => "Robot width and height must be positive"@,
            ConfigError::SteeringOutOfRange => "Maximum steering angle must lie between 0 and pi/2"@,
            ConfigError::DegenerateBoundary => "Workspace boundary is degenerate"@,
            ConfigError::DegenerateObstacle { .. } => "Obstacle polygon is degenerate"@,
            ConfigError::NonPositiveStepSize => "Step size must be positive"@,
            ConfigError::ZeroIterationBudget => "Iteration budget must be positive"@,
        }
    }

    /// The text shown to a caller for this error.
    pub fn message(&self) -> (text: String)
        ensures
            text@ == self.text(),
    {
        match self {
            ConfigError::NonPositiveDimension => "Robot width and height must be positive".to_string(),
            ConfigError::SteeringOutOfRange => "Maximum steering angle must lie between 0 and pi/2".to_string(),
            ConfigError::DegenerateBoundary => "Workspace boundary is degenerate".to_string(),
            ConfigError::DegenerateObstacle { .. } => "Obstacle polygon is degenerate".to_string(),
            ConfigError::NonPositiveStepSize => "Step size must be positive".to_string(),
            ConfigError::ZeroIterationBudget => "Iteration budget must be positive".to_string(),
        }
    }
}

impl PlanError {
    /// The text that `message` gives for each error.
    pub open spec fn text(self) -> Seq<char> {
        match self {
            PlanError::InvalidRequest(e) => e.text(),
            PlanError::NoPathFound => "Planner failed to find path"@,
            PlanError::WorkerLost => "Channel to worker thread disconnected"@,
        }
    }

    /// The text shown to a caller for this error.
    pub fn message(&self) -> (text: String)
        ensures
            text@ == self.text(),
    {
        match self {
            PlanError::InvalidRequest(e) => e.message(),
            PlanError::NoPathFound => "Planner failed to find path".to_string(),
            PlanError::WorkerLost => "Channel to worker thread disconnected".to_string(),
        }
    }
}

} // verus!
