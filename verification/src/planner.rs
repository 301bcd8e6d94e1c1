//! One planning request, and the decisions around its search: refusing a
//! malformed request before any search, and turning what the search
//! returned into a path or an explicit failure.
//!
//! The search itself is not part of this library. A caller brings it as a
//! function from the request to the waypoints it found, if any.

use crate::config::{RobotConf, SpaceConf};
use crate::error::{ConfigError, PlanError};
use crate::future::{PlannerFuture, Progress, Reporter};
use crate::geometry::Point;
use crate::outcome::PlannerResult;
use crate::scalar::Scalar;
use vstd::prelude::*;

verus! {

/// Everything one run needs: where to start and where to arrive, each with
/// its heading, the search budget, the step size, the space and the robot.
#[derive(Clone, Debug)]
pub struct RRTDubinsPlanner {
    pub start: Point,
    pub start_yaw: Scalar,
    pub goal: Point,
    pub goal_yaw: Scalar,
    pub max_iter: usize,
    pub step_size: Scalar,
    pub space: SpaceConf,
    pub robot: RobotConf,
}

/// Whether `result` is what a caller gets when the search returned `found`:
/// the waypoints themselves if there is at least one, and otherwise the
/// error that says no path was found.
pub open spec fn concludes(found: Option<Vec<Point>>, result: Result<Vec<Point>, PlanError>) -> bool {
    match found {
        Some(path) if path@.len() > 0 => result matches Ok(p) && p@ == path@,
        _ => result matches Err(e) && e == PlanError::NoPathFound,
    }
}

/// What a caller gets when the search returned `found`.
pub fn conclude(found: Option<Vec<Point>>) -> (result: Result<Vec<Point>, PlanError>)
    ensures
        concludes(found, result),
{
    PlannerResult::from_search(found).into_path()
}

impl RRTDubinsPlanner {
    /// The robot and the space are valid, the step size is finite and above
    /// zero, and the iteration budget is not zero.
    pub open spec fn valid(self) -> bool {
        &&& self.robot.valid()
        &&& self.space.valid()
        &&& self.step_size.positive()
        &&& self.max_iter > 0
    }

    /// Whether `e` is the error this request is refused with. The robot is
    /// looked at first, then the space, then the step size, then the
    /// iteration budget; the first fault found is the one reported.
    pub open spec fn rejects(self, e: ConfigError) -> bool {
        match e {
            ConfigError::NonPositiveDimension | ConfigError::SteeringOutOfRange => self.robot.rejects(e),
            ConfigError::DegenerateBoundary | ConfigError::DegenerateObstacle { .. } => self.robot.valid()
                && self.space.rejects(e),
            ConfigError::NonPositiveStepSize => self.robot.valid() && self.space.valid()
                && !self.step_size.positive(),
            ConfigError::ZeroIterationBudget => self.robot.valid() && self.space.valid()
                && self.step_size.positive() && self.max_iter == 0,
        }
    }

    /// A request with the given fields, not yet checked.
    pub fn new(
        start: Point,
        start_yaw: Scalar,
        goal: Point,
        goal_yaw: Scalar,
        max_iter: usize,
        step_size: Scalar,
        space: SpaceConf,
        robot: RobotConf,
    ) -> (planner: Self)
        ensures
            planner == (RRTDubinsPlanner {
                start,
                start_yaw,
                goal,
                goal_yaw,
                max_iter,
                step_size,
                space,
                robot,
            }),
    {
        RRTDubinsPlanner { start, start_yaw, goal, goal_yaw, max_iter, step_size, space, robot }
    }

    /// Accepts a valid request and names the error of any other.
    pub fn validate(&self) -> (checked: Result<(), ConfigError>)
        ensures
            checked is Ok <==> self.valid(),
            checked matches Err(e) ==> self.rejects(e),
    {
        match self.robot.validate() {
            Err(e) => {
                return Err(e);
            },
            Ok(()) => {},
        }
        match self.space.validate() {
            Err(e) => {
                return Err(e);
            },
            Ok(()) => {},
        }
        if !self.step_size.is_positive() {
            return Err(ConfigError::NonPositiveStepSize);
        }
        if self.max_iter == 0 {
            return Err(ConfigError::ZeroIterationBudget);
        }
        Ok(())
    }

    /// Plans on the caller's thread. A request that is not valid is refused
    /// with its error and `search` is never called. For a valid request
    /// `search` is called once, on this request, and what it returned is
    /// concluded: its waypoints, or the error that says no path was found.
    pub fn plan<F: FnOnce(&RRTDubinsPlanner) -> Option<Vec<Point>>>(&self, search: F) -> (result: Result<
        Vec<Point>,
        PlanError,
    >)
        requires
            self.valid() ==> call_requires(search, (self,)),
        ensures
            !self.valid() ==> (result matches Err(PlanError::InvalidRequest(e)) && self.rejects(e)),
            self.valid() ==> exists|found: Option<Vec<Point>>|
                call_ensures(search, (self,), found) && concludes(found, result),
    {
        match self.validate() {
            Err(e) => Err(PlanError::InvalidRequest(e)),
            Ok(()) => {
                let found = search(self);
                conclude(found)
            },
        }
    }

    /// Prepares a run on a worker. A request that is not valid is refused
    /// with its error. For a valid one the caller gets both ends of a fresh
    /// channel: the reporter to move into the worker, and the pending handle
    /// to poll.
    pub fn plan_async(&self) -> (started: Result<(Reporter, PlannerFuture), PlanError>)
        ensures
            started is Ok <==> self.valid(),
            started matches Ok(ends) ==> ends.1.progress() == Progress::Pending,
            started matches Err(e) ==> (e matches PlanError::InvalidRequest(c) && self.rejects(c)),
    {
        match self.validate() {
            Err(e) => Err(PlanError::InvalidRequest(e)),
            Ok(()) => Ok(PlannerFuture::open()),
        }
    }
}

/// The least index of a degenerate obstacle at or below `k`.
proof fn lemma_least_degenerate(space: SpaceConf, k: int) -> (i: int)
    requires
        0 <= k < space.obstacles@.len(),
        !space.obstacles@[k].valid(),
    ensures
        space.first_degenerate_obstacle(i),
        i <= k,
    decreases k,
{
    if exists|j: int| 0 <= j < k && !(#[trigger] space.obstacles@[j]).valid() {
        let j = choose|j: int| 0 <= j < k && !(#[trigger] space.obstacles@[j]).valid();
        lemma_least_degenerate(space, j)
    } else {
        k
    }
}

/// A request is refused with at most one error.
pub proof fn lemma_rejection_is_unique(planner: RRTDubinsPlanner, e1: ConfigError, e2: ConfigError)
    requires
        planner.rejects(e1),
        planner.rejects(e2),
    ensures
        e1 == e2,
{
    if let ConfigError::DegenerateObstacle { index: i1 } = e1 {
        if let ConfigError::DegenerateObstacle { index: i2 } = e2 {
            assert(planner.space.first_degenerate_obstacle(i1 as int));
            assert(planner.space.first_degenerate_obstacle(i2 as int));
            assert(i1 == i2) by {
                if i1 < i2 {
                    assert(planner.space.obstacles@[i1 as int].valid());
                } else if i2 < i1 {
                    assert(planner.space.obstacles@[i2 as int].valid());
                }
            }
        }
    }
}

/// A request is refused with some error exactly when it is not valid.
pub proof fn lemma_rejected_iff_invalid(planner: RRTDubinsPlanner)
    ensures
        !planner.valid() <==> exists|e: ConfigError| planner.rejects(e),
{
    if !planner.valid() {
        if !planner.robot.dimensions_valid() {
            assert(planner.rejects(ConfigError::NonPositiveDimension));
        } else if !planner.robot.steering_valid() {
            assert(planner.rejects(ConfigError::SteeringOutOfRange));
        } else if !planner.space.bounds.valid() {
            assert(planner.rejects(ConfigError::DegenerateBoundary));
        } else if !planner.space.valid() {
            let k = choose|k: int|
                0 <= k < planner.space.obstacles@.len() && !(#[trigger] planner.space.obstacles@[k]).valid();
            let i = lemma_least_degenerate(planner.space, k);
            assert(i < planner.space.obstacles.len());
            assert(planner.rejects(ConfigError::DegenerateObstacle { index: i as usize }));
        } else if !planner.step_size.positive() {
            assert(planner.rejects(ConfigError::NonPositiveStepSize));
        } else {
            assert(planner.rejects(ConfigError::ZeroIterationBudget));
        }
    } else {
        assert forall|e: ConfigError| !planner.rejects(e) by {
            if let ConfigError::DegenerateObstacle { index } = e {
                if planner.space.first_degenerate_obstacle(index as int) {
                    assert(planner.space.obstacles@[index as int].valid());
                }
            }
        }
    }
}

} // verus!
