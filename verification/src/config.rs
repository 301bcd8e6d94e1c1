//! The robot and the space it moves in.

use crate::error::ConfigError;
use crate::geometry::Polygon;
use crate::scalar::{lemma_order_of_encodings, lemma_positive_is_above_zero, Scalar, QUARTER_TURN_BITS};
use vstd::prelude::*;

verus! {

/// The robot: a rectangular footprint and the sharpest turn it can steer.
#[derive(Clone, Copy, Debug, PartialEq, Eq, Structural)]
pub struct RobotConf {
    pub width: Scalar,
    pub height: Scalar,
    pub max_steer: Scalar,
}

impl RobotConf {
    /// Width and height are finite and above zero.
    pub open spec fn dimensions_valid(self) -> bool {
        self.width.positive() && self.height.positive()
    }

    /// The maximum steering angle lies strictly between zero and the
    /// binary64 value nearest to a quarter turn: it is positive and its
    /// encoding is below that of the quarter turn.
    /// `lemma_steering_is_below_quarter_turn` ties this to the values.
    pub open spec fn steering_valid(self) -> bool {
        self.max_steer.positive() && self.max_steer.bits < QUARTER_TURN_BITS
    }

    /// The dimensions and the steering angle are both valid.
    pub open spec fn valid(self) -> bool {
        self.dimensions_valid() && self.steering_valid()
    }

    /// Whether `e` is the error this robot is refused with: the dimensions
    /// are looked at before the steering angle.
    pub open spec fn rejects(self, e: ConfigError) -> bool {
        match e {
            ConfigError::NonPositiveDimension => !self.dimensions_valid(),
            ConfigError::SteeringOutOfRange => self.dimensions_valid() && !self.steering_valid(),
            _ => false,
        }
    }

    /// A robot with the given footprint and steering limit, not yet checked.
    pub fn new(width: Scalar, height: Scalar, max_steer: Scalar) -> (robot: Self)
        ensures
            robot.width == width,
            robot.height == height,
            robot.max_steer == max_steer,
    {
        RobotConf { width, height, max_steer }
    }

    /// Accepts a valid robot and names the error of any other.
    pub fn validate(&self) -> (checked: Result<(), ConfigError>)
        ensures
            checked is Ok <==> self.valid(),
            checked matches Err(e) ==> self.rejects(e),
    {
        if !(self.width.is_positive() && self.height.is_positive()) {
            return Err(ConfigError::NonPositiveDimension);
        }
        let limit = Scalar::quarter_turn();
        proof {
            if self.max_steer.positive() {
                lemma_order_of_encodings(self.max_steer, limit);
            }
        }
        if !(self.max_steer.is_positive() && self.max_steer.lt(&limit)) {
            return Err(ConfigError::SteeringOutOfRange);
        }
        Ok(())
    }
}

/// A steering angle is valid exactly when its value is finite, above zero
/// and below that of the quarter turn.
pub proof fn lemma_steering_is_below_quarter_turn(robot: RobotConf)
    ensures
        robot.steering_valid() <==> robot.max_steer.finite() && robot.max_steer.scaled() > 0
            && robot.max_steer.lt_spec(Scalar { bits: QUARTER_TURN_BITS }),
{
    let quarter = Scalar { bits: QUARTER_TURN_BITS };
    lemma_positive_is_above_zero(robot.max_steer);
    if robot.max_steer.positive() {
        lemma_order_of_encodings(robot.max_steer, quarter);
    }
}

/// The space: the boundary the robot must stay within and the obstacles it
/// must stay clear of, all in one coordinate frame.
#[derive(Clone, Debug)]
pub struct SpaceConf {
    pub bounds: Polygon,
    pub obstacles: Vec<Polygon>,
}

impl SpaceConf {
    /// The obstacle at `index` is degenerate and none before it is.
    pub open spec fn first_degenerate_obstacle(self, index: int) -> bool {
        &&& 0 <= index < self.obstacles@.len()
        &&& !self.obstacles@[index].valid()
        &&& forall|j: int| 0 <= j < index ==> (#[trigger] self.obstacles@[j]).valid()
    }

    /// The boundary and every obstacle are valid polygons. There may be no
    /// obstacles at all.
    pub open spec fn valid(self) -> bool {
        &&& self.bounds.valid()
        &&& forall|j: int| 0 <= j < self.obstacles@.len() ==> (#[trigger] self.obstacles@[j]).valid()
    }

    /// Whether `e` is the error this space is refused with: the boundary is
    /// looked at first, then the obstacles in order.
    pub open spec fn rejects(self, e: ConfigError) -> bool {
        match e {
            ConfigError::DegenerateBoundary => !self.bounds.valid(),
            ConfigError::DegenerateObstacle { index } => self.bounds.valid()
                && self.first_degenerate_obstacle(index as int),
            _ => false,
        }
    }

    /// A space with the given boundary and obstacles, not yet checked.
    pub fn new(bounds: Polygon, obstacles: Vec<Polygon>) -> (space: Self)
        ensures
            space.bounds == bounds,
            space.obstacles == obstacles,
    {
        SpaceConf { bounds, obstacles }
    }

    /// Accepts a valid space and names the error of any other.
    pub fn validate(&self) -> (checked: Result<(), ConfigError>)
        ensures
            checked is Ok <==> self.valid(),
            checked matches Err(e) ==> self.rejects(e),
    {
        if !self.bounds.is_valid() {
            return Err(ConfigError::DegenerateBoundary);
        }
        let mut i: usize = 0;
        while i < self.obstacles.len()
            invariant
                i <= self.obstacles.len(),
                self.bounds.valid(),
                forall|j: int| 0 <= j < i ==> (#[trigger] self.obstacles@[j]).valid(),
            decreases self.obstacles.len() - i,
        {
            if !self.obstacles[i].is_valid() {
                return Err(ConfigError::DegenerateObstacle { index: i });
            }
            i += 1;
        }
        Ok(())
    }
}

} // verus!
