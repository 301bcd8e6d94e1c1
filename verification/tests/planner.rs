use geo::{Area, LineString, Validation};
use path_planning::config::{RobotConf, SpaceConf};
use path_planning::error::{ConfigError, PlanError};
use path_planning::geometry::{Point, Polygon};
use path_planning::outcome::PlannerResult;
use path_planning::planner::{conclude, RRTDubinsPlanner};
use path_planning::scalar::Scalar;

fn scalar(value: f64) -> Scalar {
    Scalar::from_bits(value.to_bits())
}

fn point(x: f64, y: f64) -> Point {
    Point::new(scalar(x), scalar(y))
}

fn points(vertices: &[(f64, f64)]) -> Vec<Point> {
    vertices.iter().map(|v| point(v.0, v.1)).collect()
}

/// The polygon with what the geometry provider finds of its ring.
fn polygon(vertices: &[(f64, f64)]) -> Polygon {
    let ring = geo::Polygon::new(LineString::from(vertices.to_vec()), vec![]);
    Polygon::new(points(vertices), ring.is_valid(), scalar(ring.unsigned_area()))
}

fn coordinates(path: &[Point]) -> Vec<(f64, f64)> {
    path.iter().map(|p| (f64::from_bits(p.x.to_bits()), f64::from_bits(p.y.to_bits()))).collect()
}

fn open_square(max_iter: usize, step_size: f64, obstacles: Vec<Polygon>) -> RRTDubinsPlanner {
    RRTDubinsPlanner::new(
        point(1.0, 1.0),
        scalar(0.0),
        point(9.0, 9.0),
        scalar(0.0),
        max_iter,
        scalar(step_size),
        SpaceConf::new(polygon(&[(0.0, 0.0), (10.0, 0.0), (10.0, 10.0), (0.0, 10.0)]), obstacles),
        RobotConf::new(scalar(0.5), scalar(1.0), scalar(0.5)),
    )
}

/// Stands in for the search: walks the diagonal from start to goal.
fn straight_line(request: &RRTDubinsPlanner) -> Option<Vec<Point>> {
    let (sx, sy) = (f64::from_bits(request.start.x.to_bits()), f64::from_bits(request.start.y.to_bits()));
    let (gx, gy) = (f64::from_bits(request.goal.x.to_bits()), f64::from_bits(request.goal.y.to_bits()));
    let mut path = Vec::new();
    for i in 0..=8 {
        let t = i as f64 / 8.0;
        path.push(point(sx + t * (gx - sx), sy + t * (gy - sy)));
    }
    Some(path)
}

#[test]
fn conclude_keeps_a_found_path() {
    let path = points(&[(1.0, 1.0), (9.0, 9.0)]);
    assert_eq!(conclude(Some(path.clone())), Ok(path));
}

#[test]
fn conclude_turns_no_path_into_an_error() {
    assert_eq!(conclude(None), Err(PlanError::NoPathFound));
    assert_eq!(conclude(Some(vec![])), Err(PlanError::NoPathFound));
}

#[test]
fn plan_in_the_open_square_reaches_the_goal() {
    let request = open_square(5000, 1.0, vec![]);
    let path = request.plan(straight_line).unwrap();
    let xy = coordinates(&path);
    assert_eq!(xy.first(), Some(&(1.0, 1.0)));
    assert_eq!(xy.last(), Some(&(9.0, 9.0)));
    for pair in xy.windows(2) {
        let before = (9.0 - pair[0].0).hypot(9.0 - pair[0].1);
        let after = (9.0 - pair[1].0).hypot(9.0 - pair[1].1);
        assert!(after < before);
    }
}

#[test]
fn plan_behind_a_wall_finds_no_path() {
    let wall = polygon(&[(0.0, 4.0), (10.0, 4.0), (10.0, 6.0), (0.0, 6.0)]);
    let request = open_square(5000, 1.0, vec![wall]);
    assert_eq!(request.validate(), Ok(()));
    assert_eq!(request.plan(|_| None), Err(PlanError::NoPathFound));
}

#[test]
fn plan_with_start_at_goal_returns_the_single_point() {
    let mut request = open_square(5000, 1.0, vec![]);
    request.goal = request.start;
    let path = request.plan(|r| Some(vec![r.start])).unwrap();
    assert_eq!(coordinates(&path), vec![(1.0, 1.0)]);
}

#[test]
fn plan_hands_the_request_to_the_search() {
    let request = open_square(123, 0.25, vec![]);
    let result = request.plan(|r| {
        assert_eq!(r.max_iter, 123);
        assert_eq!(r.step_size, scalar(0.25));
        assert_eq!(r.goal, point(9.0, 9.0));
        Some(vec![r.start, r.goal])
    });
    assert_eq!(result, Ok(vec![point(1.0, 1.0), point(9.0, 9.0)]));
}

#[test]
fn plan_refuses_a_malformed_request_without_searching() {
    let mut searched = false;
    let request = open_square(5000, 0.0, vec![]);
    let result = request.plan(|r| {
        searched = true;
        Some(vec![r.start])
    });
    assert_eq!(result, Err(PlanError::InvalidRequest(ConfigError::NonPositiveStepSize)));
    assert!(!searched);
}

#[test]
fn plan_refuses_a_boundary_of_equal_points_without_searching() {
    let mut searched = false;
    let mut request = open_square(5000, 1.0, vec![]);
    request.space.bounds = polygon(&[(0.0, 0.0), (0.0, 0.0), (0.0, 0.0)]);
    let result = request.plan(|r| {
        searched = true;
        Some(vec![r.start])
    });
    assert_eq!(result, Err(PlanError::InvalidRequest(ConfigError::DegenerateBoundary)));
    assert!(!searched);
}

#[test]
fn plan_refuses_a_boundary_that_crosses_itself() {
    let mut request = open_square(5000, 1.0, vec![]);
    request.space.bounds = polygon(&[(0.0, 0.0), (10.0, 10.0), (10.0, 0.0), (0.0, 10.0)]);
    assert_eq!(
        request.plan(|r| Some(vec![r.start])),
        Err(PlanError::InvalidRequest(ConfigError::DegenerateBoundary))
    );
}

#[test]
fn plan_async_refuses_a_degenerate_boundary() {
    let mut request = open_square(5000, 1.0, vec![]);
    request.space.bounds = polygon(&[(0.0, 0.0), (-0.0, 0.0), (0.0, -0.0)]);
    match request.plan_async() {
        Err(e) => assert_eq!(e, PlanError::InvalidRequest(ConfigError::DegenerateBoundary)),
        Ok(_) => panic!("a request without a region to plan in was started"),
    }
}

#[test]
fn plan_async_refuses_a_degenerate_obstacle() {
    let flat = polygon(&[(2.0, 2.0), (3.0, 3.0), (4.0, 4.0)]);
    let wall = polygon(&[(0.0, 4.0), (10.0, 4.0), (10.0, 6.0), (0.0, 6.0)]);
    let request = open_square(5000, 1.0, vec![wall, flat]);
    match request.plan_async() {
        Err(e) => assert_eq!(e, PlanError::InvalidRequest(ConfigError::DegenerateObstacle { index: 1 })),
        Ok(_) => panic!("a request with a flat obstacle was started"),
    }
}

#[test]
fn plan_never_returns_an_empty_path() {
    let request = open_square(5000, 1.0, vec![]);
    assert_eq!(request.plan(|_| Some(vec![])), Err(PlanError::NoPathFound));
}

#[test]
fn plan_async_refuses_a_malformed_request() {
    let request = open_square(0, 1.0, vec![]);
    match request.plan_async() {
        Err(e) => assert_eq!(e, PlanError::InvalidRequest(ConfigError::ZeroIterationBudget)),
        Ok(_) => panic!("a request without budget was started"),
    }
}

#[test]
fn plan_async_hands_out_a_pending_handle() {
    let request = open_square(5000, 1.0, vec![]);
    let (reporter, mut handle) = request.plan_async().unwrap();
    assert!(matches!(handle.check(), Ok(None)));
    assert!(reporter.report(PlannerResult::from_search(straight_line(&request))));
    let polled = handle.check().unwrap();
    assert!(handle.is_done(&polled));
    let path = handle.finalize(polled).unwrap();
    assert_eq!(coordinates(&path).first(), Some(&(1.0, 1.0)));
    assert_eq!(coordinates(&path).last(), Some(&(9.0, 9.0)));
    assert_eq!(path.len(), 9);
}

#[test]
fn plan_async_with_a_failed_search() {
    let request = open_square(5000, 1.0, vec![]);
    let (reporter, mut handle) = request.plan_async().unwrap();
    assert!(reporter.report(PlannerResult::from_search(None)));
    let polled = handle.check().unwrap();
    assert!(handle.is_done(&polled));
    assert_eq!(handle.finalize(polled), Err(PlanError::NoPathFound));
}
