//! What a planning run hands back: a path of waypoints, or the explicit
//! statement that none was found.

use crate::error::PlanError;
use crate::geometry::Point;
use vstd::prelude::*;

verus! {

/// The outcome of one finished planning run: the waypoints from start to
/// goal, or the statement that none were found. A found path is never empty.
#[derive(Debug)]
pub struct PlannerResult {
    path: Option<Vec<Point>>,
}

impl View for PlannerResult {
    type V = Option<Seq<Point>>;

    /// `Some` with the waypoints in order, or `None` for an exhausted search.
    closed spec fn view(&self) -> Option<Seq<Point>> {
        match self.path {
            Some(p) => Some(p@),
            None => None,
        }
    }
}

/// A copy of the waypoints, in order.
pub fn copy_points(points: &Vec<Point>) -> (copy: Vec<Point>)
    ensures
        copy@ == points@,
{
    let mut copy: Vec<Point> = Vec::new();
    let mut i: usize = 0;
    while i < points.len()
        invariant
            i <= points.len(),
            copy@ == points@.take(i as int),
        decreases points.len() - i,
    {
        copy.push(points[i]);
        i += 1;
        assert(points@.take(i as int) == points@.take(i - 1).push(points@[i - 1]));
    }
    assert(points@.take(i as int) == points@);
    copy
}

impl Clone for PlannerResult {
    fn clone(&self) -> (copy: Self)
        ensures
            copy@ == self@,
    {
        proof {
            use_type_invariant(self);
        }
        match &self.path {
            Some(p) => PlannerResult { path: Some(copy_points(p)) },
            None => PlannerResult { path: None },
        }
    }
}

impl PlannerResult {
    #[verifier::type_invariant]
    spec fn found_path_is_not_empty(self) -> bool {
        self.path matches Some(p) ==> p@.len() > 0
    }

    /// What a search that returned `path` amounts to: a path with at least
    /// one waypoint is a find; no path, or an empty one, is an exhausted
    /// search.
    pub open spec fn of_search(path: Option<Seq<Point>>) -> Option<Seq<Point>> {
        match path {
            Some(p) if p.len() > 0 => Some(p),
            _ => None,
        }
    }

    /// The result of a search that returned `path`.
    pub fn from_search(path: Option<Vec<Point>>) -> (result: Self)
        ensures
            result@ == Self::of_search(
                match path {
                    Some(p) => Some(p@),
                    None => None,
                },
            ),
    {
        match path {
            Some(p) => {
                if p.len() > 0 {
                    PlannerResult { path: Some(p) }
                } else {
                    PlannerResult { path: None }
                }
            },
            None => PlannerResult { path: None },
        }
    }

    /// The result of a search that found nothing within its budget.
    pub fn exhausted() -> (result: Self)
        ensures
            result@ is None,
    {
        PlannerResult { path: None }
    }

    /// Whether the search reached the goal.
    pub fn is_found(&self) -> (found: bool)
        ensures
            found == (self@ is Some),
    {
        self.path.is_some()
    }

    /// The path, or the error that says the search found none.
    pub fn into_path(self) -> (path: Result<Vec<Point>, PlanError>)
        ensures
            match self@ {
                Some(p) => path matches Ok(v) && v@ == p && p.len() > 0,
                None => path == Err::<Vec<Point>, PlanError>(PlanError::NoPathFound),
            },
    {
        proof {
            use_type_invariant(&self);
        }
        match self.path {
            Some(p) => Ok(p),
            None => Err(PlanError::NoPathFound),
        }
    }
}

} // verus!
