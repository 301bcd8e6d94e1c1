//! Points and polygons of the workspace.
//!
//! Whether a ring of vertices touches or crosses itself, and how much area
//! it encloses, are questions of distances and angles; they are answered
//! outside this library, and a `Polygon` carries the answers beside its
//! vertices. What can be decided on the vertices themselves is decided here.

use crate::scalar::Scalar;
use vstd::prelude::*;

verus! {

/// A position in the plane.
#[derive(Clone, Copy, Debug, PartialEq, Eq, Structural)]
pub struct Point {
    pub x: Scalar,
    pub y: Scalar,
}

impl Point {
    /// Both coordinates are finite.
    pub open spec fn finite(self) -> bool {
        self.x.finite() && self.y.finite()
    }

    /// The two points are one place: their coordinates stand for the same
    /// values.
    pub open spec fn same_place(self, other: Point) -> bool {
        self.x.same_value(other.x) && self.y.same_value(other.y)
    }

    pub fn new(x: Scalar, y: Scalar) -> (p: Point)
        ensures
            p.x == x,
            p.y == y,
    {
        Point { x, y }
    }

    pub fn is_finite(&self) -> (r: bool)
        ensures
            r == self.finite(),
    {
        self.x.is_finite() && self.y.is_finite()
    }

    /// Whether the two points are one place.
    pub fn is_same_place(&self, other: &Point) -> (r: bool)
        ensures
            r == self.same_place(*other),
    {
        self.x.eq_value(&other.x) && self.y.eq_value(&other.y)
    }
}

/// The vertices at `i`, `j` and `k` are three different places.
pub open spec fn three_places(vertices: Seq<Point>, i: int, j: int, k: int) -> bool {
    &&& 0 <= i < vertices.len()
    &&& 0 <= j < vertices.len()
    &&& 0 <= k < vertices.len()
    &&& !vertices[i].same_place(vertices[j])
    &&& !vertices[j].same_place(vertices[k])
    &&& !vertices[i].same_place(vertices[k])
}

/// What the vertices of a polygon must meet by themselves: there are at
/// least three, every one is finite, and three of them are different places.
pub open spec fn polygon_valid(vertices: Seq<Point>) -> bool {
    &&& vertices.len() >= 3
    &&& forall|i: int| 0 <= i < vertices.len() ==> (#[trigger] vertices[i]).finite()
    &&& exists|i: int, j: int, k: int| #[trigger] three_places(vertices, i, j, k)
}

/// Whether the vertices meet `polygon_valid`.
pub fn is_polygon_valid(vertices: &Vec<Point>) -> (r: bool)
    ensures
        r == polygon_valid(vertices@),
{
    let n = vertices.len();
    if n < 3 {
        return false;
    }
    let mut i: usize = 0;
    while i < n
        invariant
            n == vertices.len(),
            i <= n,
            forall|t: int| 0 <= t < i ==> (#[trigger] vertices@[t]).finite(),
        decreases n - i,
    {
        if !vertices[i].is_finite() {
            return false;
        }
        i += 1;
    }
    // The first vertex that is another place than vertex 0.
    let mut j: usize = 1;
    while j < n && vertices[j].is_same_place(&vertices[0])
        invariant
            n == vertices.len(),
            1 <= j <= n,
            forall|t: int| 0 <= t < n ==> (#[trigger] vertices@[t]).finite(),
            forall|t: int| 0 <= t < j ==> (#[trigger] vertices@[t]).same_place(vertices@[0]),
        decreases n - j,
    {
        j += 1;
    }
    if j == n {
        assert forall|a: int, b: int, c: int| !#[trigger] three_places(vertices@, a, b, c) by {
            if 0 <= a < n && 0 <= b < n {
                assert(vertices@[a].same_place(vertices@[0]));
                assert(vertices@[b].same_place(vertices@[0]));
                assert(vertices@[a].same_place(vertices@[b]));
            }
        }
        return false;
    }
    // The first vertex after it that is a third place.
    let mut k: usize = j + 1;
    while k < n && (vertices[k].is_same_place(&vertices[0]) || vertices[k].is_same_place(
        &vertices[j],
    ))
        invariant
            n == vertices.len(),
            1 <= j < k <= n,
            forall|t: int| 0 <= t < n ==> (#[trigger] vertices@[t]).finite(),
            !vertices@[j as int].same_place(vertices@[0]),
            forall|t: int|
                0 <= t < k ==> (#[trigger] vertices@[t]).same_place(vertices@[0])
                    || vertices@[t].same_place(vertices@[j as int]),
        decreases n - k,
    {
        k += 1;
    }
    if k == n {
        assert forall|a: int, b: int, c: int| !#[trigger] three_places(vertices@, a, b, c) by {
            if 0 <= a < n && 0 <= b < n && 0 <= c < n {
                lemma_two_places_at_most(vertices@[0], vertices@[j as int], vertices@[a], vertices@[b], vertices@[c]);
            }
        }
        return false;
    }
    assert(three_places(vertices@, 0, j as int, k as int));
    true
}

/// Three points that each lie at one of two places do not lie at three
/// different places.
proof fn lemma_two_places_at_most(p: Point, q: Point, a: Point, b: Point, c: Point)
    requires
        p.finite() && q.finite() && a.finite() && b.finite() && c.finite(),
        a.same_place(p) || a.same_place(q),
        b.same_place(p) || b.same_place(q),
        c.same_place(p) || c.same_place(q),
    ensures
        a.same_place(b) || b.same_place(c) || a.same_place(c),
{
}

/// A polygon: the vertices of its boundary ring in order, with what the
/// geometry provider found of that ring.
#[derive(Clone, Debug)]
pub struct Polygon {
    pub vertices: Vec<Point>,
    /// The provider's finding that the closed ring through the vertices
    /// neither touches nor crosses itself.
    pub simple: bool,
    /// The provider's measure of the area that the ring encloses.
    pub area: Scalar,
}

impl Polygon {
    /// The polygon is a simple polygon that bounds a region: its vertices
    /// meet `polygon_valid`, its ring was found simple, and the area found
    /// within it is finite and above zero. A polygon that fails this is
    /// called degenerate.
    pub open spec fn valid(self) -> bool {
        polygon_valid(self.vertices@) && self.simple && self.area.positive()
    }

    /// A polygon with the given vertices and findings, not yet checked.
    pub fn new(vertices: Vec<Point>, simple: bool, area: Scalar) -> (polygon: Self)
        ensures
            polygon.vertices == vertices,
            polygon.simple == simple,
            polygon.area == area,
    {
        Polygon { vertices, simple, area }
    }

    /// Whether the polygon is valid.
    pub fn is_valid(&self) -> (r: bool)
        ensures
            r == self.valid(),
    {
        self.simple && self.area.is_positive() && is_polygon_valid(&self.vertices)
    }
}

} // verus!
