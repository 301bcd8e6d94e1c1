//! Simplifying a path: dropping waypoints while keeping the rest in order.
//!
//! Which waypoints can go without the path straying from its course by more
//! than a tolerance is a question of distances, and is answered outside this
//! library, as the list of the indices to keep. Here that list is checked
//! and applied, so that whatever the answer was, a simplified path is made
//! of waypoints of the full path, in their order, from the same first to the
//! same last.

use crate::geometry::Point;
use vstd::prelude::*;

verus! {

/// The indices grow from each entry to the next.
pub open spec fn increasing(kept: Seq<usize>) -> bool {
    forall|i: int, j: int| 0 <= i < j < kept.len() ==> kept[i] < kept[j]
}

/// `kept` selects from a path of `n` waypoints: its indices grow, and unless
/// the path is empty they start at its first waypoint and end at its last.
pub open spec fn selects(kept: Seq<usize>, n: nat) -> bool {
    &&& increasing(kept)
    &&& n == 0 ==> kept.len() == 0
    &&& n > 0 ==> kept.len() > 0 && kept.first() == 0 && kept.last() == n - 1
}

/// The waypoints at the kept indices, in the order of the indices.
pub open spec fn selected(points: Seq<Point>, kept: Seq<usize>) -> Seq<Point> {
    Seq::new(kept.len(), |i: int| points[kept[i] as int])
}

/// The path that `simplify` returns: the selected waypoints where `kept`
/// selects from the path, and the whole path where it does not.
pub open spec fn simplification(points: Seq<Point>, kept: Seq<usize>) -> Seq<Point> {
    if selects(kept, points.len()) {
        selected(points, kept)
    } else {
        points
    }
}

/// Whether `kept` selects from a path of `n` waypoints.
pub fn is_selection(kept: &Vec<usize>, n: usize) -> (r: bool)
    ensures
        r == selects(kept@, n as nat),
{
    if n == 0 {
        return kept.len() == 0;
    }
    if kept.len() == 0 || kept[0] != 0 {
        return false;
    }
    let mut i: usize = 1;
    while i < kept.len()
        invariant
            1 <= i <= kept.len(),
            forall|a: int, b: int| 0 <= a < b < i ==> kept@[a] < kept@[b],
        decreases kept.len() - i,
    {
        if kept[i - 1] >= kept[i] {
            return false;
        }
        i += 1;
    }
    kept[kept.len() - 1] == n - 1
}

/// The path reduced to the waypoints at the indices in `kept`. A list that
/// does not select from the path is not applied: the path comes back whole.
pub fn simplify(points: Vec<Point>, kept: &Vec<usize>) -> (simplified: Vec<Point>)
    ensures
        simplified@ == simplification(points@, kept@),
{
    if !is_selection(kept, points.len()) {
        return points;
    }
    let mut simplified: Vec<Point> = Vec::new();
    let mut i: usize = 0;
    while i < kept.len()
        invariant
            i <= kept.len(),
            selects(kept@, points@.len()),
            simplified@ == selected(points@, kept@.take(i as int)),
        decreases kept.len() - i,
    {
        proof {
            lemma_selection_in_range(kept@, points@.len(), i as int);
        }
        simplified.push(points[kept[i]]);
        i += 1;
        assert(simplified@ == selected(points@, kept@.take(i as int)));
    }
    assert(kept@.take(i as int) == kept@);
    simplified
}

/// Every index of a selection lies within the path.
pub proof fn lemma_selection_in_range(kept: Seq<usize>, n: nat, i: int)
    requires
        selects(kept, n),
        0 <= i < kept.len(),
    ensures
        kept[i] < n,
{
}

/// A simplified path is empty only if the full path is, and otherwise runs
/// from the full path's first waypoint to its last.
pub proof fn lemma_simplification_keeps_ends(points: Seq<Point>, kept: Seq<usize>)
    ensures
        points.len() == 0 ==> simplification(points, kept).len() == 0,
        points.len() > 0 ==> simplification(points, kept).len() > 0 && simplification(
            points,
            kept,
        ).first() == points.first() && simplification(points, kept).last() == points.last(),
{
}

/// A simplified path never has more waypoints than the full path, and each
/// of its waypoints is one of the full path's, found there in the same order.
pub proof fn lemma_simplification_is_in_order(points: Seq<Point>, kept: Seq<usize>)
    requires
        points.len() <= usize::MAX,
    ensures
        simplification(points, kept).len() <= points.len(),
        exists|places: Seq<usize>|
            selects(places, points.len()) && simplification(points, kept) == #[trigger] selected(
                points,
                places,
            ),
{
    let n = points.len();
    if selects(kept, n) {
        lemma_selection_is_short(kept, n, kept.len() as int);
        assert(simplification(points, kept) == selected(points, kept));
    } else {
        let all = Seq::new(n, |i: int| i as usize);
        assert(selects(all, n));
        assert(simplification(points, kept) == selected(points, all));
    }
}

/// The first `m` indices of a selection are at least 0, 1, 2 and so on, so a
/// selection has no more entries than the path has waypoints.
proof fn lemma_selection_is_short(kept: Seq<usize>, n: nat, m: int)
    requires
        selects(kept, n),
        0 <= m <= kept.len(),
    ensures
        m > 0 ==> kept[m - 1] >= m - 1,
        m <= n,
    decreases m,
{
    if m > 0 {
        lemma_selection_is_short(kept, n, m - 1);
        if m > 1 {
            assert(kept[m - 2] < kept[m - 1]);
        }
    }
}

/// Keeping every index changes nothing.
pub proof fn lemma_keeping_all_is_identity(points: Seq<Point>)
    ensures
        simplification(points, Seq::new(points.len(), |i: int| i as usize)) == points,
{
    let all = Seq::new(points.len(), |i: int| i as usize);
    if selects(all, points.len()) {
        assert(selected(points, all) == points);
    }
}

/// Simplifying a simplified path gives a simplification of the full path:
/// the waypoints that remain are those at the first list's entries that the
/// second list names.
pub proof fn lemma_simplifications_compose(points: Seq<Point>, first: Seq<usize>, second: Seq<usize>)
    requires
        selects(first, points.len()),
        selects(second, first.len()),
    ensures
        selects(Seq::new(second.len(), |i: int| first[second[i] as int]), points.len()),
        selected(selected(points, first), second) == selected(
            points,
            Seq::new(second.len(), |i: int| first[second[i] as int]),
        ),
{
    let both = Seq::new(second.len(), |i: int| first[second[i] as int]);
    assert forall|i: int| 0 <= i < second.len() implies second[i] < first.len() by {
        lemma_selection_in_range(second, first.len(), i);
    }
    assert(increasing(both));
    assert(selected(selected(points, first), second) == selected(points, both));
}

} // verus!
