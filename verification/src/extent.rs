//! The extent of data along an axis: its smallest and its largest
//! coordinate.

use crate::axis::{along, coordinate, Axis, Interval};
use crate::element::ElementModel;
use vstd::prelude::*;

verus! {

/// A pair of coordinates, the smaller first, as an interval.
pub open spec fn as_interval(pair: Option<(i64, i64)>) -> Option<Interval> {
    match pair {
        Some((lo, hi)) => Some(Interval { lo: lo as int, hi: hi as int }),
        None => None,
    }
}

/// The extent that holds `value` besides what `extent` holds.
pub open spec fn widen(extent: Option<Interval>, value: int) -> Option<Interval> {
    match extent {
        Some(e) => Some(
            Interval {
                lo: if value < e.lo { value } else { e.lo },
                hi: if value > e.hi { value } else { e.hi },
            },
        ),
        None => Some(Interval { lo: value, hi: value }),
    }
}

/// The extent, along `axis`, of `points` together with what `start` holds.
pub open spec fn points_extent(start: Option<Interval>, points: Seq<(i64, i64)>, axis: Axis)
    -> Option<Interval>
    decreases points.len(),
{
    if points.len() == 0 {
        start
    } else {
        widen(points_extent(start, points.drop_last(), axis), along(points.last(), axis))
    }
}

/// The extent, along `axis`, of all points of all `elements`: nothing where
/// there is no point at all.
pub open spec fn elements_extent(elements: Seq<ElementModel>, axis: Axis) -> Option<Interval>
    decreases elements.len(),
{
    if elements.len() == 0 {
        None
    } else {
        points_extent(
            elements_extent(elements.drop_last(), axis),
            elements.last().points(),
            axis,
        )
    }
}

/// Whether some point of `points` has the coordinate `value` along `axis`.
pub open spec fn reached(points: Seq<(i64, i64)>, axis: Axis, value: int) -> bool {
    exists|j: int| 0 <= j < points.len() && along(#[trigger] points[j], axis) == value
}

/// Whether some point of some element has the coordinate `value` along
/// `axis`.
pub open spec fn reached_by_any(elements: Seq<ElementModel>, axis: Axis, value: int) -> bool {
    exists|i: int| 0 <= i < elements.len() && reached((#[trigger] elements[i]).points(), axis, value)
}

/// Widens `start` by the coordinates of `points` along `axis`.
pub fn extend_over(start: Option<(i64, i64)>, points: &Vec<(i64, i64)>, axis: Axis) -> (extent:
    Option<(i64, i64)>)
    ensures
        as_interval(extent) == points_extent(as_interval(start), points@, axis),
{
    let mut extent = start;
    let mut j: usize = 0;
    while j < points.len()
        invariant
            j <= points.len(),
            as_interval(extent) == points_extent(as_interval(start), points@.take(j as int), axis),
        decreases points.len() - j,
    {
        let value = coordinate(points[j], axis);
        proof {
            assert(points@.take(j + 1).drop_last() == points@.take(j as int));
        }
        extent =
        match extent {
            Some((lo, hi)) => Some(
                (if value < lo { value } else { lo }, if value > hi { value } else { hi }),
            ),
            None => Some((value, value)),
        };
        j += 1;
    }
    proof {
        assert(points@.take(points.len() as int) == points@);
    }
    extent
}

/// The extent of points is nothing only where there was nothing to begin
/// with and there is no point. Otherwise it holds what it began with and
/// every point, and each of its bounds is a bound it began with or the
/// coordinate of a point.
pub proof fn lemma_points_extent(start: Option<Interval>, points: Seq<(i64, i64)>, axis: Axis)
    requires
        start matches Some(s) ==> s.lo <= s.hi,
    ensures
        points_extent(start, points, axis) is None <==> start is None && points.len() == 0,
        points_extent(start, points, axis) matches Some(e) ==> ({
            &&& e.lo <= e.hi
            &&& forall|j: int| 0 <= j < points.len() ==> e.contains(along(#[trigger] points[j], axis))
            &&& start matches Some(s) ==> e.lo <= s.lo && s.hi <= e.hi
            &&& (start matches Some(s) && s.lo == e.lo) || reached(points, axis, e.lo)
            &&& (start matches Some(s) && s.hi == e.hi) || reached(points, axis, e.hi)
        }),
    decreases points.len(),
{
    if points.len() > 0 {
        let before = points.drop_last();
        lemma_points_extent(start, before, axis);
        let e = points_extent(start, points, axis)->0;
        let last = points.len() - 1;
        assert forall|j: int| 0 <= j < points.len() implies e.contains(
            along(#[trigger] points[j], axis),
        ) by {
            if j < last {
                assert(points[j] == before[j]);
            }
        }
        if reached(before, axis, e.lo) {
            let j = choose|j: int| 0 <= j < before.len() && along(#[trigger] before[j], axis) == e.lo;
            assert(points[j] == before[j]);
        }
        if reached(before, axis, e.hi) {
            let j = choose|j: int| 0 <= j < before.len() && along(#[trigger] before[j], axis) == e.hi;
            assert(points[j] == before[j]);
        }
        assert(along(points[last], axis) == along(points.last(), axis));
    }
}

/// The extent of elements is nothing only where no element has a point.
/// Otherwise it holds every point of every element, and each of its bounds
/// is the coordinate of one of them: it is the smallest interval that holds
/// them all.
pub proof fn lemma_elements_extent(elements: Seq<ElementModel>, axis: Axis)
    ensures
        elements_extent(elements, axis) is None <==> forall|i: int|
            0 <= i < elements.len() ==> (#[trigger] elements[i]).points().len() == 0,
        elements_extent(elements, axis) matches Some(e) ==> ({
            &&& e.lo <= e.hi
            &&& forall|i: int, j: int|
                0 <= i < elements.len() && 0 <= j < elements[i].points().len() ==> e.contains(
                    along(#[trigger] elements[i].points()[j], axis),
                )
            &&& reached_by_any(elements, axis, e.lo)
            &&& reached_by_any(elements, axis, e.hi)
        }),
    decreases elements.len(),
{
    if elements.len() > 0 {
        let before = elements.drop_last();
        let last = elements.len() - 1;
        let start = elements_extent(before, axis);
        lemma_elements_extent(before, axis);
        lemma_points_extent(start, elements.last().points(), axis);
        assert forall|i: int| 0 <= i < before.len() implies before[i] == elements[i] by {}
        let after = elements_extent(elements, axis);
        if after is None {
            assert forall|i: int| 0 <= i < elements.len() implies (#[trigger] elements[i]).points().len()
                == 0 by {
                if i < last {
                    assert(before[i] == elements[i]);
                }
            }
        } else {
            let e = after->0;
            if elements[last].points().len() == 0 {
                assert(exists|i: int|
                    0 <= i < before.len() && (#[trigger] before[i]).points().len() != 0);
                let i = choose|i: int|
                    0 <= i < before.len() && (#[trigger] before[i]).points().len() != 0;
                assert(elements[i].points().len() != 0);
            } else {
                assert(elements[last].points().len() != 0);
            }
            assert forall|i: int, j: int|
                0 <= i < elements.len() && 0 <= j < elements[i].points().len() implies e.contains(
                along(#[trigger] elements[i].points()[j], axis),
            ) by {
                if i < last {
                    assert(before[i] == elements[i]);
                }
            }
            lemma_reached_by_longer(elements, axis, e.lo);
            lemma_reached_by_longer(elements, axis, e.hi);
        }
    }
}

/// What an element before the last reaches, or the last itself, the whole
/// sequence reaches.
proof fn lemma_reached_by_longer(elements: Seq<ElementModel>, axis: Axis, value: int)
    requires
        elements.len() > 0,
        reached_by_any(elements.drop_last(), axis, value) || reached(
            elements.last().points(),
            axis,
            value,
        ),
    ensures
        reached_by_any(elements, axis, value),
{
    let before = elements.drop_last();
    if reached_by_any(before, axis, value) {
        let i = choose|i: int|
            0 <= i < before.len() && reached((#[trigger] before[i]).points(), axis, value);
        assert(before[i] == elements[i]);
    } else {
        assert(elements[elements.len() - 1] == elements.last());
    }
}

/// The extent of points depends on which points there are, not on their
/// order nor on how often each occurs.
pub proof fn lemma_extent_ignores_order(a: Seq<(i64, i64)>, b: Seq<(i64, i64)>, axis: Axis)
    requires
        forall|p: (i64, i64)| a.contains(p) <==> b.contains(p),
    ensures
        points_extent(None, a, axis) == points_extent(None, b, axis),
{
    lemma_points_extent(None, a, axis);
    lemma_points_extent(None, b, axis);
    if a.len() > 0 {
        assert(a.contains(a[0]));
    }
    if b.len() > 0 {
        assert(b.contains(b[0]));
    }
    if a.len() > 0 && b.len() > 0 {
        let ea = points_extent(None, a, axis)->0;
        let eb = points_extent(None, b, axis)->0;
        lemma_reached_is_held(a, b, axis, ea.lo, eb);
        lemma_reached_is_held(a, b, axis, ea.hi, eb);
        lemma_reached_is_held(b, a, axis, eb.lo, ea);
        lemma_reached_is_held(b, a, axis, eb.hi, ea);
    }
}

/// A coordinate that a point of `a` has lies in every interval that holds
/// all points of `b`, where each point of `a` is one of `b`.
proof fn lemma_reached_is_held(
    a: Seq<(i64, i64)>,
    b: Seq<(i64, i64)>,
    axis: Axis,
    value: int,
    held: Interval,
)
    requires
        forall|p: (i64, i64)| a.contains(p) ==> b.contains(p),
        reached(a, axis, value),
        forall|j: int| 0 <= j < b.len() ==> held.contains(along(#[trigger] b[j], axis)),
    ensures
        held.contains(value),
{
    let j = choose|j: int| 0 <= j < a.len() && along(#[trigger] a[j], axis) == value;
    assert(a.contains(a[j]));
    let k = choose|k: int| 0 <= k < b.len() && b[k] == a[j];
    assert(held.contains(along(b[k], axis)));
}

} // verus!
