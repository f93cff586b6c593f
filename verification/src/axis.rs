//! Axis ranges, and the map from data coordinates to device offsets.
//!
//! Data coordinates are whole numbers in a unit of the caller's choice. A
//! range is a pair of bounds with the lower strictly below the upper, so
//! the map from a range onto a stretch of device units never divides by
//! zero.

use vstd::arithmetic::div_mod::{lemma_div_is_ordered, lemma_div_multiples_vanish};
use vstd::arithmetic::mul::{lemma_mul_inequality, lemma_mul_is_commutative};
use vstd::prelude::*;

verus! {

/// One of the two directions of a plot.
#[derive(Debug, Clone, Copy, PartialEq, Eq, Structural)]
pub enum Axis {
    X,
    Y,
}

/// The coordinate of a data point along an axis.
pub open spec fn along(point: (i64, i64), axis: Axis) -> int {
    match axis {
        Axis::X => point.0 as int,
        Axis::Y => point.1 as int,
    }
}

/// The coordinate of `point` along `axis`.
pub fn coordinate(point: (i64, i64), axis: Axis) -> (value: i64)
    ensures
        value == along(point, axis),
{
    match axis {
        Axis::X => point.0,
        Axis::Y => point.1,
    }
}

/// The margin is one part in this many of the data's span, and one unit
/// more.
pub const MARGIN_DIVISOR: u64 = 20;

/// The margin that is added on either side of data that spans `span` units.
/// It is never zero: data that all lies on one value still gets a range two
/// units wide.
pub open spec fn margin(span: int) -> int {
    span / (MARGIN_DIVISOR as int) + 1
}

/// The value nearest to `value` that a data coordinate can hold.
pub open spec fn saturate(value: int) -> int {
    if value < i64::MIN {
        i64::MIN as int
    } else if value > i64::MAX {
        i64::MAX as int
    } else {
        value
    }
}

/// A pair of bounds, as plain values.
pub struct Interval {
    pub lo: int,
    pub hi: int,
}

impl Interval {
    /// Whether the lower bound is strictly below the upper.
    pub open spec fn proper(self) -> bool {
        self.lo < self.hi
    }

    /// Whether `value` lies between the bounds, the bounds included.
    pub open spec fn contains(self, value: int) -> bool {
        self.lo <= value <= self.hi
    }

    /// The value between the bounds that is nearest to `value`.
    pub open spec fn clamp(self, value: int) -> int {
        if value < self.lo {
            self.lo
        } else if value > self.hi {
            self.hi
        } else {
            value
        }
    }

    /// Where `value` falls on a stretch of `extent` device units onto which
    /// the interval is laid out linearly, the lower bound at 0 and the upper
    /// at `extent`, rounded down. A value outside the interval falls where
    /// the nearer bound does.
    pub open spec fn project(self, value: int, extent: int) -> int
        recommends
            self.proper(),
            0 <= extent,
    {
        (self.clamp(value) - self.lo) * extent / (self.hi - self.lo)
    }

    /// The interval from the smaller of two values to the larger, widened by
    /// the margin on either side as far as data coordinates reach.
    pub open spec fn around(a: int, b: int) -> Interval {
        let min = if a <= b { a } else { b };
        let max = if a <= b { b } else { a };
        Interval {
            lo: saturate(min - margin(max - min)),
            hi: saturate(max + margin(max - min)),
        }
    }
}

/// The range of an axis: a lower and an upper bound, the lower strictly
/// below the upper.
#[derive(Debug, Clone, Copy)]
pub struct AxisRange {
    lo: i64,
    hi: i64,
}

impl View for AxisRange {
    type V = Interval;

    closed spec fn view(&self) -> Interval {
        Interval { lo: self.lo as int, hi: self.hi as int }
    }
}

impl AxisRange {
    /// Holds of every range: the lower bound is strictly below the upper.
    #[verifier::type_invariant]
    pub open spec fn ordered(self) -> bool {
        self@.proper()
    }

    /// The range from `lo` to `hi`, or nothing where `lo` is not strictly
    /// below `hi`.
    pub fn new(lo: i64, hi: i64) -> (range: Option<Self>)
        ensures
            lo < hi ==> range is Some && range->0@ == (Interval { lo: lo as int, hi: hi as int }),
            lo >= hi ==> range is None,
    {
        if lo < hi {
            Some(AxisRange { lo, hi })
        } else {
            None
        }
    }

    /// The range from 0 to 1, for an axis without data.
    pub fn unit() -> (range: Self)
        ensures
            range@ == (Interval { lo: 0, hi: 1 }),
    {
        AxisRange { lo: 0, hi: 1 }
    }

    /// The range that holds both `a` and `b` with the margin on either side.
    pub fn around(a: i64, b: i64) -> (range: Self)
        ensures
            range@ == Interval::around(a as int, b as int),
            range@.proper(),
            range@.contains(a as int),
            range@.contains(b as int),
    {
        let min: i64 = if a <= b { a } else { b };
        let max: i64 = if a <= b { b } else { a };
        let span: i128 = max as i128 - min as i128;
        let pad: i128 = span / (MARGIN_DIVISOR as i128) + 1;
        let below: i128 = min as i128 - pad;
        let above: i128 = max as i128 + pad;
        let lo: i64 = if below < i64::MIN as i128 { i64::MIN } else { below as i64 };
        let hi: i64 = if above > i64::MAX as i128 { i64::MAX } else { above as i64 };
        AxisRange { lo, hi }
    }

    /// The lower bound.
    pub fn lower(&self) -> (lo: i64)
        ensures
            lo == self@.lo,
            self@.proper(),
    {
        proof {
            use_type_invariant(self);
        }
        self.lo
    }

    /// The upper bound.
    pub fn upper(&self) -> (hi: i64)
        ensures
            hi == self@.hi,
            self@.proper(),
    {
        proof {
            use_type_invariant(self);
        }
        self.hi
    }

    /// Maps a data coordinate onto a stretch of `extent` device units.
    pub fn project(&self, value: i64, extent: u32) -> (offset: u32)
        ensures
            offset == self@.project(value as int, extent as int),
            offset <= extent,
    {
        proof {
            use_type_invariant(self);
        }
        let inside: i64 = if value < self.lo {
            self.lo
        } else if value > self.hi {
            self.hi
        } else {
            value
        };
        let rise: u128 = (inside as i128 - self.lo as i128) as u128;
        let run: u128 = (self.hi as i128 - self.lo as i128) as u128;
        proof {
            lemma_project_bounds(self@, value as int, extent as int);
            assert(rise * extent <= 0xffff_ffff_ffff_ffff * 0xffff_ffff) by (nonlinear_arith)
                requires
                    0 <= rise <= 0xffff_ffff_ffff_ffff,
                    0 <= extent <= 0xffff_ffff,
            ;
        }
        let scaled: u128 = rise * (extent as u128);
        (scaled / run) as u32
    }
}

/// A proper interval is projected into the stretch it is laid out on.
pub proof fn lemma_project_bounds(range: Interval, value: int, extent: int)
    requires
        range.proper(),
        0 <= extent,
    ensures
        0 <= range.project(value, extent) <= extent,
{
    let rise = range.clamp(value) - range.lo;
    let run = range.hi - range.lo;
    lemma_mul_inequality(0, rise, extent);
    lemma_mul_inequality(rise, run, extent);
    lemma_div_is_ordered(0, rise * extent, run);
    lemma_div_is_ordered(rise * extent, run * extent, run);
    lemma_mul_is_commutative(run, extent);
    lemma_div_multiples_vanish(extent, run);
}

/// The lower bound is projected onto the start of the stretch and the upper
/// bound onto its end.
pub proof fn lemma_project_ends(range: Interval, extent: int)
    requires
        range.proper(),
        0 <= extent,
    ensures
        range.project(range.lo, extent) == 0,
        range.project(range.hi, extent) == extent,
{
    let run = range.hi - range.lo;
    assert(0 * extent == 0);
    lemma_mul_is_commutative(run, extent);
    lemma_div_multiples_vanish(extent, run);
}

/// Projection keeps the order of values: what is not larger is not
/// projected further along the stretch.
pub proof fn lemma_project_monotone(range: Interval, a: int, b: int, extent: int)
    requires
        range.proper(),
        0 <= extent,
        a <= b,
    ensures
        range.project(a, extent) <= range.project(b, extent),
{
    let run = range.hi - range.lo;
    lemma_mul_inequality(range.clamp(a) - range.lo, range.clamp(b) - range.lo, extent);
    lemma_div_is_ordered(
        (range.clamp(a) - range.lo) * extent,
        (range.clamp(b) - range.lo) * extent,
        run,
    );
}

/// The interval around two data coordinates is proper, stays within what a
/// data coordinate can hold, and holds every value between the two: off
/// its bounds, but for a bound that is the least or the greatest value a
/// data coordinate can hold.
pub proof fn lemma_around(a: int, b: int, value: int)
    requires
        i64::MIN <= a <= i64::MAX,
        i64::MIN <= b <= i64::MAX,
        a <= value <= b || b <= value <= a,
    ensures
        Interval::around(a, b).proper(),
        i64::MIN <= Interval::around(a, b).lo,
        Interval::around(a, b).hi <= i64::MAX,
        Interval::around(a, b).contains(value),
        Interval::around(a, b).lo < value || Interval::around(a, b).lo == i64::MIN,
        value < Interval::around(a, b).hi || Interval::around(a, b).hi == i64::MAX,
{
}

} // verus!
