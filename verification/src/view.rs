//! A view: the elements that are plotted together in one coordinate space,
//! the styles they share, and the ranges of its two axes.
//!
//! A view starts empty and is filled element by element. Its ranges are
//! worked out from the elements each time they are asked for.

use crate::axis::{along, Axis, AxisRange, Interval};
use crate::element::{Element, ElementModel};
use crate::extent::{
    as_interval, elements_extent, extend_over, lemma_elements_extent, lemma_points_extent,
};
use crate::style::{
    BoxStyle, BoxStyleModel, LineStyle, LineStyleModel, PointStyle, PointStyleModel,
};
use vstd::prelude::*;

verus! {

/// A view, as plain values.
pub struct ViewModel {
    /// The elements, in the order in which they were added.
    pub elements: Seq<ElementModel>,
    /// The range of the x axis, where one was given.
    pub x_range: Option<Interval>,
    /// The range of the y axis, where one was given.
    pub y_range: Option<Interval>,
    /// The style that the lines share.
    pub line_style: LineStyleModel,
    /// The style that the scatter plots share.
    pub point_style: PointStyleModel,
    /// The style that the boxes share.
    pub box_style: BoxStyleModel,
}

impl ViewModel {
    /// The view without elements, with no range given and no style set.
    pub open spec fn empty() -> Self {
        ViewModel {
            elements: Seq::empty(),
            x_range: None,
            y_range: None,
            line_style: LineStyleModel::unset(),
            point_style: PointStyleModel::unset(),
            box_style: BoxStyleModel::unset(),
        }
    }

    /// The range that was given for `axis`, if any.
    pub open spec fn given_range(self, axis: Axis) -> Option<Interval> {
        match axis {
            Axis::X => self.x_range,
            Axis::Y => self.y_range,
        }
    }

    /// The smallest and the largest coordinate along `axis` of all points of
    /// all elements: nothing where the view has no point.
    pub open spec fn extent(self, axis: Axis) -> Option<Interval> {
        elements_extent(self.elements, axis)
    }

    /// The range that the data asks for: its extent with the margin on
    /// either side, or from 0 to 1 where the view has no point.
    pub open spec fn data_range(self, axis: Axis) -> Interval {
        match self.extent(axis) {
            Some(e) => Interval::around(e.lo, e.hi),
            None => Interval { lo: 0, hi: 1 },
        }
    }

    /// The range of `axis`: the one that was given, else the one that the
    /// data asks for.
    pub open spec fn range(self, axis: Axis) -> Interval {
        match self.given_range(axis) {
            Some(range) => range,
            None => self.data_range(axis),
        }
    }
}

/// A range that may have been given, as plain values.
pub open spec fn range_model(range: Option<AxisRange>) -> Option<Interval> {
    match range {
        Some(r) => Some(r@),
        None => None,
    }
}

/// Elements plotted together over two continuous axes.
#[derive(Debug, Clone)]
pub struct ContinuousView {
    elements: Vec<Element>,
    x_range: Option<AxisRange>,
    y_range: Option<AxisRange>,
    line_style: LineStyle,
    point_style: PointStyle,
    box_style: BoxStyle,
}

impl View for ContinuousView {
    type V = ViewModel;

    closed spec fn view(&self) -> ViewModel {
        ViewModel {
            elements: self.elements@.map_values(|e: Element| e@),
            x_range: range_model(self.x_range),
            y_range: range_model(self.y_range),
            line_style: self.line_style@,
            point_style: self.point_style@,
            box_style: self.box_style@,
        }
    }
}

impl ContinuousView {
    /// The empty view.
    pub fn new() -> (view: Self)
        ensures
            view@ == ViewModel::empty(),
    {
        let view = ContinuousView {
            elements: Vec::new(),
            x_range: None,
            y_range: None,
            line_style: LineStyle::new(),
            point_style: PointStyle::new(),
            box_style: BoxStyle::new(),
        };
        assert(view.elements@.map_values(|e: Element| e@) =~= Seq::empty());
        view
    }

    /// Adds `element` after the elements that the view holds.
    pub fn add(self, element: Element) -> (view: Self)
        ensures
            view@ == (ViewModel { elements: self@.elements.push(element@), ..self@ }),
    {
        let mut view = self;
        view.elements.push(element);
        assert(view.elements@.map_values(|e: Element| e@) =~= self.elements@.map_values(
            |e: Element| e@,
        ).push(element@));
        view
    }

    /// Fixes the range of the x axis, whatever the data.
    pub fn x_range(self, range: AxisRange) -> (view: Self)
        ensures
            view@ == (ViewModel { x_range: Some(range@), ..self@ }),
    {
        let mut view = self;
        view.x_range = Some(range);
        view
    }

    /// Fixes the range of the y axis, whatever the data.
    pub fn y_range(self, range: AxisRange) -> (view: Self)
        ensures
            view@ == (ViewModel { y_range: Some(range@), ..self@ }),
    {
        let mut view = self;
        view.y_range = Some(range);
        view
    }

    /// Overlays `style` onto the style that the view's lines share.
    pub fn line_style(self, style: &LineStyle) -> (view: Self)
        ensures
            view@ == (ViewModel { line_style: self@.line_style.overlay(style@), ..self@ }),
    {
        let mut view = self;
        view.line_style.overlay(style);
        view
    }

    /// Overlays `style` onto the style that the view's scatter plots share.
    pub fn point_style(self, style: &PointStyle) -> (view: Self)
        ensures
            view@ == (ViewModel { point_style: self@.point_style.overlay(style@), ..self@ }),
    {
        let mut view = self;
        view.point_style.overlay(style);
        view
    }

    /// Overlays `style` onto the style that the view's boxes share.
    pub fn box_style(self, style: &BoxStyle) -> (view: Self)
        ensures
            view@ == (ViewModel { box_style: self@.box_style.overlay(style@), ..self@ }),
    {
        let mut view = self;
        view.box_style.overlay(style);
        view
    }

    /// The elements, in the order in which they were added.
    pub fn elements(&self) -> (elements: &Vec<Element>)
        ensures
            elements@.len() == self@.elements.len(),
            forall|i: int| 0 <= i < elements@.len() ==> (#[trigger] elements@[i])@ == self@.elements[i],
    {
        &self.elements
    }

    /// The style that the view's lines share.
    pub fn get_line_style(&self) -> (style: &LineStyle)
        ensures
            style@ == self@.line_style,
    {
        &self.line_style
    }

    /// The style that the view's scatter plots share.
    pub fn get_point_style(&self) -> (style: &PointStyle)
        ensures
            style@ == self@.point_style,
    {
        &self.point_style
    }

    /// The style that the view's boxes share.
    pub fn get_box_style(&self) -> (style: &BoxStyle)
        ensures
            style@ == self@.box_style,
    {
        &self.box_style
    }

    /// The smallest and the largest coordinate along `axis` of all points of
    /// all elements, or nothing where the view has no point.
    pub fn extent(&self, axis: Axis) -> (extent: Option<(i64, i64)>)
        ensures
            as_interval(extent) == self@.extent(axis),
    {
        let ghost elements = self@.elements;
        let mut extent: Option<(i64, i64)> = None;
        let mut i: usize = 0;
        while i < self.elements.len()
            invariant
                i <= self.elements.len(),
                elements == self@.elements,
                as_interval(extent) == elements_extent(elements.take(i as int), axis),
            decreases self.elements.len() - i,
        {
            proof {
                assert(elements.take(i + 1).drop_last() == elements.take(i as int));
                assert(elements.take(i + 1).last() == self.elements[i as int]@);
            }
            extent = extend_over(extent, self.elements[i].points(), axis);
            i += 1;
        }
        proof {
            assert(elements.take(self.elements.len() as int) == elements);
        }
        extent
    }

    /// The range of `axis`: the one that was given, else the extent of the
    /// data with the margin on either side, else from 0 to 1.
    ///
    /// The range is proper whatever the view holds. Where none was given,
    /// it holds every point of every element.
    pub fn range(&self, axis: Axis) -> (range: AxisRange)
        ensures
            range@ == self@.range(axis),
            range@.proper(),
            self@.given_range(axis) is None ==> forall|i: int, j: int|
                0 <= i < self@.elements.len() && 0 <= j < self@.elements[i].points().len()
                    ==> range@.contains(along(#[trigger] self@.elements[i].points()[j], axis)),
    {
        let given = match axis {
            Axis::X => self.x_range,
            Axis::Y => self.y_range,
        };
        match given {
            Some(range) => {
                proof {
                    use_type_invariant(&range);
                }
                range
            },
            None => {
                proof {
                    lemma_data_range(self@, axis);
                }
                match self.extent(axis) {
                    Some((lo, hi)) => AxisRange::around(lo, hi),
                    None => AxisRange::unit(),
                }
            },
        }
    }
}

/// The range that the data asks for is proper, whatever the data: also
/// where the view is empty, holds a single point, or all its points agree
/// along the axis. And it holds every point of every element: off its
/// bounds, but for a bound that is the least or the greatest value a data
/// coordinate can hold.
pub proof fn lemma_data_range(view: ViewModel, axis: Axis)
    ensures
        view.data_range(axis).proper(),
        i64::MIN <= view.data_range(axis).lo,
        view.data_range(axis).hi <= i64::MAX,
        forall|i: int, j: int|
            0 <= i < view.elements.len() && 0 <= j < view.elements[i].points().len() ==> ({
                let value = along(#[trigger] view.elements[i].points()[j], axis);
                &&& view.data_range(axis).contains(value)
                &&& view.data_range(axis).lo < value || view.data_range(axis).lo == i64::MIN
                &&& value < view.data_range(axis).hi || view.data_range(axis).hi == i64::MAX
            }),
{
    lemma_elements_extent(view.elements, axis);
}

/// Adding an element only widens what the data asks for: the extent of the
/// view with the element holds the extent of the view without it, and so
/// does the range around it.
pub proof fn lemma_adding_widens(view: ViewModel, element: ElementModel, axis: Axis)
    ensures
        view.extent(axis) matches Some(before) ==> ({
            let wider = ViewModel { elements: view.elements.push(element), ..view };
            &&& wider.extent(axis) matches Some(after)
            &&& after.lo <= before.lo
            &&& before.hi <= after.hi
            &&& wider.data_range(axis).lo <= view.data_range(axis).lo
            &&& view.data_range(axis).hi <= wider.data_range(axis).hi
        }),
{
    let longer = view.elements.push(element);
    assert(longer.drop_last() == view.elements);
    assert(longer.last() == element);
    lemma_elements_extent(view.elements, axis);
    lemma_points_extent(view.extent(axis), element.points(), axis);
}

} // verus!
