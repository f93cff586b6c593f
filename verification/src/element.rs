//! What can be drawn: a series of data points with the style of its kind.
//!
//! A data point is a pair of whole-number coordinates, x first. The order
//! of the points is the order in which a line visits them.

use crate::style::{BoxStyle, BoxStyleModel, LineStyle, LineStyleModel, PointStyle, PointStyleModel};
use vstd::prelude::*;
use vstd::slice::slice_to_vec;

verus! {

/// A line, as plain values.
pub struct LineModel {
    pub points: Seq<(i64, i64)>,
    pub style: LineStyleModel,
}

/// A path through data points, in their order.
#[derive(Debug, Clone)]
pub struct Line {
    points: Vec<(i64, i64)>,
    style: LineStyle,
}

impl View for Line {
    type V = LineModel;

    closed spec fn view(&self) -> LineModel {
        LineModel { points: self.points@, style: self.style@ }
    }
}

impl Line {
    /// The line through `points`, with no style of its own.
    pub fn new(points: &[(i64, i64)]) -> (line: Self)
        ensures
            line@ == (LineModel { points: points@, style: LineStyleModel::unset() }),
    {
        Line { points: slice_to_vec(points), style: LineStyle::new() }
    }

    /// Overlays `style` onto the line's own.
    pub fn style(self, style: &LineStyle) -> (line: Self)
        ensures
            line@ == (LineModel { points: self@.points, style: self@.style.overlay(style@) }),
    {
        let mut line = self;
        line.style.overlay(style);
        line
    }

    /// The line's own style.
    pub fn get_style(&self) -> (style: &LineStyle)
        ensures
            style@ == self@.style,
    {
        &self.style
    }

    /// The data points, in their order.
    pub fn points(&self) -> (points: &Vec<(i64, i64)>)
        ensures
            points@ == self@.points,
    {
        &self.points
    }
}

/// A scatter plot, as plain values.
pub struct ScatterModel {
    pub points: Seq<(i64, i64)>,
    pub style: PointStyleModel,
}

/// Data points, each drawn as a marker.
#[derive(Debug, Clone)]
pub struct Scatter {
    points: Vec<(i64, i64)>,
    style: PointStyle,
}

impl View for Scatter {
    type V = ScatterModel;

    closed spec fn view(&self) -> ScatterModel {
        ScatterModel { points: self.points@, style: self.style@ }
    }
}

impl Scatter {
    /// The scatter plot of `points`, with no style of its own.
    pub fn new(points: &[(i64, i64)]) -> (scatter: Self)
        ensures
            scatter@ == (ScatterModel { points: points@, style: PointStyleModel::unset() }),
    {
        Scatter { points: slice_to_vec(points), style: PointStyle::new() }
    }

    /// Overlays `style` onto the scatter plot's own.
    pub fn style(self, style: &PointStyle) -> (scatter: Self)
        ensures
            scatter@ == (ScatterModel {
                points: self@.points,
                style: self@.style.overlay(style@),
            }),
    {
        let mut scatter = self;
        scatter.style.overlay(style);
        scatter
    }

    /// The scatter plot's own style.
    pub fn get_style(&self) -> (style: &PointStyle)
        ensures
            style@ == self@.style,
    {
        &self.style
    }

    /// The data points, in their order.
    pub fn points(&self) -> (points: &Vec<(i64, i64)>)
        ensures
            points@ == self@.points,
    {
        &self.points
    }
}

/// A box, as plain values.
pub struct BoxAreaModel {
    pub points: Seq<(i64, i64)>,
    pub style: BoxStyleModel,
}

/// The filled rectangle that spans data points: the smallest one with sides
/// along the axes that holds them all. The order of the points plays no
/// part.
#[derive(Debug, Clone)]
pub struct BoxArea {
    points: Vec<(i64, i64)>,
    style: BoxStyle,
}

impl View for BoxArea {
    type V = BoxAreaModel;

    closed spec fn view(&self) -> BoxAreaModel {
        BoxAreaModel { points: self.points@, style: self.style@ }
    }
}

impl BoxArea {
    /// The box that spans `points`, with no style of its own.
    pub fn new(points: &[(i64, i64)]) -> (area: Self)
        ensures
            area@ == (BoxAreaModel { points: points@, style: BoxStyleModel::unset() }),
    {
        BoxArea { points: slice_to_vec(points), style: BoxStyle::new() }
    }

    /// Overlays `style` onto the box's own.
    pub fn style(self, style: &BoxStyle) -> (area: Self)
        ensures
            area@ == (BoxAreaModel { points: self@.points, style: self@.style.overlay(style@) }),
    {
        let mut area = self;
        area.style.overlay(style);
        area
    }

    /// The box's own style.
    pub fn get_style(&self) -> (style: &BoxStyle)
        ensures
            style@ == self@.style,
    {
        &self.style
    }

    /// The data points, in their order.
    pub fn points(&self) -> (points: &Vec<(i64, i64)>)
        ensures
            points@ == self@.points,
    {
        &self.points
    }
}

/// An element of any kind, as plain values.
pub enum ElementModel {
    Line(LineModel),
    Scatter(ScatterModel),
    BoxArea(BoxAreaModel),
}

impl ElementModel {
    /// The element's data points, in their order.
    pub open spec fn points(self) -> Seq<(i64, i64)> {
        match self {
            ElementModel::Line(line) => line.points,
            ElementModel::Scatter(scatter) => scatter.points,
            ElementModel::BoxArea(area) => area.points,
        }
    }
}

/// An element of any kind.
#[derive(Debug, Clone)]
pub enum Element {
    Line(Line),
    Scatter(Scatter),
    BoxArea(BoxArea),
}

impl View for Element {
    type V = ElementModel;

    open spec fn view(&self) -> ElementModel {
        match self {
            Element::Line(line) => ElementModel::Line(line@),
            Element::Scatter(scatter) => ElementModel::Scatter(scatter@),
            Element::BoxArea(area) => ElementModel::BoxArea(area@),
        }
    }
}

impl Element {
    /// The element's data points, in their order.
    pub fn points(&self) -> (points: &Vec<(i64, i64)>)
        ensures
            points@ == self@.points(),
    {
        match self {
            Element::Line(line) => line.points(),
            Element::Scatter(scatter) => scatter.points(),
            Element::BoxArea(area) => area.points(),
        }
    }
}

} // verus!
