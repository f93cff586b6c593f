//! From data to device: where a view's elements fall within a frame, and
//! the shapes they are drawn as.
//!
//! Device coordinates are whole device units, x to the right and y
//! downwards. A view is drawn into a frame; its x range is laid out from
//! the frame's left edge to its right, its y range from the bottom edge to
//! the top.

use crate::axis::{lemma_project_bounds, Axis, AxisRange, Interval};
use crate::element::{Element, ElementModel};
use crate::style::{
    BoxStyleModel, LineStyleModel, PointMarker, PointStyleModel, ResolvedBoxStyle,
    ResolvedLineStyle, ResolvedPointStyle, FALLBACK_COLOUR, FALLBACK_FILL, FALLBACK_SIZE,
    FALLBACK_WIDTH,
};
use crate::view::{ContinuousView, ViewModel};
use vstd::prelude::*;

verus! {

/// A rectangle of the canvas, by its top left corner and its size.
#[derive(Debug, Clone, Copy, PartialEq, Eq, Structural)]
pub struct Frame {
    pub left: u32,
    pub top: u32,
    pub width: u32,
    pub height: u32,
}

impl Frame {
    /// Whether the device point lies in the frame, its edges included.
    pub open spec fn holds(self, pixel: (i64, i64)) -> bool {
        &&& self.left <= pixel.0 <= self.left + self.width
        &&& self.top <= pixel.1 <= self.top + self.height
    }
}

/// Where a data point falls in `frame`, given the ranges of the two axes.
pub open spec fn place(frame: Frame, x_range: Interval, y_range: Interval, point: (i64, i64)) -> (
    i64,
    i64,
) {
    (
        (frame.left + x_range.project(point.0 as int, frame.width as int)) as i64,
        (frame.top + frame.height - y_range.project(point.1 as int, frame.height as int)) as i64,
    )
}

/// Where each of `points` falls, in their order.
pub open spec fn place_all(
    frame: Frame,
    x_range: Interval,
    y_range: Interval,
    points: Seq<(i64, i64)>,
) -> Seq<(i64, i64)> {
    Seq::new(points.len(), |j: int| place(frame, x_range, y_range, points[j]))
}

/// A shape on the canvas, as plain values.
pub enum PrimitiveModel {
    Path { points: Seq<(i64, i64)>, colour: Seq<char>, width: u32 },
    Markers { points: Seq<(i64, i64)>, marker: PointMarker, colour: Seq<char>, size: u32 },
    Rect { points: Seq<(i64, i64)>, fill: Seq<char> },
}

impl PrimitiveModel {
    /// The device points that the shape is made from.
    pub open spec fn points(self) -> Seq<(i64, i64)> {
        match self {
            PrimitiveModel::Path { points, .. } => points,
            PrimitiveModel::Markers { points, .. } => points,
            PrimitiveModel::Rect { points, .. } => points,
        }
    }
}

/// A shape on the canvas, with every visual value made concrete.
#[derive(Debug, Clone, PartialEq, Eq)]
pub enum Primitive {
    /// A stroked path that visits the points in their order.
    Path { points: Vec<(i64, i64)>, colour: String, width: u32 },
    /// One marker at each point.
    Markers { points: Vec<(i64, i64)>, marker: PointMarker, colour: String, size: u32 },
    /// The filled rectangle that spans the points.
    Rect { points: Vec<(i64, i64)>, fill: String },
}

impl View for Primitive {
    type V = PrimitiveModel;

    open spec fn view(&self) -> PrimitiveModel {
        match self {
            Primitive::Path { points, colour, width } => PrimitiveModel::Path {
                points: points@,
                colour: colour@,
                width: *width,
            },
            Primitive::Markers { points, marker, colour, size } => PrimitiveModel::Markers {
                points: points@,
                marker: *marker,
                colour: colour@,
                size: *size,
            },
            Primitive::Rect { points, fill } => PrimitiveModel::Rect {
                points: points@,
                fill: fill@,
            },
        }
    }
}

/// The shapes of a sequence, as plain values.
pub open spec fn models(shapes: Seq<Primitive>) -> Seq<PrimitiveModel> {
    shapes.map_values(|shape: Primitive| shape@)
}

/// The shape that an element of a view is drawn as: its points placed in
/// their order, with the values of the cascade of the view's style and its
/// own.
pub open spec fn drawn(
    element: ElementModel,
    view: ViewModel,
    frame: Frame,
) -> PrimitiveModel {
    let x_range = view.range(Axis::X);
    let y_range = view.range(Axis::Y);
    match element {
        ElementModel::Line(line) => {
            let style = LineStyleModel::cascade(view.line_style, line.style);
            PrimitiveModel::Path {
                points: place_all(frame, x_range, y_range, line.points),
                colour: style.colour->0,
                width: style.width->0,
            }
        },
        ElementModel::Scatter(scatter) => {
            let style = PointStyleModel::cascade(view.point_style, scatter.style);
            PrimitiveModel::Markers {
                points: place_all(frame, x_range, y_range, scatter.points),
                marker: style.marker->0,
                colour: style.colour->0,
                size: style.size->0,
            }
        },
        ElementModel::BoxArea(area) => {
            let style = BoxStyleModel::cascade(view.box_style, area.style);
            PrimitiveModel::Rect {
                points: place_all(frame, x_range, y_range, area.points),
                fill: style.fill->0,
            }
        },
    }
}

/// The shapes that a view is drawn as in `frame`: one for each element, in
/// the order in which the elements were added.
pub open spec fn drawing(view: ViewModel, frame: Frame) -> Seq<PrimitiveModel> {
    Seq::new(view.elements.len(), |i: int| drawn(view.elements[i], view, frame))
}

/// Places one data point in `frame`.
pub fn place_point(frame: Frame, x_range: &AxisRange, y_range: &AxisRange, point: (i64, i64)) -> (pixel:
    (i64, i64))
    ensures
        pixel == place(frame, x_range@, y_range@, point),
        frame.holds(pixel),
{
    let across = x_range.project(point.0, frame.width);
    let up = y_range.project(point.1, frame.height);
    (frame.left as i64 + across as i64, frame.top as i64 + frame.height as i64 - up as i64)
}

/// Places data points in `frame`, in their order.
pub fn place_points(
    frame: Frame,
    x_range: &AxisRange,
    y_range: &AxisRange,
    points: &Vec<(i64, i64)>,
) -> (pixels: Vec<(i64, i64)>)
    ensures
        pixels@ == place_all(frame, x_range@, y_range@, points@),
{
    let mut pixels: Vec<(i64, i64)> = Vec::new();
    let mut j: usize = 0;
    while j < points.len()
        invariant
            j <= points.len(),
            pixels@.len() == j,
            forall|k: int|
                0 <= k < j ==> pixels@[k] == place(frame, x_range@, y_range@, #[trigger] points@[k]),
        decreases points.len() - j,
    {
        pixels.push(place_point(frame, x_range, y_range, points[j]));
        j += 1;
    }
    assert(pixels@ =~= place_all(frame, x_range@, y_range@, points@));
    pixels
}

impl ContinuousView {
    /// Draws one element of the view, given the view's two ranges.
    fn draw(&self, element: &Element, frame: Frame, x_range: &AxisRange, y_range: &AxisRange) -> (shape:
        Primitive)
        requires
            x_range@ == self@.range(Axis::X),
            y_range@ == self@.range(Axis::Y),
        ensures
            shape@ == drawn(element@, self@, frame),
    {
        match element {
            Element::Line(line) => {
                let style = ResolvedLineStyle::cascade(self.get_line_style(), line.get_style());
                Primitive::Path {
                    points: place_points(frame, x_range, y_range, line.points()),
                    colour: style.colour,
                    width: style.width,
                }
            },
            Element::Scatter(scatter) => {
                let style = ResolvedPointStyle::cascade(
                    self.get_point_style(),
                    scatter.get_style(),
                );
                Primitive::Markers {
                    points: place_points(frame, x_range, y_range, scatter.points()),
                    marker: style.marker,
                    colour: style.colour,
                    size: style.size,
                }
            },
            Element::BoxArea(area) => {
                let style = ResolvedBoxStyle::cascade(self.get_box_style(), area.get_style());
                Primitive::Rect {
                    points: place_points(frame, x_range, y_range, area.points()),
                    fill: style.fill,
                }
            },
        }
    }

    /// The shapes that the view is drawn as in `frame`: one for each
    /// element, in the order in which the elements were added, each with
    /// the element's points placed in their order.
    ///
    /// Every point of every shape lies in the frame.
    pub fn primitives(&self, frame: Frame) -> (shapes: Vec<Primitive>)
        ensures
            models(shapes@) == drawing(self@, frame),
            shapes@.len() == self@.elements.len(),
            forall|i: int, j: int|
                0 <= i < shapes@.len() && 0 <= j < shapes@[i]@.points().len() ==> frame.holds(
                    #[trigger] shapes@[i]@.points()[j],
                ),
    {
        let x_range = self.range(Axis::X);
        let y_range = self.range(Axis::Y);
        let elements = self.elements();
        let mut shapes: Vec<Primitive> = Vec::new();
        let mut i: usize = 0;
        while i < elements.len()
            invariant
                i <= elements.len(),
                elements@.len() == self@.elements.len(),
                forall|k: int|
                    0 <= k < elements@.len() ==> (#[trigger] elements@[k])@ == self@.elements[k],
                x_range@ == self@.range(Axis::X),
                y_range@ == self@.range(Axis::Y),
                shapes@.len() == i,
                forall|k: int|
                    0 <= k < i ==> (#[trigger] shapes@[k])@ == drawn(self@.elements[k], self@, frame),
            decreases elements.len() - i,
        {
            shapes.push(self.draw(&elements[i], frame, &x_range, &y_range));
            i += 1;
        }
        assert(models(shapes@) =~= drawing(self@, frame));
        proof {
            lemma_drawing_within_frame(self@, frame);
            assert forall|i: int, j: int|
                0 <= i < shapes@.len() && 0 <= j < shapes@[i]@.points().len() implies frame.holds(
                #[trigger] shapes@[i]@.points()[j],
            ) by {
                assert(shapes@[i]@ == drawing(self@, frame)[i]);
            }
        }
        shapes
    }
}

/// A view is drawn as exactly one shape for each of its elements, in their
/// order: a path for a line, markers for a scatter plot, a rectangle for a
/// box. Each shape has as many points as its element, and its points are
/// the element's points, placed, in the element's order.
pub proof fn lemma_drawing_keeps_structure(view: ViewModel, frame: Frame)
    ensures
        drawing(view, frame).len() == view.elements.len(),
        forall|i: int|
            0 <= i < view.elements.len() ==> ({
                &&& (#[trigger] drawing(view, frame)[i]).points().len()
                    == view.elements[i].points().len()
                &&& view.elements[i] is Line <==> drawing(view, frame)[i] is Path
                &&& view.elements[i] is Scatter <==> drawing(view, frame)[i] is Markers
                &&& view.elements[i] is BoxArea <==> drawing(view, frame)[i] is Rect
            }),
        forall|i: int, j: int|
            0 <= i < view.elements.len() && 0 <= j < view.elements[i].points().len() ==> (
            #[trigger] drawing(view, frame)[i].points()[j]) == place(
                frame,
                view.range(Axis::X),
                view.range(Axis::Y),
                view.elements[i].points()[j],
            ),
{
}

/// A point is placed within the frame, whatever the point, where both
/// ranges are proper: no point of a view is drawn outside the view's frame.
pub proof fn lemma_place_within_frame(
    frame: Frame,
    x_range: Interval,
    y_range: Interval,
    point: (i64, i64),
)
    requires
        x_range.proper(),
        y_range.proper(),
    ensures
        frame.holds(place(frame, x_range, y_range, point)),
{
    lemma_project_bounds(x_range, point.0 as int, frame.width as int);
    lemma_project_bounds(y_range, point.1 as int, frame.height as int);
}

/// Where both ranges of a view are proper, every point of every shape of
/// its drawing lies in the frame.
pub proof fn lemma_drawing_within_frame(view: ViewModel, frame: Frame)
    requires
        view.range(Axis::X).proper(),
        view.range(Axis::Y).proper(),
    ensures
        forall|i: int, j: int|
            0 <= i < drawing(view, frame).len() && 0 <= j < drawing(view, frame)[i].points().len()
                ==> frame.holds(#[trigger] drawing(view, frame)[i].points()[j]),
{
    assert forall|i: int, j: int|
        0 <= i < drawing(view, frame).len() && 0 <= j < drawing(
            view,
            frame,
        )[i].points().len() implies frame.holds(#[trigger] drawing(view, frame)[i].points()[j]) by {
        lemma_place_within_frame(
            frame,
            view.range(Axis::X),
            view.range(Axis::Y),
            view.elements[i].points()[j],
        );
    }
}

/// An element without a style of its own, in a view without a style for
/// its kind, is drawn with the fallback for every value.
pub proof fn lemma_unstyled_is_drawn_with_fallback(
    element: ElementModel,
    view: ViewModel,
    frame: Frame,
)
    ensures
        element matches ElementModel::Line(line) && line.style == LineStyleModel::unset()
            && view.line_style == LineStyleModel::unset() ==> ({
            &&& drawn(element, view, frame) matches PrimitiveModel::Path { colour, width, .. }
            &&& colour == FALLBACK_COLOUR@
            &&& width == FALLBACK_WIDTH
        }),
        element matches ElementModel::Scatter(scatter) && scatter.style == PointStyleModel::unset()
            && view.point_style == PointStyleModel::unset() ==> ({
            &&& drawn(element, view, frame) matches PrimitiveModel::Markers {
                marker,
                colour,
                size,
                ..
            }
            &&& marker == PointMarker::Circle
            &&& colour == FALLBACK_COLOUR@
            &&& size == FALLBACK_SIZE
        }),
        element matches ElementModel::BoxArea(area) && area.style == BoxStyleModel::unset()
            && view.box_style == BoxStyleModel::unset() ==> ({
            &&& drawn(element, view, frame) matches PrimitiveModel::Rect { fill, .. }
            &&& fill == FALLBACK_FILL@
        }),
{
}

} // verus!
