//! The page as an SVG document.
//!
//! The document opens with the canvas's size, holds one node for each shape
//! in the order of the shapes, and nothing else: a polyline for a path, a
//! group of markers for a scatter plot, a rectangle for a box. Colours are
//! escaped, so that no colour can end its attribute.

use crate::axis::Axis;
use crate::extent::{extend_over, lemma_extent_ignores_order, points_extent};
use crate::page::Page;
use crate::render::{models, Primitive, PrimitiveModel};
use crate::style::PointMarker;
use crate::text::{decimal_text, escaped_text, write_decimal, write_escaped};
use vstd::prelude::*;
use vstd::string::StringExecFns;

verus! {

/// A device point as text: its two coordinates with a comma between them.
pub open spec fn pair_text(x: int, y: int) -> Seq<char> {
    decimal_text(x) + ","@ + decimal_text(y)
}

/// Device points as text, in their order, with a space between one and the
/// next.
pub open spec fn points_text(points: Seq<(i64, i64)>) -> Seq<char>
    decreases points.len(),
{
    if points.len() == 0 {
        Seq::empty()
    } else if points.len() == 1 {
        pair_text(points[0].0 as int, points[0].1 as int)
    } else {
        points_text(points.drop_last()) + " "@ + pair_text(
            points.last().0 as int,
            points.last().1 as int,
        )
    }
}

/// The node of one marker of the given size at the device point `(x, y)`.
pub open spec fn marker_text(marker: PointMarker, size: int, x: int, y: int) -> Seq<char> {
    match marker {
        PointMarker::Circle => "<circle cx=\""@ + decimal_text(x) + "\" cy=\""@ + decimal_text(y)
            + "\" r=\""@ + decimal_text(size) + "\"/>\n"@,
        PointMarker::Square => "<rect x=\""@ + decimal_text(x - size) + "\" y=\""@ + decimal_text(
            y - size,
        ) + "\" width=\""@ + decimal_text(2 * size) + "\" height=\""@ + decimal_text(2 * size)
            + "\"/>\n"@,
        PointMarker::Cross => "<path d=\"M"@ + pair_text(x - size, y - size) + " L"@ + pair_text(
            x + size,
            y + size,
        ) + " M"@ + pair_text(x - size, y + size) + " L"@ + pair_text(x + size, y - size)
            + "\"/>\n"@,
    }
}

/// The nodes of the markers at `points`, in the order of the points.
pub open spec fn markers_text(marker: PointMarker, size: int, points: Seq<(i64, i64)>) -> Seq<char>
    decreases points.len(),
{
    if points.len() == 0 {
        Seq::empty()
    } else {
        markers_text(marker, size, points.drop_last()) + marker_text(
            marker,
            size,
            points.last().0 as int,
            points.last().1 as int,
        )
    }
}

/// The left edge, the top edge, the width and the height of the rectangle
/// that spans `points`; all zero where there is no point.
pub open spec fn bounds(points: Seq<(i64, i64)>) -> (int, int, int, int) {
    match (points_extent(None, points, Axis::X), points_extent(None, points, Axis::Y)) {
        (Some(across), Some(down)) => (
            across.lo,
            down.lo,
            across.hi - across.lo,
            down.hi - down.lo,
        ),
        _ => (0, 0, 0, 0),
    }
}

/// The node of one shape.
pub open spec fn shape_text(shape: PrimitiveModel) -> Seq<char> {
    match shape {
        PrimitiveModel::Path { points, colour, width } => "<polyline fill=\"none\" stroke=\""@
            + escaped_text(colour) + "\" stroke-width=\""@ + decimal_text(width as int)
            + "\" points=\""@ + points_text(points) + "\"/>\n"@,
        PrimitiveModel::Markers { points, marker, colour, size } => "<g fill=\""@ + escaped_text(
            colour,
        ) + "\" stroke=\""@ + escaped_text(colour) + "\">\n"@ + markers_text(
            marker,
            size as int,
            points,
        ) + "</g>\n"@,
        PrimitiveModel::Rect { points, fill } => {
            let (x, y, width, height) = bounds(points);
            "<rect x=\""@ + decimal_text(x) + "\" y=\""@ + decimal_text(y) + "\" width=\""@
                + decimal_text(width) + "\" height=\""@ + decimal_text(height) + "\" fill=\""@
                + escaped_text(fill) + "\"/>\n"@
        },
    }
}

/// The nodes of `shapes`, in the order of the shapes.
pub open spec fn shapes_text(shapes: Seq<PrimitiveModel>) -> Seq<char>
    decreases shapes.len(),
{
    if shapes.len() == 0 {
        Seq::empty()
    } else {
        shapes_text(shapes.drop_last()) + shape_text(shapes.last())
    }
}

/// The document of a canvas of the given size with `shapes` on it.
pub open spec fn document_text(width: int, height: int, shapes: Seq<PrimitiveModel>) -> Seq<char> {
    "<svg xmlns=\"http://www.w3.org/2000/svg\" width=\""@ + decimal_text(width) + "\" height=\""@
        + decimal_text(height) + "\" viewBox=\"0 0 "@ + decimal_text(width) + " "@ + decimal_text(
        height,
    ) + "\">\n"@ + shapes_text(shapes) + "</svg>\n"@
}

/// Appends a device point.
fn write_pair(out: &mut String, x: i128, y: i128)
    ensures
        final(out)@ == old(out)@ + pair_text(x as int, y as int),
{
    write_decimal(out, x);
    out.append(",");
    write_decimal(out, y);
    assert(out@ =~= old(out)@ + pair_text(x as int, y as int));
}

/// Appends device points, in their order.
fn write_points(out: &mut String, points: &Vec<(i64, i64)>)
    ensures
        final(out)@ == old(out)@ + points_text(points@),
{
    let mut j: usize = 0;
    assert(out@ =~= old(out)@ + points_text(points@.take(0)));
    while j < points.len()
        invariant
            j <= points.len(),
            out@ == old(out)@ + points_text(points@.take(j as int)),
        decreases points.len() - j,
    {
        if j > 0 {
            out.append(" ");
        }
        write_pair(out, points[j].0 as i128, points[j].1 as i128);
        proof {
            assert(points@.take(j + 1).drop_last() == points@.take(j as int));
            assert(points@.take(j + 1).last() == points@[j as int]);
            assert(points@.take(j + 1)[0] == points@[0]);
            assert(out@ =~= old(out)@ + points_text(points@.take(j + 1)));
        }
        j += 1;
    }
    proof {
        assert(points@.take(points.len() as int) == points@);
    }
}

/// Appends the node of one marker.
fn write_marker(out: &mut String, marker: PointMarker, size: u32, pixel: (i64, i64))
    ensures
        final(out)@ == old(out)@ + marker_text(
            marker,
            size as int,
            pixel.0 as int,
            pixel.1 as int,
        ),
{
    let x = pixel.0 as i128;
    let y = pixel.1 as i128;
    let r = size as i128;
    match marker {
        PointMarker::Circle => {
            out.append("<circle cx=\"");
            write_decimal(out, x);
            out.append("\" cy=\"");
            write_decimal(out, y);
            out.append("\" r=\"");
            write_decimal(out, r);
            out.append("\"/>\n");
        },
        PointMarker::Square => {
            out.append("<rect x=\"");
            write_decimal(out, x - r);
            out.append("\" y=\"");
            write_decimal(out, y - r);
            out.append("\" width=\"");
            write_decimal(out, 2 * r);
            out.append("\" height=\"");
            write_decimal(out, 2 * r);
            out.append("\"/>\n");
        },
        PointMarker::Cross => {
            out.append("<path d=\"M");
            write_pair(out, x - r, y - r);
            out.append(" L");
            write_pair(out, x + r, y + r);
            out.append(" M");
            write_pair(out, x - r, y + r);
            out.append(" L");
            write_pair(out, x + r, y - r);
            out.append("\"/>\n");
        },
    }
    assert(out@ =~= old(out)@ + marker_text(marker, size as int, pixel.0 as int, pixel.1 as int));
}

/// Appends the nodes of the markers at `points`, in the order of the points.
fn write_markers(out: &mut String, marker: PointMarker, size: u32, points: &Vec<(i64, i64)>)
    ensures
        final(out)@ == old(out)@ + markers_text(marker, size as int, points@),
{
    let mut j: usize = 0;
    assert(out@ =~= old(out)@ + markers_text(marker, size as int, points@.take(0)));
    while j < points.len()
        invariant
            j <= points.len(),
            out@ == old(out)@ + markers_text(marker, size as int, points@.take(j as int)),
        decreases points.len() - j,
    {
        write_marker(out, marker, size, points[j]);
        proof {
            assert(points@.take(j + 1).drop_last() == points@.take(j as int));
            assert(points@.take(j + 1).last() == points@[j as int]);
            assert(out@ =~= old(out)@ + markers_text(marker, size as int, points@.take(j + 1)));
        }
        j += 1;
    }
    proof {
        assert(points@.take(points.len() as int) == points@);
    }
}

/// Appends the node of one shape.
pub fn write_shape(out: &mut String, shape: &Primitive)
    ensures
        final(out)@ == old(out)@ + shape_text(shape@),
{
    match shape {
        Primitive::Path { points, colour, width } => {
            out.append("<polyline fill=\"none\" stroke=\"");
            write_escaped(out, colour.as_str());
            out.append("\" stroke-width=\"");
            write_decimal(out, *width as i128);
            out.append("\" points=\"");
            write_points(out, points);
            out.append("\"/>\n");
        },
        Primitive::Markers { points, marker, colour, size } => {
            out.append("<g fill=\"");
            write_escaped(out, colour.as_str());
            out.append("\" stroke=\"");
            write_escaped(out, colour.as_str());
            out.append("\">\n");
            write_markers(out, *marker, *size, points);
            out.append("</g>\n");
        },
        Primitive::Rect { points, fill } => {
            let across = extend_over(None, points, Axis::X);
            let down = extend_over(None, points, Axis::Y);
            let (x, y, width, height): (i128, i128, i128, i128) = match (across, down) {
                (Some((left, right)), Some((top, bottom))) => (
                    left as i128,
                    top as i128,
                    right as i128 - left as i128,
                    bottom as i128 - top as i128,
                ),
                _ => (0, 0, 0, 0),
            };
            out.append("<rect x=\"");
            write_decimal(out, x);
            out.append("\" y=\"");
            write_decimal(out, y);
            out.append("\" width=\"");
            write_decimal(out, width);
            out.append("\" height=\"");
            write_decimal(out, height);
            out.append("\" fill=\"");
            write_escaped(out, fill.as_str());
            out.append("\"/>\n");
        },
    }
    assert(out@ =~= old(out)@ + shape_text(shape@));
}

/// The document of a canvas of the given size with `shapes` on it.
pub fn document(width: u32, height: u32, shapes: &Vec<Primitive>) -> (text: String)
    ensures
        text@ == document_text(width as int, height as int, models(shapes@)),
{
    let mut text = String::new();
    text.append("<svg xmlns=\"http://www.w3.org/2000/svg\" width=\"");
    write_decimal(&mut text, width as i128);
    text.append("\" height=\"");
    write_decimal(&mut text, height as i128);
    text.append("\" viewBox=\"0 0 ");
    write_decimal(&mut text, width as i128);
    text.append(" ");
    write_decimal(&mut text, height as i128);
    text.append("\">\n");
    let ghost head = text@;
    let mut i: usize = 0;
    assert(text@ =~= head + shapes_text(models(shapes@).take(0)));
    while i < shapes.len()
        invariant
            i <= shapes.len(),
            text@ == head + shapes_text(models(shapes@).take(i as int)),
        decreases shapes.len() - i,
    {
        write_shape(&mut text, &shapes[i]);
        proof {
            let all = models(shapes@);
            assert(all.take(i + 1).drop_last() == all.take(i as int));
            assert(all.take(i + 1).last() == shapes@[i as int]@);
            assert(text@ =~= head + shapes_text(all.take(i + 1)));
        }
        i += 1;
    }
    proof {
        assert(models(shapes@).take(shapes.len() as int) == models(shapes@));
    }
    text.append("</svg>\n");
    assert(text@ =~= document_text(width as int, height as int, models(shapes@)));
    text
}

impl Page {
    /// The page as an SVG document: a canvas of the page's size with the
    /// page's shapes on it, in their order.
    pub fn to_svg(&self) -> (text: String)
        ensures
            text@ == document_text(self@.width as int, self@.height as int, self@.shapes()),
    {
        let shapes = self.primitives();
        document(self.get_width(), self.get_height(), &shapes)
    }
}

/// The node of a box depends on which points the box has, not on their
/// order.
pub proof fn lemma_box_ignores_order(a: Seq<(i64, i64)>, b: Seq<(i64, i64)>, fill: Seq<char>)
    requires
        forall|p: (i64, i64)| a.contains(p) <==> b.contains(p),
    ensures
        bounds(a) == bounds(b),
        shape_text(PrimitiveModel::Rect { points: a, fill }) == shape_text(
            PrimitiveModel::Rect { points: b, fill },
        ),
{
    lemma_extent_ignores_order(a, b, Axis::X);
    lemma_extent_ignores_order(a, b, Axis::Y);
}

/// Writing a page is deterministic: whatever two writings of the same page
/// return is the same text.
pub proof fn lemma_document_deterministic(page: Page, first: String, second: String)
    requires
        call_ensures(Page::to_svg, (&page,), first),
        call_ensures(Page::to_svg, (&page,), second),
    ensures
        first@ == second@,
{
}

} // verus!
