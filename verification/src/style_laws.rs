//! What holds of overlaying and cascading styles, proved once for all
//! records.

use crate::style::{
    overlay_slot, BoxStyle, BoxStyleModel, LineStyle, LineStyleModel, PointMarker, PointStyle,
    PointStyleModel, ResolvedBoxStyle, ResolvedLineStyle, ResolvedPointStyle,
};
use vstd::prelude::*;

verus! {

/// An unset attribute is neutral on either side of the merge, the merge is
/// associative, and of three layers the last one that sets the attribute
/// gives its value.
pub proof fn lemma_slot<T>(a: Option<T>, b: Option<T>, c: Option<T>)
    ensures
        overlay_slot(a, None) == a,
        overlay_slot(None, a) == a,
        overlay_slot(overlay_slot(a, b), c) == overlay_slot(a, overlay_slot(b, c)),
        overlay_slot(overlay_slot(a, b), c) == (if c is Some {
            c
        } else if b is Some {
            b
        } else {
            a
        }),
        a is Some ==> overlay_slot(a, b) is Some,
{
}

/// Overlaying the unset line style changes nothing, and overlaying a style
/// onto the unset one gives that style.
pub proof fn lemma_line_overlay_identity(s: LineStyleModel)
    ensures
        s.overlay(LineStyleModel::unset()) == s,
        LineStyleModel::unset().overlay(s) == s,
{
}

/// Overlaying the unset point style changes nothing, and overlaying a style
/// onto the unset one gives that style.
pub proof fn lemma_point_overlay_identity(s: PointStyleModel)
    ensures
        s.overlay(PointStyleModel::unset()) == s,
        PointStyleModel::unset().overlay(s) == s,
{
}

/// Overlaying the unset box style changes nothing, and overlaying a style
/// onto the unset one gives that style.
pub proof fn lemma_box_overlay_identity(s: BoxStyleModel)
    ensures
        s.overlay(BoxStyleModel::unset()) == s,
        BoxStyleModel::unset().overlay(s) == s,
{
}

/// Each attribute of a line is merged on its own: one that the donor leaves
/// unset keeps the receiver's value, whatever else the donor sets, and one
/// that the donor sets takes the donor's value.
pub proof fn lemma_line_overlay_fieldwise(a: LineStyleModel, b: LineStyleModel)
    ensures
        b.colour is None ==> a.overlay(b).colour == a.colour,
        b.colour is Some ==> a.overlay(b).colour == b.colour,
        b.width is None ==> a.overlay(b).width == a.width,
        b.width is Some ==> a.overlay(b).width == b.width,
{
}

/// A line style that sets only a colour, overlaid by one that sets only a
/// width, has the colour of the first and the width of the second.
pub proof fn lemma_line_colour_then_width(a: LineStyleModel, b: LineStyleModel)
    requires
        a.colour is Some,
        a.width is None,
        b.colour is None,
        b.width is Some,
    ensures
        a.overlay(b).colour == a.colour,
        a.overlay(b).width == b.width,
        a.overlay(b).complete(),
{
}

/// Each attribute of a point style is merged on its own: one that the donor
/// leaves unset keeps the receiver's value, whatever else the donor sets,
/// and one that the donor sets takes the donor's value.
pub proof fn lemma_point_overlay_fieldwise(a: PointStyleModel, b: PointStyleModel)
    ensures
        b.marker is None ==> a.overlay(b).marker == a.marker,
        b.marker is Some ==> a.overlay(b).marker == b.marker,
        b.colour is None ==> a.overlay(b).colour == a.colour,
        b.colour is Some ==> a.overlay(b).colour == b.colour,
        b.size is None ==> a.overlay(b).size == a.size,
        b.size is Some ==> a.overlay(b).size == b.size,
{
}

/// The fill of a box keeps the receiver's value where the donor leaves it
/// unset, and takes the donor's value where the donor sets it.
pub proof fn lemma_box_overlay_fieldwise(a: BoxStyleModel, b: BoxStyleModel)
    ensures
        b.fill is None ==> a.overlay(b).fill == a.fill,
        b.fill is Some ==> a.overlay(b).fill == b.fill,
{
}

/// Of three line styles overlaid in turn, the last one that sets an
/// attribute gives its value; so overlaying is associative.
pub proof fn lemma_line_last_writer_wins(a: LineStyleModel, b: LineStyleModel, c: LineStyleModel)
    ensures
        a.overlay(b).overlay(c).colour == (if c.colour is Some {
            c.colour
        } else if b.colour is Some {
            b.colour
        } else {
            a.colour
        }),
        a.overlay(b).overlay(c).width == (if c.width is Some {
            c.width
        } else if b.width is Some {
            b.width
        } else {
            a.width
        }),
        a.overlay(b).overlay(c) == a.overlay(b.overlay(c)),
{
}

/// Of three point styles overlaid in turn, the last one that sets an
/// attribute gives its value; so overlaying is associative.
pub proof fn lemma_point_last_writer_wins(a: PointStyleModel, b: PointStyleModel, c: PointStyleModel)
    ensures
        a.overlay(b).overlay(c).marker == (if c.marker is Some {
            c.marker
        } else if b.marker is Some {
            b.marker
        } else {
            a.marker
        }),
        a.overlay(b).overlay(c).colour == (if c.colour is Some {
            c.colour
        } else if b.colour is Some {
            b.colour
        } else {
            a.colour
        }),
        a.overlay(b).overlay(c).size == (if c.size is Some {
            c.size
        } else if b.size is Some {
            b.size
        } else {
            a.size
        }),
        a.overlay(b).overlay(c) == a.overlay(b.overlay(c)),
{
}

/// Of three box styles overlaid in turn, the last one that sets the fill
/// gives its value; so overlaying is associative.
pub proof fn lemma_box_last_writer_wins(a: BoxStyleModel, b: BoxStyleModel, c: BoxStyleModel)
    ensures
        a.overlay(b).overlay(c).fill == (if c.fill is Some {
            c.fill
        } else if b.fill is Some {
            b.fill
        } else {
            a.fill
        }),
        a.overlay(b).overlay(c) == a.overlay(b.overlay(c)),
{
}

/// The cascade of a line's style sets every attribute: to the element's
/// value where the element sets it, else to the view's, else to the
/// fallback. With nothing set in either layer it is the fallback itself.
pub proof fn lemma_line_cascade(view_level: LineStyleModel, element_level: LineStyleModel)
    ensures
        LineStyleModel::cascade(view_level, element_level).complete(),
        LineStyleModel::cascade(view_level, element_level).colour == overlay_slot(
            overlay_slot(LineStyleModel::fallback().colour, view_level.colour),
            element_level.colour,
        ),
        LineStyleModel::cascade(view_level, element_level).width == overlay_slot(
            overlay_slot(LineStyleModel::fallback().width, view_level.width),
            element_level.width,
        ),
        LineStyleModel::cascade(LineStyleModel::unset(), LineStyleModel::unset())
            == LineStyleModel::fallback(),
{
}

/// The cascade of a point style sets every attribute: to the element's
/// value where the element sets it, else to the view's, else to the
/// fallback. With nothing set in either layer it is the fallback itself.
pub proof fn lemma_point_cascade(view_level: PointStyleModel, element_level: PointStyleModel)
    ensures
        PointStyleModel::cascade(view_level, element_level).complete(),
        PointStyleModel::cascade(view_level, element_level).marker == overlay_slot(
            overlay_slot(PointStyleModel::fallback().marker, view_level.marker),
            element_level.marker,
        ),
        PointStyleModel::cascade(view_level, element_level).colour == overlay_slot(
            overlay_slot(PointStyleModel::fallback().colour, view_level.colour),
            element_level.colour,
        ),
        PointStyleModel::cascade(view_level, element_level).size == overlay_slot(
            overlay_slot(PointStyleModel::fallback().size, view_level.size),
            element_level.size,
        ),
        PointStyleModel::cascade(PointStyleModel::unset(), PointStyleModel::unset())
            == PointStyleModel::fallback(),
{
}

/// The cascade of a box style sets the fill: to the element's value where
/// the element sets it, else to the view's, else to the fallback. With
/// nothing set in either layer it is the fallback itself.
pub proof fn lemma_box_cascade(view_level: BoxStyleModel, element_level: BoxStyleModel)
    ensures
        BoxStyleModel::cascade(view_level, element_level).complete(),
        BoxStyleModel::cascade(view_level, element_level).fill == overlay_slot(
            overlay_slot(BoxStyleModel::fallback().fill, view_level.fill),
            element_level.fill,
        ),
        BoxStyleModel::cascade(BoxStyleModel::unset(), BoxStyleModel::unset())
            == BoxStyleModel::fallback(),
{
}

/// Setting an attribute of a line is overlaying the style that sets that
/// attribute alone. So of two values set in turn the second stays, and
/// setting a value twice is setting it once.
pub proof fn lemma_line_setters(s: LineStyleModel, a: Seq<char>, b: Seq<char>, v: u32, w: u32)
    ensures
        s.with_colour(a) == s.overlay(LineStyleModel::unset().with_colour(a)),
        s.with_width(v) == s.overlay(LineStyleModel::unset().with_width(v)),
        s.with_colour(a).with_colour(b) == s.with_colour(b),
        s.with_width(v).with_width(w) == s.with_width(w),
        s.with_colour(a).with_width(v) == s.with_width(v).with_colour(a),
{
}

/// Setting an attribute of a point style is overlaying the style that sets
/// that attribute alone. So of two values set in turn the second stays, and
/// setting a value twice is setting it once.
pub proof fn lemma_point_setters(
    s: PointStyleModel,
    m: PointMarker,
    n: PointMarker,
    a: Seq<char>,
    b: Seq<char>,
    v: u32,
    w: u32,
)
    ensures
        s.with_marker(m) == s.overlay(PointStyleModel::unset().with_marker(m)),
        s.with_colour(a) == s.overlay(PointStyleModel::unset().with_colour(a)),
        s.with_size(v) == s.overlay(PointStyleModel::unset().with_size(v)),
        s.with_marker(m).with_marker(n) == s.with_marker(n),
        s.with_colour(a).with_colour(b) == s.with_colour(b),
        s.with_size(v).with_size(w) == s.with_size(w),
{
}

/// Setting the fill of a box is overlaying the style that sets the fill. So
/// of two fills set in turn the second stays, and setting a fill twice is
/// setting it once.
pub proof fn lemma_box_setters(s: BoxStyleModel, a: Seq<char>, b: Seq<char>)
    ensures
        s.with_fill(a) == s.overlay(BoxStyleModel::unset().with_fill(a)),
        s.with_fill(a).with_fill(b) == s.with_fill(b),
{
}

/// Resolving a line's style is deterministic: whatever two resolutions from
/// the same two layers return holds the same values.
pub proof fn lemma_line_cascade_deterministic(
    view_level: LineStyle,
    element_level: LineStyle,
    first: ResolvedLineStyle,
    second: ResolvedLineStyle,
)
    requires
        call_ensures(ResolvedLineStyle::cascade, (&view_level, &element_level), first),
        call_ensures(ResolvedLineStyle::cascade, (&view_level, &element_level), second),
    ensures
        first@ == second@,
        first.colour@ == second.colour@,
        first.width == second.width,
{
}

/// Resolving a point style is deterministic: whatever two resolutions from
/// the same two layers return holds the same values.
pub proof fn lemma_point_cascade_deterministic(
    view_level: PointStyle,
    element_level: PointStyle,
    first: ResolvedPointStyle,
    second: ResolvedPointStyle,
)
    requires
        call_ensures(ResolvedPointStyle::cascade, (&view_level, &element_level), first),
        call_ensures(ResolvedPointStyle::cascade, (&view_level, &element_level), second),
    ensures
        first@ == second@,
        first.marker == second.marker,
        first.colour@ == second.colour@,
        first.size == second.size,
{
}

/// Resolving a box style is deterministic: whatever two resolutions from
/// the same two layers return holds the same fill.
pub proof fn lemma_box_cascade_deterministic(
    view_level: BoxStyle,
    element_level: BoxStyle,
    first: ResolvedBoxStyle,
    second: ResolvedBoxStyle,
)
    requires
        call_ensures(ResolvedBoxStyle::cascade, (&view_level, &element_level), first),
        call_ensures(ResolvedBoxStyle::cascade, (&view_level, &element_level), second),
    ensures
        first@ == second@,
        first.fill@ == second.fill@,
{
}

} // verus!
