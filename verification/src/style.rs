//! How elements are drawn.
//!
//! Every style record follows the optional-builder pattern: each attribute
//! starts out unset, can be set on its own, and a whole record can be
//! overlaid onto another to set many attributes at once. An unset attribute
//! means "no opinion": it defers to a less specific layer, and only the
//! cascade at drawing time replaces it by the library's fallback.
//!
//! Lengths (stroke widths and marker sizes) are whole device units; a finer
//! canvas makes for finer lengths.

use vstd::prelude::*;

verus! {

/// Merges one attribute: a value that the donor sets replaces the base's,
/// an attribute that the donor leaves unset keeps the base's.
pub open spec fn overlay_slot<T>(base: Option<T>, donor: Option<T>) -> Option<T> {
    if donor is Some {
        donor
    } else {
        base
    }
}

/// The marker that is drawn at each point of a scatter plot.
#[derive(Debug, Clone, Copy, PartialEq, Eq, Structural)]
pub enum PointMarker {
    Circle,
    Square,
    Cross,
}

/// The attributes of a line, as plain values.
pub struct LineStyleModel {
    pub colour: Option<Seq<char>>,
    pub width: Option<u32>,
}

impl LineStyleModel {
    /// The record with no attribute set.
    pub open spec fn unset() -> Self {
        LineStyleModel { colour: None, width: None }
    }

    /// What a line falls back to where no layer has an opinion.
    pub open spec fn fallback() -> Self {
        LineStyleModel { colour: Some(FALLBACK_COLOUR@), width: Some(FALLBACK_WIDTH) }
    }

    /// Whether every attribute is set.
    pub open spec fn complete(self) -> bool {
        self.colour is Some && self.width is Some
    }

    /// The record with the colour set to `colour` and nothing else changed.
    pub open spec fn with_colour(self, colour: Seq<char>) -> Self {
        LineStyleModel { colour: Some(colour), ..self }
    }

    /// The record with the width set to `width` and nothing else changed.
    pub open spec fn with_width(self, width: u32) -> Self {
        LineStyleModel { width: Some(width), ..self }
    }

    /// The record in which every attribute that `donor` sets has the donor's
    /// value, and every other attribute keeps the value it has in `self`.
    pub open spec fn overlay(self, donor: Self) -> Self {
        LineStyleModel {
            colour: overlay_slot(self.colour, donor.colour),
            width: overlay_slot(self.width, donor.width),
        }
    }

    /// The style a line is drawn with: the fallback, overlaid by the view's
    /// style, overlaid by the element's own.
    pub open spec fn cascade(view_level: Self, element_level: Self) -> Self {
        Self::fallback().overlay(view_level).overlay(element_level)
    }
}

/// The attributes of a scatter plot's points, as plain values.
pub struct PointStyleModel {
    pub marker: Option<PointMarker>,
    pub colour: Option<Seq<char>>,
    pub size: Option<u32>,
}

impl PointStyleModel {
    /// The record with no attribute set.
    pub open spec fn unset() -> Self {
        PointStyleModel { marker: None, colour: None, size: None }
    }

    /// What points fall back to where no layer has an opinion.
    pub open spec fn fallback() -> Self {
        PointStyleModel {
            marker: Some(PointMarker::Circle),
            colour: Some(FALLBACK_COLOUR@),
            size: Some(FALLBACK_SIZE),
        }
    }

    /// Whether every attribute is set.
    pub open spec fn complete(self) -> bool {
        self.marker is Some && self.colour is Some && self.size is Some
    }

    /// The record with the marker set to `marker` and nothing else changed.
    pub open spec fn with_marker(self, marker: PointMarker) -> Self {
        PointStyleModel { marker: Some(marker), ..self }
    }

    /// The record with the colour set to `colour` and nothing else changed.
    pub open spec fn with_colour(self, colour: Seq<char>) -> Self {
        PointStyleModel { colour: Some(colour), ..self }
    }

    /// The record with the size set to `size` and nothing else changed.
    pub open spec fn with_size(self, size: u32) -> Self {
        PointStyleModel { size: Some(size), ..self }
    }

    /// The record in which every attribute that `donor` sets has the donor's
    /// value, and every other attribute keeps the value it has in `self`.
    pub open spec fn overlay(self, donor: Self) -> Self {
        PointStyleModel {
            marker: overlay_slot(self.marker, donor.marker),
            colour: overlay_slot(self.colour, donor.colour),
            size: overlay_slot(self.size, donor.size),
        }
    }

    /// The style points are drawn with: the fallback, overlaid by the view's
    /// style, overlaid by the element's own.
    pub open spec fn cascade(view_level: Self, element_level: Self) -> Self {
        Self::fallback().overlay(view_level).overlay(element_level)
    }
}

/// The attributes of a box, as plain values.
pub struct BoxStyleModel {
    pub fill: Option<Seq<char>>,
}

impl BoxStyleModel {
    /// The record with no attribute set.
    pub open spec fn unset() -> Self {
        BoxStyleModel { fill: None }
    }

    /// What a box falls back to where no layer has an opinion.
    pub open spec fn fallback() -> Self {
        BoxStyleModel { fill: Some(FALLBACK_FILL@) }
    }

    /// Whether every attribute is set.
    pub open spec fn complete(self) -> bool {
        self.fill is Some
    }

    /// The record with the fill set to `fill`.
    pub open spec fn with_fill(self, fill: Seq<char>) -> Self {
        BoxStyleModel { fill: Some(fill), ..self }
    }

    /// The record in which every attribute that `donor` sets has the donor's
    /// value, and every other attribute keeps the value it has in `self`.
    pub open spec fn overlay(self, donor: Self) -> Self {
        BoxStyleModel { fill: overlay_slot(self.fill, donor.fill) }
    }

    /// The style a box is drawn with: the fallback, overlaid by the view's
    /// style, overlaid by the element's own.
    pub open spec fn cascade(view_level: Self, element_level: Self) -> Self {
        Self::fallback().overlay(view_level).overlay(element_level)
    }
}

/// The colour of lines and points where no layer sets one.
pub const FALLBACK_COLOUR: &'static str = "black";

/// The fill of boxes where no layer sets one.
pub const FALLBACK_FILL: &'static str = "burlywood";

/// The stroke width of lines where no layer sets one.
pub const FALLBACK_WIDTH: u32 = 2;

/// The marker size of points where no layer sets one.
pub const FALLBACK_SIZE: u32 = 5;

/// An optional string as an optional sequence of characters.
pub open spec fn text_of(slot: Option<String>) -> Option<Seq<char>> {
    match slot {
        Some(s) => Some(s@),
        None => None,
    }
}

fn overlay_text(base: &mut Option<String>, donor: &Option<String>)
    ensures
        text_of(*final(base)) == overlay_slot(text_of(*old(base)), text_of(*donor)),
{
    if let Some(ref v) = *donor {
        *base = Some(v.clone())
    }
}

fn cloned_text(slot: &Option<String>) -> (copy: Option<String>)
    ensures
        text_of(copy) == text_of(*slot),
{
    match slot {
        Some(s) => Some(s.clone()),
        None => None,
    }
}

/// How a line is drawn.
#[derive(Debug)]
pub struct LineStyle {
    colour: Option<String>,
    width: Option<u32>,
}

impl View for LineStyle {
    type V = LineStyleModel;

    closed spec fn view(&self) -> LineStyleModel {
        LineStyleModel { colour: text_of(self.colour), width: self.width }
    }
}

impl Default for LineStyle {
    fn default() -> (style: Self)
        ensures
            style@ == LineStyleModel::unset(),
    {
        LineStyle::new()
    }
}

impl Clone for LineStyle {
    fn clone(&self) -> (copy: Self)
        ensures
            copy@ == self@,
    {
        LineStyle { colour: cloned_text(&self.colour), width: self.width }
    }
}

impl LineStyle {
    /// The style with no attribute set.
    pub fn new() -> (style: Self)
        ensures
            style@ == LineStyleModel::unset(),
    {
        LineStyle { colour: None, width: None }
    }

    /// Copies into `self` every attribute that `other` sets, and leaves the
    /// rest of `self` as it is.
    pub fn overlay(&mut self, other: &Self)
        ensures
            final(self)@ == old(self)@.overlay(other@),
    {
        overlay_text(&mut self.colour, &other.colour);
        if let Some(ref v) = other.width {
            self.width = Some(*v)
        }
    }

    /// Sets the colour to `value`.
    pub fn set_colour(&mut self, value: String)
        ensures
            final(self)@ == old(self)@.with_colour(value@),
    {
        self.colour = Some(value);
    }

    /// Sets the colour to what `value` converts into, and hands the style
    /// back for the next setter.
    pub fn colour<T>(&mut self, value: T) -> (ret: &mut Self) where T: Into<String>
        ensures
            exists|s: String|
                ({
                    &&& #[trigger] call_ensures(<T as Into<String>>::into, (value,), s)
                    &&& ret@ == old(self)@.with_colour(s@)
                }),
            *final(self) == *final(ret),
    {
        self.set_colour(value.into());
        self
    }

    /// The colour, if it is set.
    pub fn get_colour(&self) -> (colour: &Option<String>)
        ensures
            text_of(*colour) == self@.colour,
    {
        &self.colour
    }

    /// Sets the stroke width to `value`.
    pub fn set_width(&mut self, value: u32)
        ensures
            final(self)@ == old(self)@.with_width(value),
    {
        self.width = Some(value);
    }

    /// Sets the stroke width to what `value` converts into, and hands the
    /// style back for the next setter.
    pub fn width<T>(&mut self, value: T) -> (ret: &mut Self) where T: Into<u32>
        ensures
            exists|w: u32|
                ({
                    &&& #[trigger] call_ensures(<T as Into<u32>>::into, (value,), w)
                    &&& ret@ == old(self)@.with_width(w)
                }),
            *final(self) == *final(ret),
    {
        self.set_width(value.into());
        self
    }

    /// The stroke width, if it is set.
    pub fn get_width(&self) -> (width: &Option<u32>)
        ensures
            *width == self@.width,
    {
        &self.width
    }

}

/// The values a line is drawn with: a line style with every attribute set.
#[derive(Debug, Clone)]
pub struct ResolvedLineStyle {
    pub colour: String,
    pub width: u32,
}

impl View for ResolvedLineStyle {
    type V = LineStyleModel;

    open spec fn view(&self) -> LineStyleModel {
        LineStyleModel { colour: Some(self.colour@), width: Some(self.width) }
    }
}

impl ResolvedLineStyle {
    /// What a line is drawn with where no layer has an opinion.
    pub fn fallback() -> (drawn: Self)
        ensures
            drawn@ == LineStyleModel::fallback(),
    {
        ResolvedLineStyle { colour: FALLBACK_COLOUR.to_owned(), width: FALLBACK_WIDTH }
    }

    /// Replaces every value that `layer` sets, and keeps the rest.
    pub fn overlay(&mut self, layer: &LineStyle)
        ensures
            final(self)@ == old(self)@.overlay(layer@),
    {
        if let Some(ref v) = layer.colour {
            self.colour = v.clone()
        }
        if let Some(v) = layer.width {
            self.width = v
        }
    }

    /// Resolves what a line is drawn with: the fallback, overlaid by the
    /// view's style, overlaid by the element's own. The result depends on
    /// the two layers alone.
    pub fn cascade(view_level: &LineStyle, element_level: &LineStyle) -> (drawn: Self)
        ensures
            drawn@ == LineStyleModel::cascade(view_level@, element_level@),
    {
        let mut drawn = ResolvedLineStyle::fallback();
        drawn.overlay(view_level);
        drawn.overlay(element_level);
        drawn
    }
}

/// How the points of a scatter plot are drawn.
#[derive(Debug)]
pub struct PointStyle {
    marker: Option<PointMarker>,
    colour: Option<String>,
    size: Option<u32>,
}

impl View for PointStyle {
    type V = PointStyleModel;

    closed spec fn view(&self) -> PointStyleModel {
        PointStyleModel { marker: self.marker, colour: text_of(self.colour), size: self.size }
    }
}

impl Default for PointStyle {
    fn default() -> (style: Self)
        ensures
            style@ == PointStyleModel::unset(),
    {
        PointStyle::new()
    }
}

impl Clone for PointStyle {
    fn clone(&self) -> (copy: Self)
        ensures
            copy@ == self@,
    {
        PointStyle { marker: self.marker, colour: cloned_text(&self.colour), size: self.size }
    }
}

impl PointStyle {
    /// The style with no attribute set.
    pub fn new() -> (style: Self)
        ensures
            style@ == PointStyleModel::unset(),
    {
        PointStyle { marker: None, colour: None, size: None }
    }

    /// Copies into `self` every attribute that `other` sets, and leaves the
    /// rest of `self` as it is.
    pub fn overlay(&mut self, other: &Self)
        ensures
            final(self)@ == old(self)@.overlay(other@),
    {
        if let Some(ref v) = other.marker {
            self.marker = Some(*v)
        }
        overlay_text(&mut self.colour, &other.colour);
        if let Some(v) = other.size {
            self.size = Some(v)
        }
    }

    /// Sets the marker to `value`.
    pub fn set_marker(&mut self, value: PointMarker)
        ensures
            final(self)@ == old(self)@.with_marker(value),
    {
        self.marker = Some(value);
    }

    /// Sets the marker to what `value` converts into, and hands the style
    /// back for the next setter.
    pub fn marker<T>(&mut self, value: T) -> (ret: &mut Self) where T: Into<PointMarker>
        ensures
            exists|m: PointMarker|
                ({
                    &&& #[trigger] call_ensures(<T as Into<PointMarker>>::into, (value,), m)
                    &&& ret@ == old(self)@.with_marker(m)
                }),
            *final(self) == *final(ret),
    {
        self.set_marker(value.into());
        self
    }

    /// The marker, if it is set.
    pub fn get_marker(&self) -> (marker: &Option<PointMarker>)
        ensures
            *marker == self@.marker,
    {
        &self.marker
    }

    /// Sets the colour to `value`.
    pub fn set_colour(&mut self, value: String)
        ensures
            final(self)@ == old(self)@.with_colour(value@),
    {
        self.colour = Some(value);
    }

    /// Sets the colour to what `value` converts into, and hands the style
    /// back for the next setter.
    pub fn colour<T>(&mut self, value: T) -> (ret: &mut Self) where T: Into<String>
        ensures
            exists|s: String|
                ({
                    &&& #[trigger] call_ensures(<T as Into<String>>::into, (value,), s)
                    &&& ret@ == old(self)@.with_colour(s@)
                }),
            *final(self) == *final(ret),
    {
        self.set_colour(value.into());
        self
    }

    /// The colour, if it is set.
    pub fn get_colour(&self) -> (colour: &Option<String>)
        ensures
            text_of(*colour) == self@.colour,
    {
        &self.colour
    }

    /// Sets the marker size to `value`.
    pub fn set_size(&mut self, value: u32)
        ensures
            final(self)@ == old(self)@.with_size(value),
    {
        self.size = Some(value);
    }

    /// Sets the marker size to what `value` converts into, and hands the
    /// style back for the next setter.
    pub fn size<T>(&mut self, value: T) -> (ret: &mut Self) where T: Into<u32>
        ensures
            exists|z: u32|
                ({
                    &&& #[trigger] call_ensures(<T as Into<u32>>::into, (value,), z)
                    &&& ret@ == old(self)@.with_size(z)
                }),
            *final(self) == *final(ret),
    {
        self.set_size(value.into());
        self
    }

    /// The marker size, if it is set.
    pub fn get_size(&self) -> (size: &Option<u32>)
        ensures
            *size == self@.size,
    {
        &self.size
    }

}

/// The values points are drawn with: a point style with every attribute
/// set.
#[derive(Debug, Clone)]
pub struct ResolvedPointStyle {
    pub marker: PointMarker,
    pub colour: String,
    pub size: u32,
}

impl View for ResolvedPointStyle {
    type V = PointStyleModel;

    open spec fn view(&self) -> PointStyleModel {
        PointStyleModel {
            marker: Some(self.marker),
            colour: Some(self.colour@),
            size: Some(self.size),
        }
    }
}

impl ResolvedPointStyle {
    /// What points are drawn with where no layer has an opinion.
    pub fn fallback() -> (drawn: Self)
        ensures
            drawn@ == PointStyleModel::fallback(),
    {
        ResolvedPointStyle {
            marker: PointMarker::Circle,
            colour: FALLBACK_COLOUR.to_owned(),
            size: FALLBACK_SIZE,
        }
    }

    /// Replaces every value that `layer` sets, and keeps the rest.
    pub fn overlay(&mut self, layer: &PointStyle)
        ensures
            final(self)@ == old(self)@.overlay(layer@),
    {
        if let Some(v) = layer.marker {
            self.marker = v
        }
        if let Some(ref v) = layer.colour {
            self.colour = v.clone()
        }
        if let Some(v) = layer.size {
            self.size = v
        }
    }

    /// Resolves what points are drawn with: the fallback, overlaid by the
    /// view's style, overlaid by the element's own. The result depends on
    /// the two layers alone.
    pub fn cascade(view_level: &PointStyle, element_level: &PointStyle) -> (drawn: Self)
        ensures
            drawn@ == PointStyleModel::cascade(view_level@, element_level@),
    {
        let mut drawn = ResolvedPointStyle::fallback();
        drawn.overlay(view_level);
        drawn.overlay(element_level);
        drawn
    }
}

/// How a box is filled.
#[derive(Debug)]
pub struct BoxStyle {
    fill: Option<String>,
}

impl View for BoxStyle {
    type V = BoxStyleModel;

    closed spec fn view(&self) -> BoxStyleModel {
        BoxStyleModel { fill: text_of(self.fill) }
    }
}

impl Default for BoxStyle {
    fn default() -> (style: Self)
        ensures
            style@ == BoxStyleModel::unset(),
    {
        BoxStyle::new()
    }
}

impl Clone for BoxStyle {
    fn clone(&self) -> (copy: Self)
        ensures
            copy@ == self@,
    {
        BoxStyle { fill: cloned_text(&self.fill) }
    }
}

impl BoxStyle {
    /// The style with no attribute set.
    pub fn new() -> (style: Self)
        ensures
            style@ == BoxStyleModel::unset(),
    {
        BoxStyle { fill: None }
    }

    /// Copies into `self` every attribute that `other` sets, and leaves the
    /// rest of `self` as it is.
    pub fn overlay(&mut self, other: &Self)
        ensures
            final(self)@ == old(self)@.overlay(other@),
    {
        overlay_text(&mut self.fill, &other.fill);
    }

    /// Sets the fill to `value`.
    pub fn set_fill(&mut self, value: String)
        ensures
            final(self)@ == old(self)@.with_fill(value@),
    {
        self.fill = Some(value);
    }

    /// Sets the fill to what `value` converts into, and hands the style back
    /// for the next setter.
    pub fn fill<T>(&mut self, value: T) -> (ret: &mut Self) where T: Into<String>
        ensures
            exists|s: String|
                ({
                    &&& #[trigger] call_ensures(<T as Into<String>>::into, (value,), s)
                    &&& ret@ == old(self)@.with_fill(s@)
                }),
            *final(self) == *final(ret),
    {
        self.set_fill(value.into());
        self
    }

    /// The fill, if it is set.
    pub fn get_fill(&self) -> (fill: &Option<String>)
        ensures
            text_of(*fill) == self@.fill,
    {
        &self.fill
    }

}

/// The values a box is drawn with: a box style with every attribute set.
#[derive(Debug, Clone)]
pub struct ResolvedBoxStyle {
    pub fill: String,
}

impl View for ResolvedBoxStyle {
    type V = BoxStyleModel;

    open spec fn view(&self) -> BoxStyleModel {
        BoxStyleModel { fill: Some(self.fill@) }
    }
}

impl ResolvedBoxStyle {
    /// What a box is drawn with where no layer has an opinion.
    pub fn fallback() -> (drawn: Self)
        ensures
            drawn@ == BoxStyleModel::fallback(),
    {
        ResolvedBoxStyle { fill: FALLBACK_FILL.to_owned() }
    }

    /// Replaces the fill where `layer` sets it, and keeps it where not.
    pub fn overlay(&mut self, layer: &BoxStyle)
        ensures
            final(self)@ == old(self)@.overlay(layer@),
    {
        if let Some(ref v) = layer.fill {
            self.fill = v.clone()
        }
    }

    /// Resolves what a box is drawn with: the fallback, overlaid by the
    /// view's style, overlaid by the element's own. The result depends on
    /// the two layers alone.
    pub fn cascade(view_level: &BoxStyle, element_level: &BoxStyle) -> (drawn: Self)
        ensures
            drawn@ == BoxStyleModel::cascade(view_level@, element_level@),
    {
        let mut drawn = ResolvedBoxStyle::fallback();
        drawn.overlay(view_level);
        drawn.overlay(element_level);
        drawn
    }
}

} // verus!
