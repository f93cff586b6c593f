use plotlib::style::{
    BoxStyle, LineStyle, PointMarker, PointStyle, ResolvedBoxStyle, ResolvedLineStyle,
    ResolvedPointStyle,
};

fn line(colour: Option<&str>, width: Option<u32>) -> LineStyle {
    let mut style = LineStyle::new();
    if let Some(c) = colour {
        style.colour(c);
    }
    if let Some(w) = width {
        style.width(w);
    }
    style
}

fn point(marker: Option<PointMarker>, colour: Option<&str>, size: Option<u32>) -> PointStyle {
    let mut style = PointStyle::new();
    if let Some(m) = marker {
        style.marker(m);
    }
    if let Some(c) = colour {
        style.colour(c);
    }
    if let Some(s) = size {
        style.size(s);
    }
    style
}

fn text(s: &str) -> Option<String> {
    Some(s.to_string())
}

#[test]
fn new_styles_have_nothing_set() {
    let line = LineStyle::new();
    assert_eq!(line.get_colour(), &None);
    assert_eq!(line.get_width(), &None);
    let point = PointStyle::new();
    assert_eq!(point.get_marker(), &None);
    assert_eq!(point.get_colour(), &None);
    assert_eq!(point.get_size(), &None);
    let boxed = BoxStyle::new();
    assert_eq!(boxed.get_fill(), &None);
}

#[test]
fn default_styles_have_nothing_set() {
    let line = LineStyle::default();
    assert_eq!(line.get_colour(), &None);
    assert_eq!(line.get_width(), &None);
    let point = PointStyle::default();
    assert_eq!(point.get_marker(), &None);
    assert_eq!(point.get_colour(), &None);
    assert_eq!(point.get_size(), &None);
    assert_eq!(BoxStyle::default().get_fill(), &None);
}

#[test]
fn setters_chain_and_last_call_wins() {
    let mut line = LineStyle::new();
    line.colour("red").width(3u8).colour(String::from("blue"));
    assert_eq!(line.get_colour(), &text("blue"));
    assert_eq!(line.get_width(), &Some(3));
    let mut point = PointStyle::new();
    point.marker(PointMarker::Cross).colour("green").size(7u16);
    assert_eq!(point.get_marker(), &Some(PointMarker::Cross));
    assert_eq!(point.get_colour(), &text("green"));
    assert_eq!(point.get_size(), &Some(7));
    let mut boxed = BoxStyle::new();
    boxed.fill("burlywood");
    assert_eq!(boxed.get_fill(), &text("burlywood"));
}

#[test]
fn setting_a_value_again_is_the_same_as_setting_it_once() {
    let mut once = LineStyle::new();
    once.colour("red").width(4u32);
    let mut twice = LineStyle::new();
    twice.colour("red").width(4u32).colour("red").width(4u32);
    assert_eq!(once.get_colour(), twice.get_colour());
    assert_eq!(once.get_width(), twice.get_width());
}

#[test]
fn plain_setters_store_the_value() {
    let mut line = LineStyle::new();
    line.set_colour("navy".to_string());
    line.set_width(9);
    assert_eq!(line.get_colour(), &text("navy"));
    assert_eq!(line.get_width(), &Some(9));
    let mut point = PointStyle::new();
    point.set_marker(PointMarker::Square);
    point.set_colour("teal".to_string());
    point.set_size(0);
    assert_eq!(point.get_marker(), &Some(PointMarker::Square));
    assert_eq!(point.get_colour(), &text("teal"));
    assert_eq!(point.get_size(), &Some(0));
    let mut boxed = BoxStyle::new();
    boxed.set_fill(String::new());
    assert_eq!(boxed.get_fill(), &text(""));
}

#[test]
fn a_value_set_to_zero_or_empty_is_still_set() {
    let mut base = line(Some("red"), Some(3));
    base.overlay(&line(Some(""), Some(0)));
    assert_eq!(base.get_colour(), &text(""));
    assert_eq!(base.get_width(), &Some(0));
}

#[test]
fn overlaying_the_unset_style_changes_nothing() {
    let mut s = line(Some("red"), Some(3));
    s.overlay(&LineStyle::new());
    assert_eq!(s.get_colour(), &text("red"));
    assert_eq!(s.get_width(), &Some(3));
    let mut p = point(Some(PointMarker::Cross), Some("blue"), Some(2));
    p.overlay(&PointStyle::new());
    assert_eq!(p.get_marker(), &Some(PointMarker::Cross));
    assert_eq!(p.get_colour(), &text("blue"));
    assert_eq!(p.get_size(), &Some(2));
    let mut b = BoxStyle::new();
    b.fill("green");
    b.overlay(&BoxStyle::new());
    assert_eq!(b.get_fill(), &text("green"));
}

#[test]
fn overlaying_onto_the_unset_style_gives_the_donor() {
    let mut s = LineStyle::new();
    s.overlay(&line(Some("red"), None));
    assert_eq!(s.get_colour(), &text("red"));
    assert_eq!(s.get_width(), &None);
    let mut p = PointStyle::new();
    p.overlay(&point(None, Some("blue"), Some(2)));
    assert_eq!(p.get_marker(), &None);
    assert_eq!(p.get_colour(), &text("blue"));
    assert_eq!(p.get_size(), &Some(2));
    let mut b = BoxStyle::new();
    let mut donor = BoxStyle::new();
    donor.fill("green");
    b.overlay(&donor);
    assert_eq!(b.get_fill(), &text("green"));
}

#[test]
fn overlay_keeps_what_the_donor_leaves_unset() {
    let mut a = line(Some("red"), None);
    let b = line(None, Some(4));
    a.overlay(&b);
    assert_eq!(a.get_colour(), &text("red"));
    assert_eq!(a.get_width(), &Some(4));
    assert_eq!(b.get_colour(), &None);
    assert_eq!(b.get_width(), &Some(4));
}

#[test]
fn overlay_replaces_what_the_donor_sets() {
    let mut a = point(Some(PointMarker::Circle), Some("red"), Some(1));
    a.overlay(&point(Some(PointMarker::Square), None, Some(8)));
    assert_eq!(a.get_marker(), &Some(PointMarker::Square));
    assert_eq!(a.get_colour(), &text("red"));
    assert_eq!(a.get_size(), &Some(8));
}

#[test]
fn of_three_layers_the_last_that_sets_a_colour_wins() {
    let colours = [None, Some("x")];
    for a in colours {
        for b in [None, Some("y")] {
            for c in [None, Some("z")] {
                let mut s = line(a, None);
                s.overlay(&line(b, None));
                s.overlay(&line(c, None));
                let expected = c.or(b).or(a).map(|v| v.to_string());
                assert_eq!(s.get_colour(), &expected);
            }
        }
    }
}

#[test]
fn overlay_is_associative() {
    let a = line(Some("a"), Some(1));
    let b = line(None, Some(2));
    let c = line(Some("c"), None);
    let mut left = a.clone();
    left.overlay(&b);
    left.overlay(&c);
    let mut bc = b.clone();
    bc.overlay(&c);
    let mut right = a.clone();
    right.overlay(&bc);
    assert_eq!(left.get_colour(), right.get_colour());
    assert_eq!(left.get_width(), right.get_width());
    assert_eq!(left.get_colour(), &text("c"));
    assert_eq!(left.get_width(), &Some(2));
}

#[test]
fn clone_keeps_every_attribute() {
    let p = point(Some(PointMarker::Cross), Some("blue"), None);
    let q = p.clone();
    assert_eq!(q.get_marker(), &Some(PointMarker::Cross));
    assert_eq!(q.get_colour(), &text("blue"));
    assert_eq!(q.get_size(), &None);
}

#[test]
fn cascade_without_any_opinion_is_the_fallback() {
    let l = ResolvedLineStyle::cascade(&LineStyle::new(), &LineStyle::new());
    assert_eq!(l.colour, "black");
    assert_eq!(l.width, 2);
    let p = ResolvedPointStyle::cascade(&PointStyle::new(), &PointStyle::new());
    assert_eq!(p.marker, PointMarker::Circle);
    assert_eq!(p.colour, "black");
    assert_eq!(p.size, 5);
    let b = ResolvedBoxStyle::cascade(&BoxStyle::new(), &BoxStyle::new());
    assert_eq!(b.fill, "burlywood");
    let f = ResolvedLineStyle::fallback();
    assert_eq!((f.colour.as_str(), f.width), ("black", 2));
    let f = ResolvedPointStyle::fallback();
    assert_eq!((f.marker, f.colour.as_str(), f.size), (PointMarker::Circle, "black", 5));
    assert_eq!(ResolvedBoxStyle::fallback().fill, "burlywood");
}

#[test]
fn cascade_prefers_the_element_then_the_view_then_the_fallback() {
    let view = line(Some("red"), Some(7));
    let own = line(Some("blue"), None);
    let l = ResolvedLineStyle::cascade(&view, &own);
    assert_eq!(l.colour, "blue");
    assert_eq!(l.width, 7);
    let l = ResolvedLineStyle::cascade(&LineStyle::new(), &line(None, Some(1)));
    assert_eq!(l.colour, "black");
    assert_eq!(l.width, 1);
    let view = point(Some(PointMarker::Square), None, None);
    let own = point(None, Some("green"), None);
    let p = ResolvedPointStyle::cascade(&view, &own);
    assert_eq!(p.marker, PointMarker::Square);
    assert_eq!(p.colour, "green");
    assert_eq!(p.size, 5);
    let mut view = BoxStyle::new();
    view.fill("grey");
    let b = ResolvedBoxStyle::cascade(&view, &BoxStyle::new());
    assert_eq!(b.fill, "grey");
}

#[test]
fn cascade_gives_the_same_values_each_time() {
    let view = line(Some("red"), None);
    let own = line(None, Some(3));
    let first = ResolvedLineStyle::cascade(&view, &own);
    let second = ResolvedLineStyle::cascade(&view, &own);
    let third = ResolvedLineStyle::cascade(&view, &own);
    assert_eq!(first.colour, second.colour);
    assert_eq!(first.width, second.width);
    assert_eq!(second.colour, third.colour);
    assert_eq!(second.width, third.width);
    assert_eq!(view.get_colour(), &text("red"));
    assert_eq!(own.get_width(), &Some(3));
}

#[test]
fn resolved_overlay_replaces_only_what_the_layer_sets() {
    let mut drawn = ResolvedPointStyle::fallback();
    drawn.overlay(&point(Some(PointMarker::Cross), None, Some(9)));
    assert_eq!(drawn.marker, PointMarker::Cross);
    assert_eq!(drawn.colour, "black");
    assert_eq!(drawn.size, 9);
    let mut drawn = ResolvedBoxStyle::fallback();
    drawn.overlay(&BoxStyle::new());
    assert_eq!(drawn.fill, "burlywood");
}
