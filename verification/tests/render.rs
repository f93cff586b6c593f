use plotlib::axis::AxisRange;
use plotlib::element::{BoxArea, Element, Line, Scatter};
use plotlib::page::Page;
use plotlib::render::{place_point, place_points, Frame, Primitive};
use plotlib::style::{BoxStyle, LineStyle, PointMarker, PointStyle};
use plotlib::view::ContinuousView;

fn whole(width: u32, height: u32) -> Frame {
    Frame { left: 0, top: 0, width, height }
}

fn points_of(shape: &Primitive) -> &Vec<(i64, i64)> {
    match shape {
        Primitive::Path { points, .. } => points,
        Primitive::Markers { points, .. } => points,
        Primitive::Rect { points, .. } => points,
    }
}

#[test]
fn a_point_is_placed_from_the_left_and_from_the_bottom() {
    let x = AxisRange::new(0, 10).unwrap();
    let y = AxisRange::new(0, 10).unwrap();
    let frame = Frame { left: 100, top: 50, width: 200, height: 80 };
    assert_eq!(place_point(frame, &x, &y, (0, 0)), (100, 130));
    assert_eq!(place_point(frame, &x, &y, (10, 10)), (300, 50));
    assert_eq!(place_point(frame, &x, &y, (5, 5)), (200, 90));
    assert_eq!(place_point(frame, &x, &y, (1, 9)), (120, 58));
}

#[test]
fn a_point_outside_the_ranges_is_placed_on_the_edge_of_the_frame() {
    let x = AxisRange::new(0, 10).unwrap();
    let y = AxisRange::new(0, 10).unwrap();
    let frame = Frame { left: 100, top: 50, width: 200, height: 80 };
    assert_eq!(place_point(frame, &x, &y, (-5, 20)), (100, 50));
    assert_eq!(place_point(frame, &x, &y, (i64::MAX, i64::MIN)), (300, 130));
}

#[test]
fn placing_copes_with_the_largest_frame() {
    let x = AxisRange::new(0, 1).unwrap();
    let y = AxisRange::new(0, 1).unwrap();
    let frame = Frame { left: u32::MAX, top: u32::MAX, width: u32::MAX, height: u32::MAX };
    assert_eq!(place_point(frame, &x, &y, (1, 0)), (8589934590, 8589934590));
    assert_eq!(place_point(frame, &x, &y, (0, 1)), (4294967295, 4294967295));
}

#[test]
fn points_are_placed_in_their_order() {
    let x = AxisRange::new(0, 4).unwrap();
    let y = AxisRange::new(0, 2).unwrap();
    let placed = place_points(whole(40, 20), &x, &y, &vec![(4, 0), (0, 2), (2, 1), (4, 0)]);
    assert_eq!(placed, vec![(40, 20), (0, 0), (20, 10), (40, 20)]);
    assert_eq!(place_points(whole(40, 20), &x, &y, &Vec::new()), Vec::new());
}

#[test]
fn a_line_is_drawn_through_its_points_in_their_order() {
    let mut style = LineStyle::new();
    style.colour("burlywood");
    let line = Line::new(&[(0, 1000), (2000, 1500), (3000, 1200), (4000, 1100)]).style(&style);
    let view = ContinuousView::new().add(Element::Line(line));
    let shapes = view.primitives(whole(600, 400));
    assert_eq!(
        shapes,
        vec![Primitive::Path {
            points: vec![(27, 382), (300, 19), (436, 237), (572, 309)],
            colour: "burlywood".to_string(),
            width: 2,
        }]
    );
}

#[test]
fn a_view_is_drawn_as_one_shape_for_each_element() {
    let view = ContinuousView::new()
        .add(Element::Line(Line::new(&[(0, 0), (1, 1), (2, 2)])))
        .add(Element::Scatter(Scatter::new(&[(0, 2)])))
        .add(Element::BoxArea(BoxArea::new(&[(0, 0), (2, 1)])))
        .add(Element::Line(Line::new(&[])))
        .add(Element::Scatter(Scatter::new(&[(1, 1), (1, 1)])));
    let shapes = view.primitives(whole(300, 300));
    assert_eq!(shapes.len(), 5);
    let counts: Vec<usize> = shapes.iter().map(|s| points_of(s).len()).collect();
    assert_eq!(counts, vec![3, 1, 2, 0, 2]);
    assert!(matches!(shapes[0], Primitive::Path { .. }));
    assert!(matches!(shapes[1], Primitive::Markers { .. }));
    assert!(matches!(shapes[2], Primitive::Rect { .. }));
    assert!(matches!(shapes[3], Primitive::Path { .. }));
    assert!(matches!(shapes[4], Primitive::Markers { .. }));
}

#[test]
fn an_empty_view_is_drawn_as_nothing() {
    assert_eq!(ContinuousView::new().primitives(whole(10, 10)), Vec::new());
}

#[test]
fn an_element_without_style_is_drawn_with_the_fallback() {
    let view = ContinuousView::new()
        .add(Element::Line(Line::new(&[(0, 0)])))
        .add(Element::Scatter(Scatter::new(&[(0, 0)])))
        .add(Element::BoxArea(BoxArea::new(&[(0, 0)])));
    let shapes = view.primitives(whole(2, 2));
    assert_eq!(
        shapes,
        vec![
            Primitive::Path { points: vec![(1, 1)], colour: "black".to_string(), width: 2 },
            Primitive::Markers {
                points: vec![(1, 1)],
                marker: PointMarker::Circle,
                colour: "black".to_string(),
                size: 5,
            },
            Primitive::Rect { points: vec![(1, 1)], fill: "burlywood".to_string() },
        ]
    );
}

#[test]
fn the_style_of_an_element_wins_over_that_of_its_view() {
    let mut shared = PointStyle::new();
    shared.colour("red").size(3u32);
    let mut own = PointStyle::new();
    own.colour("blue").marker(PointMarker::Square);
    let mut fill = BoxStyle::new();
    fill.fill("grey");
    let view = ContinuousView::new()
        .point_style(&shared)
        .box_style(&fill)
        .add(Element::Scatter(Scatter::new(&[(0, 0)]).style(&own)))
        .add(Element::Scatter(Scatter::new(&[(0, 0)])))
        .add(Element::BoxArea(BoxArea::new(&[(0, 0)])));
    let shapes = view.primitives(whole(2, 2));
    assert_eq!(
        shapes,
        vec![
            Primitive::Markers {
                points: vec![(1, 1)],
                marker: PointMarker::Square,
                colour: "blue".to_string(),
                size: 3,
            },
            Primitive::Markers {
                points: vec![(1, 1)],
                marker: PointMarker::Circle,
                colour: "red".to_string(),
                size: 3,
            },
            Primitive::Rect { points: vec![(1, 1)], fill: "grey".to_string() },
        ]
    );
}

#[test]
fn a_style_set_on_the_view_after_adding_still_applies() {
    let mut red = LineStyle::new();
    red.colour("red");
    let view = ContinuousView::new().add(Element::Line(Line::new(&[(0, 0)]))).line_style(&red);
    let shapes = view.primitives(whole(2, 2));
    assert_eq!(
        shapes,
        vec![Primitive::Path { points: vec![(1, 1)], colour: "red".to_string(), width: 2 }]
    );
}

#[test]
fn every_point_is_drawn_inside_its_frame() {
    let frame = Frame { left: 10, top: 20, width: 7, height: 3 };
    let view = ContinuousView::new()
        .add(Element::Line(Line::new(&[(i64::MIN, 0), (0, i64::MAX), (i64::MAX, i64::MIN)])))
        .add(Element::Scatter(Scatter::new(&[(5, 5), (-5, -5)])));
    for shape in view.primitives(frame) {
        for &(x, y) in points_of(&shape) {
            assert!(10 <= x && x <= 17);
            assert!(20 <= y && y <= 23);
        }
    }
}

#[test]
fn a_single_view_fills_the_page() {
    let page = Page::single(ContinuousView::new());
    assert_eq!((page.get_width(), page.get_height()), (600, 400));
    assert_eq!(page.frame(0), Some(whole(600, 400)));
    assert_eq!(page.frame(1), None);
    let page = page.dimensions(31, 17);
    assert_eq!(page.frame(0), Some(whole(31, 17)));
}

#[test]
fn an_empty_page_has_no_frame_and_no_shape() {
    let page = Page::empty();
    assert_eq!((page.get_width(), page.get_height()), (600, 400));
    assert!(page.views().is_empty());
    assert_eq!(page.frame(0), None);
    assert_eq!(page.frame(usize::MAX), None);
    assert_eq!(page.primitives(), Vec::new());
}

#[test]
fn views_are_stacked_from_the_top_in_bands_that_share_the_height() {
    let page = Page::empty()
        .add_plot(ContinuousView::new())
        .add_plot(ContinuousView::new())
        .add_plot(ContinuousView::new())
        .dimensions(50, 100);
    assert_eq!(page.views().len(), 3);
    assert_eq!(page.frame(0), Some(Frame { left: 0, top: 0, width: 50, height: 33 }));
    assert_eq!(page.frame(1), Some(Frame { left: 0, top: 33, width: 50, height: 33 }));
    assert_eq!(page.frame(2), Some(Frame { left: 0, top: 66, width: 50, height: 34 }));
    assert_eq!(page.frame(3), None);
    let two = Page::single(ContinuousView::new()).add_plot(ContinuousView::new());
    assert_eq!(two.frame(0), Some(Frame { left: 0, top: 0, width: 600, height: 200 }));
    assert_eq!(two.frame(1), Some(Frame { left: 0, top: 200, width: 600, height: 200 }));
}

#[test]
fn bands_cope_with_a_canvas_lower_than_the_number_of_views() {
    let page = Page::empty()
        .add_plot(ContinuousView::new())
        .add_plot(ContinuousView::new())
        .add_plot(ContinuousView::new())
        .dimensions(u32::MAX, 2);
    assert_eq!(page.frame(0), Some(Frame { left: 0, top: 0, width: u32::MAX, height: 0 }));
    assert_eq!(page.frame(1), Some(Frame { left: 0, top: 0, width: u32::MAX, height: 1 }));
    assert_eq!(page.frame(2), Some(Frame { left: 0, top: 1, width: u32::MAX, height: 1 }));
    let flat = Page::single(ContinuousView::new()).dimensions(0, 0);
    assert_eq!(flat.frame(0), Some(whole(0, 0)));
}

#[test]
fn a_page_is_drawn_view_after_view() {
    let upper = ContinuousView::new()
        .add(Element::Line(Line::new(&[(0, 0), (10, 10)])))
        .add(Element::Scatter(Scatter::new(&[(5, 5)])));
    let lower = ContinuousView::new().add(Element::BoxArea(BoxArea::new(&[(0, 0), (10, 10)])));
    let page = Page::single(upper).add_plot(ContinuousView::new()).add_plot(lower).dimensions(
        120, 300,
    );
    let shapes = page.primitives();
    assert_eq!(
        shapes,
        vec![
            Primitive::Path { points: vec![(10, 92), (110, 9)], colour: "black".to_string(), width: 2 },
            Primitive::Markers {
                points: vec![(60, 50)],
                marker: PointMarker::Circle,
                colour: "black".to_string(),
                size: 5,
            },
            Primitive::Rect { points: vec![(10, 292), (110, 209)], fill: "burlywood".to_string() },
        ]
    );
}
