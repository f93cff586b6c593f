use plotlib::element::{BoxArea, Element, Line, Scatter};
use plotlib::page::Page;
use plotlib::render::Primitive;
use plotlib::style::{LineStyle, PointMarker};
use plotlib::svg::{document, write_shape};
use plotlib::text::{decimal, write_decimal, write_escaped, write_natural};
use plotlib::view::ContinuousView;

fn escaped(text: &str) -> String {
    let mut out = String::new();
    write_escaped(&mut out, text);
    out
}

fn node(shape: &Primitive) -> String {
    let mut out = String::new();
    write_shape(&mut out, shape);
    out
}

#[test]
fn whole_numbers_are_written_in_decimal_digits() {
    assert_eq!(decimal(0), "0");
    assert_eq!(decimal(7), "7");
    assert_eq!(decimal(10), "10");
    assert_eq!(decimal(1234567890), "1234567890");
    assert_eq!(decimal(-1), "-1");
    assert_eq!(decimal(-4096), "-4096");
    assert_eq!(decimal(i128::MAX), "170141183460469231731687303715884105727");
    assert_eq!(decimal(i128::MIN), "-170141183460469231731687303715884105728");
    assert_eq!(decimal(i64::MIN as i128), i64::MIN.to_string());
}

#[test]
fn numbers_are_appended_to_what_is_there() {
    let mut out = String::from("n=");
    write_natural(&mut out, 0);
    write_natural(&mut out, 905);
    write_decimal(&mut out, -12);
    write_natural(&mut out, u128::MAX);
    assert_eq!(out, "n=0905-12340282366920938463463374607431768211455");
}

#[test]
fn characters_with_a_meaning_in_markup_are_escaped() {
    assert_eq!(escaped("a<b>\"c\"&'d'"), "a&lt;b&gt;&quot;c&quot;&amp;&apos;d&apos;");
    assert_eq!(escaped("\"/><script>"), "&quot;/&gt;&lt;script&gt;");
    assert_eq!(escaped("&amp;"), "&amp;amp;");
}

#[test]
fn other_text_is_escaped_to_itself() {
    assert_eq!(escaped(""), "");
    assert_eq!(escaped("burlywood"), "burlywood");
    assert_eq!(escaped("rgb(10, 20%, 30)"), "rgb(10, 20%, 30)");
    assert_eq!(escaped("#ff00aa"), "#ff00aa");
    assert_eq!(escaped("gr\u{fc}n \u{1f600}"), "gr\u{fc}n \u{1f600}");
    let mut out = String::from("x");
    write_escaped(&mut out, "y<");
    assert_eq!(out, "xy&lt;");
}

#[test]
fn a_path_is_written_as_a_polyline() {
    let shape = Primitive::Path {
        points: vec![(27, 382), (300, 19), (436, 237), (572, 309)],
        colour: "burlywood".to_string(),
        width: 2,
    };
    assert_eq!(
        node(&shape),
        "<polyline fill=\"none\" stroke=\"burlywood\" stroke-width=\"2\" \
         points=\"27,382 300,19 436,237 572,309\"/>\n"
    );
    let single = Primitive::Path { points: vec![(-1, 0)], colour: String::new(), width: 0 };
    assert_eq!(
        node(&single),
        "<polyline fill=\"none\" stroke=\"\" stroke-width=\"0\" points=\"-1,0\"/>\n"
    );
    let none = Primitive::Path { points: Vec::new(), colour: "a\"b".to_string(), width: 1 };
    assert_eq!(
        node(&none),
        "<polyline fill=\"none\" stroke=\"a&quot;b\" stroke-width=\"1\" points=\"\"/>\n"
    );
}

#[test]
fn markers_are_written_as_a_group_with_one_node_for_each_point() {
    let circles = Primitive::Markers {
        points: vec![(10, 20), (30, 40)],
        marker: PointMarker::Circle,
        colour: "red".to_string(),
        size: 5,
    };
    assert_eq!(
        node(&circles),
        "<g fill=\"red\" stroke=\"red\">\n\
         <circle cx=\"10\" cy=\"20\" r=\"5\"/>\n\
         <circle cx=\"30\" cy=\"40\" r=\"5\"/>\n\
         </g>\n"
    );
    let squares = Primitive::Markers {
        points: vec![(10, 2)],
        marker: PointMarker::Square,
        colour: "<".to_string(),
        size: 3,
    };
    assert_eq!(
        node(&squares),
        "<g fill=\"&lt;\" stroke=\"&lt;\">\n\
         <rect x=\"7\" y=\"-1\" width=\"6\" height=\"6\"/>\n\
         </g>\n"
    );
    let crosses = Primitive::Markers {
        points: vec![(10, 2)],
        marker: PointMarker::Cross,
        colour: "blue".to_string(),
        size: 4,
    };
    assert_eq!(
        node(&crosses),
        "<g fill=\"blue\" stroke=\"blue\">\n\
         <path d=\"M6,-2 L14,6 M6,6 L14,-2\"/>\n\
         </g>\n"
    );
    let none = Primitive::Markers {
        points: Vec::new(),
        marker: PointMarker::Cross,
        colour: "blue".to_string(),
        size: 4,
    };
    assert_eq!(node(&none), "<g fill=\"blue\" stroke=\"blue\">\n</g>\n");
}

#[test]
fn markers_cope_with_the_largest_size_at_the_furthest_point() {
    let shape = Primitive::Markers {
        points: vec![(i64::MAX, i64::MIN)],
        marker: PointMarker::Square,
        colour: "c".to_string(),
        size: u32::MAX,
    };
    assert_eq!(
        node(&shape),
        "<g fill=\"c\" stroke=\"c\">\n\
         <rect x=\"9223372032559808512\" y=\"-9223372041149743103\" \
         width=\"8589934590\" height=\"8589934590\"/>\n\
         </g>\n"
    );
}

#[test]
fn a_box_is_written_as_the_rectangle_that_spans_its_points() {
    let shape = Primitive::Rect { points: vec![(10, 292), (110, 209)], fill: "grey".to_string() };
    let text = "<rect x=\"10\" y=\"209\" width=\"100\" height=\"83\" fill=\"grey\"/>\n";
    assert_eq!(node(&shape), text);
    let turned = Primitive::Rect { points: vec![(110, 209), (10, 292)], fill: "grey".to_string() };
    assert_eq!(node(&turned), text);
    let more = Primitive::Rect {
        points: vec![(50, 250), (110, 292), (10, 209), (60, 260)],
        fill: "grey".to_string(),
    };
    assert_eq!(node(&more), text);
    let point = Primitive::Rect { points: vec![(3, 4)], fill: "grey".to_string() };
    assert_eq!(node(&point), "<rect x=\"3\" y=\"4\" width=\"0\" height=\"0\" fill=\"grey\"/>\n");
    let none = Primitive::Rect { points: Vec::new(), fill: "grey".to_string() };
    assert_eq!(node(&none), "<rect x=\"0\" y=\"0\" width=\"0\" height=\"0\" fill=\"grey\"/>\n");
    let widest = Primitive::Rect {
        points: vec![(i64::MIN, i64::MAX), (i64::MAX, i64::MIN)],
        fill: "grey".to_string(),
    };
    assert_eq!(
        node(&widest),
        "<rect x=\"-9223372036854775808\" y=\"-9223372036854775808\" \
         width=\"18446744073709551615\" height=\"18446744073709551615\" fill=\"grey\"/>\n"
    );
}

#[test]
fn a_document_opens_with_the_size_of_the_canvas() {
    assert_eq!(
        document(600, 400, &Vec::new()),
        "<svg xmlns=\"http://www.w3.org/2000/svg\" width=\"600\" height=\"400\" \
         viewBox=\"0 0 600 400\">\n</svg>\n"
    );
    assert_eq!(
        document(0, u32::MAX, &Vec::new()),
        "<svg xmlns=\"http://www.w3.org/2000/svg\" width=\"0\" height=\"4294967295\" \
         viewBox=\"0 0 0 4294967295\">\n</svg>\n"
    );
    assert_eq!(Page::empty().to_svg(), document(600, 400, &Vec::new()));
}

#[test]
fn a_document_holds_one_node_for_each_shape_in_their_order() {
    let shapes = vec![
        Primitive::Rect { points: vec![(1, 1)], fill: "a".to_string() },
        Primitive::Path { points: vec![(2, 2)], colour: "b".to_string(), width: 1 },
        Primitive::Rect { points: vec![(3, 3)], fill: "c".to_string() },
    ];
    assert_eq!(
        document(5, 6, &shapes),
        "<svg xmlns=\"http://www.w3.org/2000/svg\" width=\"5\" height=\"6\" viewBox=\"0 0 5 6\">\n\
         <rect x=\"1\" y=\"1\" width=\"0\" height=\"0\" fill=\"a\"/>\n\
         <polyline fill=\"none\" stroke=\"b\" stroke-width=\"1\" points=\"2,2\"/>\n\
         <rect x=\"3\" y=\"3\" width=\"0\" height=\"0\" fill=\"c\"/>\n\
         </svg>\n"
    );
}

#[test]
fn a_page_with_a_line_becomes_a_document_with_its_path() {
    let mut style = LineStyle::new();
    style.colour("burlywood");
    let line = Line::new(&[(0, 1000), (2000, 1500), (3000, 1200), (4000, 1100)]).style(&style);
    let view = ContinuousView::new().add(Element::Line(line));
    let text = Page::single(view).to_svg();
    assert_eq!(
        text,
        "<svg xmlns=\"http://www.w3.org/2000/svg\" width=\"600\" height=\"400\" \
         viewBox=\"0 0 600 400\">\n\
         <polyline fill=\"none\" stroke=\"burlywood\" stroke-width=\"2\" \
         points=\"27,382 300,19 436,237 572,309\"/>\n\
         </svg>\n"
    );
}

#[test]
fn a_page_of_two_views_becomes_a_document_with_the_nodes_of_both() {
    let upper = ContinuousView::new()
        .add(Element::Line(Line::new(&[(0, 0), (10, 10)])))
        .add(Element::Scatter(Scatter::new(&[(5, 5)])));
    let lower = ContinuousView::new().add(Element::BoxArea(BoxArea::new(&[(0, 0), (10, 10)])));
    let page = Page::single(upper).add_plot(lower).dimensions(120, 200);
    assert_eq!(
        page.to_svg(),
        "<svg xmlns=\"http://www.w3.org/2000/svg\" width=\"120\" height=\"200\" \
         viewBox=\"0 0 120 200\">\n\
         <polyline fill=\"none\" stroke=\"black\" stroke-width=\"2\" points=\"10,92 110,9\"/>\n\
         <g fill=\"black\" stroke=\"black\">\n\
         <circle cx=\"60\" cy=\"50\" r=\"5\"/>\n\
         </g>\n\
         <rect x=\"10\" y=\"109\" width=\"100\" height=\"83\" fill=\"burlywood\"/>\n\
         </svg>\n"
    );
}

#[test]
fn the_same_page_always_becomes_the_same_document() {
    let view = ContinuousView::new().add(Element::Scatter(Scatter::new(&[(1, 2), (3, 4)])));
    let page = Page::single(view);
    let first = page.to_svg();
    assert_eq!(page.to_svg(), first);
    assert_eq!(page.clone().to_svg(), first);
}
