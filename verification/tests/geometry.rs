use whiteboard::geometry::{
    bounding_box, translated_points, Point2, Polygon2D, Rectangle, Vector2,
};
use whiteboard::path::{Arc, Path, PathCommand};
use whiteboard::style::{dashes_to_text, Color, ShapeStyle, Stroke, TextStyle};

fn corners(r: &Rectangle) -> Vec<(i32, i32)> {
    let a = r.top_left();
    let b = r.opposite();
    let mut all = vec![(a.x, a.y), (b.x, b.y), (a.x, b.y), (b.x, a.y)];
    all.sort();
    all.dedup();
    all
}

#[test]
fn rectangle_extents_are_signed() {
    let r = Rectangle::spanning(Point2::new(50, 50), Point2::new(20, 10));
    assert_eq!(r.top_left(), Point2::new(50, 50));
    assert_eq!(r.width(), -30);
    assert_eq!(r.height(), -40);
    let made = Rectangle::new(Point2::new(50, 50), -30, -40).unwrap();
    assert_eq!(made, r);
}

#[test]
fn rectangle_canonicalisation() {
    let cases = [
        Rectangle::spanning(Point2::new(50, 50), Point2::new(20, 10)),
        Rectangle::spanning(Point2::new(10, 10), Point2::new(40, 30)),
        Rectangle::spanning(Point2::new(10, 30), Point2::new(40, 10)),
        Rectangle::spanning(Point2::new(40, 10), Point2::new(10, 30)),
        Rectangle::zero_sized(Point2::new(-5, 7)),
        Rectangle::spanning(Point2::new(i32::MAX, i32::MIN), Point2::new(i32::MIN, i32::MAX)),
    ];
    for r in cases.iter() {
        let a = r.absolute_sized();
        assert!(a.width() >= 0);
        assert!(a.height() >= 0);
        assert_eq!(corners(&a), corners(r));
        assert_eq!(a.absolute_sized(), a);
    }
    let inverted = Rectangle::spanning(Point2::new(50, 50), Point2::new(20, 10)).absolute_sized();
    assert_eq!(inverted.top_left(), Point2::new(20, 10));
    assert_eq!(inverted.width(), 30);
    assert_eq!(inverted.height(), 40);
    let widest =
        Rectangle::spanning(Point2::new(i32::MAX, 0), Point2::new(i32::MIN, 0)).absolute_sized();
    assert_eq!(widest.width(), 4294967295);
}

#[test]
fn rectangle_outside_the_plane_is_refused() {
    assert!(Rectangle::new(Point2::new(i32::MAX, 0), 1, 0).is_none());
    assert!(Rectangle::new(Point2::new(0, i32::MIN), 0, -1).is_none());
    assert!(Rectangle::new(Point2::new(0, 0), i64::MAX, 0).is_none());
    assert!(Rectangle::new(Point2::new(0, 0), i64::MIN, i64::MIN).is_none());
    assert!(Rectangle::new(Point2::new(i32::MAX, i32::MAX), 0, 0).is_some());
    assert!(Rectangle::new(Point2::new(i32::MIN, 0), 4294967295, 0).is_some());
}

#[test]
fn rectangle_contains_its_border() {
    let r = Rectangle::spanning(Point2::new(40, 30), Point2::new(10, 10));
    assert!(r.contains(Point2::new(10, 10)));
    assert!(r.contains(Point2::new(40, 30)));
    assert!(r.contains(Point2::new(15, 15)));
    assert!(!r.contains(Point2::new(9, 15)));
    assert!(!r.contains(Point2::new(41, 15)));
    assert!(!r.contains(Point2::new(15, 31)));
}

#[test]
fn points_move_within_the_plane_only() {
    let p = Point2::new(5, -5);
    assert_eq!(p.translated(Vector2 { dx: -10, dy: 10 }), Some(Point2::new(-5, 5)));
    assert_eq!(p.translated(Vector2 { dx: i32::MAX as i64, dy: 0 }), None);
    assert_eq!(p.translated(Vector2 { dx: i64::MAX, dy: i64::MIN }), None);
    assert_eq!(
        Point2::new(i32::MIN, i32::MAX).displacement_to(Point2::new(i32::MAX, i32::MIN)),
        Vector2 { dx: 4294967295, dy: -4294967295 }
    );
    let r = Rectangle::spanning(Point2::new(0, 0), Point2::new(10, 10));
    assert_eq!(
        r.translated(Vector2 { dx: 1, dy: 2 }),
        Some(Rectangle::spanning(Point2::new(1, 2), Point2::new(11, 12)))
    );
    assert_eq!(r.translated(Vector2 { dx: i32::MAX as i64 - 9, dy: 0 }), None);
}

#[test]
fn bounding_boxes() {
    assert_eq!(bounding_box(&vec![]), None);
    assert_eq!(
        bounding_box(&vec![Point2::new(3, 4)]),
        Some(Rectangle::zero_sized(Point2::new(3, 4)))
    );
    assert_eq!(
        bounding_box(&vec![Point2::new(3, 4), Point2::new(-1, 9), Point2::new(2, -7)]),
        Some(Rectangle::spanning(Point2::new(-1, -7), Point2::new(3, 9)))
    );
}

#[test]
fn point_sequences_move_all_or_nothing() {
    let points = vec![Point2::new(0, 0), Point2::new(i32::MAX, 0)];
    assert_eq!(translated_points(&points, Vector2 { dx: 1, dy: 0 }), None);
    assert_eq!(
        translated_points(&points, Vector2 { dx: -1, dy: 5 }),
        Some(vec![Point2::new(-1, 5), Point2::new(i32::MAX - 1, 5)])
    );
    let mut polygon = Polygon2D::empty();
    polygon.push(Point2::new(1, 2));
    polygon.push(Point2::new(3, 4));
    assert_eq!(polygon.vertices(), &vec![Point2::new(1, 2), Point2::new(3, 4)]);
}

#[test]
fn path_text_in_svg_notation() {
    assert_eq!(Path::empty().to_svg_path(), "");
    let path = Path::new(vec![
        PathCommand::MoveTo(Point2::new(10, -20)),
        PathCommand::LineTo(Point2::new(30, 40)),
        PathCommand::HorizontalLineTo(-5),
        PathCommand::VerticalLineTo(6),
        PathCommand::BezierTo(Point2::new(1, 2), Point2::new(3, 4), Point2::new(5, 6)),
        PathCommand::ArcTo(Arc {
            radius_x: 7,
            radius_y: 8,
            rotation: -90,
            large_arc: true,
            sweep: false,
            to: Point2::new(9, 10),
        }),
        PathCommand::Close,
    ]);
    assert_eq!(
        path.to_svg_path(),
        "M 10 -20 L 30 40 H -5 V 6 C 1 2 3 4 5 6 A 7 8 -90 1 0 9 10 Z"
    );
    assert_eq!(
        path.points(),
        vec![
            Point2::new(10, -20),
            Point2::new(30, 40),
            Point2::new(1, 2),
            Point2::new(3, 4),
            Point2::new(5, 6),
            Point2::new(9, 10),
        ]
    );
}

#[test]
fn paths_move_all_or_nothing() {
    let path = Path::new(vec![
        PathCommand::MoveTo(Point2::new(0, 0)),
        PathCommand::HorizontalLineTo(i32::MAX),
        PathCommand::VerticalLineTo(3),
        PathCommand::Close,
    ]);
    assert!(path.translated(Vector2 { dx: 1, dy: 0 }).is_none());
    let moved = path.translated(Vector2 { dx: -2, dy: 5 }).unwrap();
    assert_eq!(
        moved.commands(),
        &vec![
            PathCommand::MoveTo(Point2::new(-2, 5)),
            PathCommand::HorizontalLineTo(i32::MAX - 2),
            PathCommand::VerticalLineTo(8),
            PathCommand::Close,
        ]
    );
}

#[test]
fn colours_in_hexadecimal() {
    assert_eq!(Color::black().to_hex(), "#000000ff");
    assert_eq!(Color::transparent().to_hex(), "#00000000");
    assert_eq!(Color::new(255, 160, 9, 16).to_hex(), "#ffa00910");
    assert_eq!(Color::new(18, 52, 86, 120).to_hex(), "#12345678");
}

#[test]
fn default_styles() {
    let shape = ShapeStyle::default();
    assert_eq!(shape.fill_color, Color::transparent());
    assert_eq!(shape.stroke, Stroke::new(Color::black(), 1, vec![]));
    assert_eq!(shape.duplicate(), shape);
    let text = TextStyle::default();
    assert_eq!(text.fill_color, Color::black());
    assert_eq!(text.font_face, "sans-serif");
    assert_eq!(text.font_size, 16);
    assert_eq!(text.stroke.width, 0);
    assert_eq!(text.duplicate(), text);
    assert_eq!(dashes_to_text(&vec![]), "");
    assert_eq!(dashes_to_text(&vec![4]), "4");
    assert_eq!(dashes_to_text(&vec![4, 1, 20]), "4 1 20");
}
