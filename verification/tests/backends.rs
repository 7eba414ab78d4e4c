use whiteboard::element::id::Id;
use whiteboard::element::ElementType;
use whiteboard::entity::{Entity, FeatureSet, ShapeModel};
use whiteboard::geometry::{
    Circle, Ellipse, Point2, Polygon2D, Rectangle, Segment2D, Text,
};
use whiteboard::path::{Path, PathCommand};
use whiteboard::renderer::canvas_renderer::{CanvasOp, CanvasRenderer};
use whiteboard::renderer::svg_element::{
    to_svg, PropertyMap, SVGCircle, SVGElement, SVGLine, SVGRectangle, SVG,
};
use whiteboard::renderer::svg_renderer::{css_to_text, SVGRenderer, SvgNode};
use whiteboard::renderer::{NotFound, Renderer, RendererIncremental};
use whiteboard::style::{Color, ShapeStyle, Stroke, TextStyle};

fn style_ops(style: &ShapeStyle) -> Vec<CanvasOp> {
    vec![
        CanvasOp::SetFillStyle(style.fill_color.to_hex()),
        CanvasOp::SetStrokeStyle(style.stroke.color.to_hex()),
        CanvasOp::SetLineWidth(style.stroke.width),
        CanvasOp::SetLineDash(style.stroke.dash_array.clone()),
    ]
}

fn rectangle_entity(owner: &str, index: usize, from: (i32, i32), to: (i32, i32)) -> Entity {
    Entity::new(
        Id::new(owner, index, ElementType::Rectangle),
        ShapeModel::Rectangle {
            rectangle: Rectangle::spanning(Point2::new(from.0, from.1), Point2::new(to.0, to.1)),
            style: ShapeStyle::default(),
        },
        FeatureSet::standard(ElementType::Rectangle),
    )
    .unwrap()
}

fn attributes_of(node: &SvgNode) -> Vec<(String, String)> {
    let map = node.attributes();
    (0..map.len()).map(|i| (map.name_at(i).to_string(), map.value_at(i).to_string())).collect()
}

fn pairs(list: &[(&str, &str)]) -> Vec<(String, String)> {
    list.iter().map(|(name, value)| (name.to_string(), value.to_string())).collect()
}

#[test]
fn canvas_rectangle_is_filled_and_stroked() {
    let style = ShapeStyle::new(Color::new(1, 2, 3, 4), Stroke::new(Color::black(), 2, vec![4, 1]));
    let mut canvas = CanvasRenderer::new();
    assert!(canvas.directives().is_empty());
    canvas.rectangle(&Rectangle::spanning(Point2::new(50, 50), Point2::new(20, 10)), &style, None);
    let mut expected = vec![
        CanvasOp::SetFillStyle("#01020304".to_string()),
        CanvasOp::SetStrokeStyle("#000000ff".to_string()),
        CanvasOp::SetLineWidth(2),
        CanvasOp::SetLineDash(vec![4, 1]),
    ];
    expected.extend(vec![
        CanvasOp::BeginPath,
        CanvasOp::FillRect { x: 50, y: 50, width: -30, height: -40 },
        CanvasOp::Rect { x: 50, y: 50, width: -30, height: -40 },
        CanvasOp::Stroke,
    ]);
    assert_eq!(canvas.directives(), &expected);
}

#[test]
fn canvas_clear_discards_prior_paint() {
    let style = ShapeStyle::default();
    let mut canvas = CanvasRenderer::new();
    canvas.segment(&Segment2D::new(Point2::new(0, 0), Point2::new(1, 1)), &style, None);
    canvas.clear();
    assert_eq!(canvas.directives(), &vec![CanvasOp::Reset]);
    canvas.segment(&Segment2D::new(Point2::new(1, 2), Point2::new(3, 4)), &style, None);
    let mut expected = vec![CanvasOp::Reset];
    expected.extend(style_ops(&style));
    expected.extend(vec![
        CanvasOp::BeginPath,
        CanvasOp::MoveTo(Point2::new(1, 2)),
        CanvasOp::LineTo(Point2::new(3, 4)),
        CanvasOp::Stroke,
    ]);
    assert_eq!(canvas.directives(), &expected);
}

#[test]
fn canvas_polygon_walks_the_vertices_and_closes() {
    let style = ShapeStyle::default();
    let mut canvas = CanvasRenderer::new();
    canvas.polygon(
        &Polygon2D::new(vec![Point2::new(0, 0), Point2::new(10, 0), Point2::new(10, 10)]),
        &style,
        None,
    );
    canvas.polygon(&Polygon2D::empty(), &style, None);
    let mut expected = style_ops(&style);
    expected.extend(vec![
        CanvasOp::BeginPath,
        CanvasOp::MoveTo(Point2::new(0, 0)),
        CanvasOp::LineTo(Point2::new(10, 0)),
        CanvasOp::LineTo(Point2::new(10, 10)),
        CanvasOp::ClosePath,
        CanvasOp::Stroke,
    ]);
    expected.extend(style_ops(&style));
    expected.extend(vec![CanvasOp::BeginPath, CanvasOp::ClosePath, CanvasOp::Stroke]);
    assert_eq!(canvas.directives(), &expected);
}

#[test]
fn canvas_path_walks_moves_and_lines_only() {
    let style = ShapeStyle::default();
    let mut canvas = CanvasRenderer::new();
    canvas.path(
        &Path::new(vec![
            PathCommand::MoveTo(Point2::new(1, 1)),
            PathCommand::HorizontalLineTo(9),
            PathCommand::LineTo(Point2::new(2, 3)),
            PathCommand::VerticalLineTo(9),
            PathCommand::BezierTo(Point2::new(0, 0), Point2::new(0, 0), Point2::new(0, 0)),
            PathCommand::Close,
            PathCommand::LineTo(Point2::new(4, 5)),
        ]),
        &style,
        None,
    );
    let mut expected = style_ops(&style);
    expected.extend(vec![
        CanvasOp::BeginPath,
        CanvasOp::MoveTo(Point2::new(1, 1)),
        CanvasOp::LineTo(Point2::new(2, 3)),
        CanvasOp::LineTo(Point2::new(4, 5)),
        CanvasOp::Stroke,
    ]);
    assert_eq!(canvas.directives(), &expected);
}

#[test]
fn canvas_paints_nothing_for_what_it_does_not_draw() {
    let mut canvas = CanvasRenderer::new();
    canvas.clear();
    canvas.circle(&Circle { center: Point2::new(1, 1), radius: 5 }, &ShapeStyle::default(), None);
    canvas.ellipse(
        &Ellipse { center: Point2::new(1, 1), radius_x: 5, radius_y: 6 },
        &ShapeStyle::default(),
        None,
    );
    canvas.text(&Text::new("hello", Point2::new(0, 0)), &TextStyle::default(), None);
    assert_eq!(canvas.directives(), &vec![CanvasOp::Reset]);
}

#[test]
fn svg_primitives_append_fresh_nodes() {
    let style = ShapeStyle::default();
    let mut svg = SVGRenderer::new();
    svg.rectangle(&Rectangle::spanning(Point2::new(50, 50), Point2::new(20, 10)), &style, None);
    svg.segment(&Segment2D::new(Point2::new(-1, 2), Point2::new(3, -4)), &style, None);
    svg.polygon(
        &Polygon2D::new(vec![Point2::new(0, 0), Point2::new(10, 0), Point2::new(10, -10)]),
        &style,
        None,
    );
    svg.path(
        &Path::new(vec![
            PathCommand::MoveTo(Point2::new(1, 2)),
            PathCommand::LineTo(Point2::new(3, 4)),
        ]),
        &style,
        None,
    );
    svg.circle(&Circle { center: Point2::new(1, -1), radius: 5 }, &style, None);
    svg.ellipse(&Ellipse { center: Point2::new(2, 3), radius_x: 5, radius_y: 6 }, &style, None);
    svg.text(&Text::new("hello", Point2::new(7, 8)), &TextStyle::default(), None);

    let nodes = svg.nodes();
    assert_eq!(nodes.len(), 7);
    for node in nodes.iter() {
        assert_eq!(node.id(), None);
    }
    assert_eq!(nodes[0].tag(), "rect");
    assert_eq!(
        attributes_of(&nodes[0]),
        pairs(&[
            ("x", "20"),
            ("y", "10"),
            ("width", "30"),
            ("height", "40"),
            ("fill", "none"),
            ("stroke", "black"),
        ])
    );
    assert_eq!(nodes[1].tag(), "line");
    assert_eq!(
        attributes_of(&nodes[1]),
        pairs(&[
            ("stroke", "black"),
            ("stroke-dasharray", "4 1"),
            ("x1", "-1"),
            ("y1", "2"),
            ("x2", "3"),
            ("y2", "-4"),
        ])
    );
    assert_eq!(nodes[2].tag(), "polygon");
    assert_eq!(
        attributes_of(&nodes[2]),
        pairs(&[("stroke", "black"), ("fill", "none"), ("points", "0,0 10,0 10,-10")])
    );
    assert_eq!(nodes[3].tag(), "path");
    assert_eq!(
        attributes_of(&nodes[3]),
        pairs(&[("d", "M 1 2 L 3 4"), ("fill", "none"), ("stroke", "black")])
    );
    assert_eq!(nodes[4].tag(), "circle");
    assert_eq!(
        attributes_of(&nodes[4]),
        pairs(&[("cx", "1"), ("cy", "-1"), ("r", "5"), ("fill", "none"), ("stroke", "black")])
    );
    assert_eq!(nodes[5].tag(), "ellipse");
    assert_eq!(
        attributes_of(&nodes[5]),
        pairs(&[
            ("cx", "2"),
            ("cy", "3"),
            ("rx", "5"),
            ("ry", "6"),
            ("fill", "none"),
            ("stroke", "black"),
        ])
    );
    assert_eq!(nodes[6].tag(), "text");
    assert_eq!(nodes[6].content(), "hello");
    assert_eq!(attributes_of(&nodes[6]), pairs(&[("x", "7"), ("y", "8"), ("fill", "black")]));

    svg.clear();
    assert!(svg.nodes().is_empty());
}

#[test]
fn property_maps_set_in_place_or_at_the_end() {
    let mut map = PropertyMap::new();
    map.set("a", "1");
    map.set("b", "2");
    map.set("a", "3");
    assert_eq!(map.len(), 2);
    assert_eq!(map.name_at(0), "a");
    assert_eq!(map.value_at(0), "3");
    assert_eq!(map.get("b"), Some("2"));
    assert_eq!(map.get("c"), None);
    assert_eq!(map.position("b"), 1);
    assert_eq!(map.position("c"), 2);
    assert_eq!(css_to_text(&map), "a: 3; b: 2;");
    assert_eq!(css_to_text(&PropertyMap::new()), "");
}

#[test]
fn svg_elements_of_entities() {
    let rectangle = rectangle_entity("alice", 0, (40, 30), (10, 10));
    let element = to_svg(&rectangle).unwrap();
    assert_eq!(
        element.svg(),
        &SVG::Rectangle(SVGRectangle { x: 10, y: 10, width: 30, height: 20 })
    );
    assert_eq!(element.attributes().len(), 0);
    assert_eq!(
        css_to_text(element.css()),
        "fill: #00000000; stroke: #000000ff; stroke-width: 1;"
    );

    let dashed = Entity::new(
        Id::new("alice", 1, ElementType::Polygon),
        ShapeModel::Polygon {
            polygon: Polygon2D::new(vec![Point2::new(0, 0), Point2::new(5, 5)]),
            style: ShapeStyle::new(
                Color::new(255, 0, 0, 255),
                Stroke::new(Color::black(), 3, vec![2, 6]),
            ),
        },
        FeatureSet::standard(ElementType::Polygon),
    )
    .unwrap();
    let element = to_svg(&dashed).unwrap();
    assert_eq!(element.svg(), &SVG::Polygon(vec![Point2::new(0, 0), Point2::new(5, 5)]));
    assert_eq!(
        css_to_text(element.css()),
        "fill: #ff0000ff; stroke: #000000ff; stroke-width: 3; stroke-dasharray: 2 6;"
    );

    let path = Entity::new(
        Id::new("alice", 2, ElementType::FreeHand),
        ShapeModel::FreeHand {
            path: Path::new(vec![PathCommand::MoveTo(Point2::new(1, 2)), PathCommand::Close]),
            style: ShapeStyle::default(),
        },
        FeatureSet::standard(ElementType::FreeHand),
    )
    .unwrap();
    assert_eq!(to_svg(&path).unwrap().svg(), &SVG::Path("M 1 2 Z".to_string()));

    let text = Entity::new(
        Id::new("alice", 3, ElementType::Text),
        ShapeModel::Text {
            text: Text::new("x", Point2::new(0, 0)),
            text_style: TextStyle::default(),
        },
        FeatureSet::standard(ElementType::Text),
    )
    .unwrap();
    assert!(to_svg(&text).is_none());

    let bare = Entity::new(
        Id::new("alice", 4, ElementType::Rectangle),
        ShapeModel::Rectangle {
            rectangle: Rectangle::zero_sized(Point2::origin()),
            style: ShapeStyle::default(),
        },
        FeatureSet::empty(),
    )
    .unwrap();
    assert!(to_svg(&bare).is_none());
}

#[test]
fn svg_nodes_of_elements() {
    let mut attributes = PropertyMap::new();
    attributes.set("class", "shape");
    attributes.set("cx", "99");
    let mut css = PropertyMap::new();
    css.set("fill", "red");
    css.set("opacity", "0.5");
    let element =
        SVGElement::new(SVG::Circle(SVGCircle { cx: 1, cy: -2, r: 3 }), attributes, css);
    let mut node = SvgNode::create_svg(&element);
    assert_eq!(node.tag(), "circle");
    assert_eq!(node.id(), None);
    assert_eq!(
        attributes_of(&node),
        pairs(&[
            ("cx", "99"),
            ("cy", "-2"),
            ("r", "3"),
            ("class", "shape"),
            ("style", "fill: red; opacity: 0.5;"),
        ])
    );
    node.set_id("alice-9");
    assert!(node.has_id("alice-9"));
    assert!(!node.has_id("alice-90"));

    let line = SVGElement::new(
        SVG::Line(SVGLine { x1: 1, y1: 2, x2: 3, y2: 4 }),
        PropertyMap::new(),
        PropertyMap::new(),
    );
    node.update_svg(&line);
    assert_eq!(node.tag(), "line");
    assert_eq!(node.id(), Some("alice-9"));
    assert_eq!(
        attributes_of(&node),
        pairs(&[("x1", "1"), ("y1", "2"), ("x2", "3"), ("y2", "4"), ("style", "")])
    );
    assert_eq!(node.attribute("y2"), Some("4"));
    assert_eq!(node.attribute("cx"), None);
}

#[test]
fn svg_deltas_are_keyed_by_the_html_identifier() {
    let mut svg = SVGRenderer::new();
    svg.add(&rectangle_entity("alice", 0, (0, 0), (1, 1)));
    svg.add(&rectangle_entity("alice", 1, (0, 0), (2, 2)));
    svg.add(&rectangle_entity("bob", 0, (0, 0), (3, 3)));
    assert_eq!(
        svg.nodes().iter().map(|node| node.id().unwrap().to_string()).collect::<Vec<_>>(),
        vec!["alice-0", "alice-1", "bob-0"]
    );

    assert_eq!(svg.modify(&rectangle_entity("alice", 1, (5, 5), (9, 8))), Ok(()));
    assert_eq!(svg.nodes().len(), 3);
    assert_eq!(svg.nodes()[1].id(), Some("alice-1"));
    assert_eq!(svg.nodes()[1].attribute("x"), Some("5"));
    assert_eq!(svg.nodes()[1].attribute("width"), Some("4"));
    assert_eq!(svg.nodes()[1].attribute("height"), Some("3"));

    assert_eq!(svg.modify(&rectangle_entity("alice", 7, (5, 5), (9, 8))), Err(NotFound));
    assert_eq!(svg.remove(&Id::new("carol", 0, ElementType::Rectangle)), Err(NotFound));
    assert_eq!(svg.nodes().len(), 3);

    assert_eq!(svg.remove(&Id::new("alice", 0, ElementType::Rectangle)), Ok(()));
    assert_eq!(
        svg.nodes().iter().map(|node| node.id().unwrap().to_string()).collect::<Vec<_>>(),
        vec!["alice-1", "bob-0"]
    );

    let text = Entity::new(
        Id::new("alice", 1, ElementType::Text),
        ShapeModel::Text {
            text: Text::new("x", Point2::new(0, 0)),
            text_style: TextStyle::default(),
        },
        FeatureSet::standard(ElementType::Text),
    )
    .unwrap();
    let before = svg.nodes().clone();
    svg.add(&text);
    assert_eq!(svg.modify(&text), Ok(()));
    assert_eq!(svg.nodes(), &before);
}

#[test]
fn svg_deltas_agree_with_a_fresh_tree() {
    let mut retained = SVGRenderer::new();
    retained.add(&rectangle_entity("alice", 0, (0, 0), (1, 1)));
    retained.add(&rectangle_entity("alice", 1, (0, 0), (2, 2)));
    retained.add(&rectangle_entity("alice", 2, (0, 0), (3, 3)));
    let _ = retained.modify(&rectangle_entity("alice", 1, (7, 7), (9, 9)));
    let _ = retained.remove(&Id::new("alice", 0, ElementType::Rectangle));
    retained.add(&rectangle_entity("alice", 3, (4, 4), (5, 5)));
    let _ = retained.modify(&rectangle_entity("alice", 9, (0, 0), (0, 0)));
    let _ = retained.modify(&rectangle_entity("alice", 3, (-4, -4), (5, 5)));
    let _ = retained.remove(&Id::new("alice", 9, ElementType::Rectangle));

    let mut fresh = SVGRenderer::new();
    fresh.rectangle(&Rectangle::zero_sized(Point2::origin()), &ShapeStyle::default(), None);
    fresh.clear();
    fresh.add(&rectangle_entity("alice", 1, (7, 7), (9, 9)));
    fresh.add(&rectangle_entity("alice", 2, (0, 0), (3, 3)));
    fresh.add(&rectangle_entity("alice", 3, (-4, -4), (5, 5)));

    assert_eq!(retained.nodes(), fresh.nodes());
    assert_eq!(retained.nodes().len(), 3);
    assert_eq!(retained.nodes()[2].attribute("x"), Some("-4"));
    assert_eq!(retained.nodes()[2].attribute("width"), Some("9"));
}
