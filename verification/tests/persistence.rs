use whiteboard::element::id::{Id, IdSource};
use whiteboard::element::json_entity::{entity_from_json, entity_to_json, JsonEntity};
use whiteboard::element::{build_from_json, Build, ElementType, ParseError};
use whiteboard::entity::{Entity, FeatureSet, ShapeModel};
use whiteboard::geometry::{Point2, Polygon2D, Rectangle, Text};
use whiteboard::json::JsonValue;
use whiteboard::json_text::{build_from_text, json_entity_from_text, parse_json};
use whiteboard::path::{Arc, Path, PathCommand};
use whiteboard::persist::shapes::{command_from_json, command_to_json};
use whiteboard::persist::{color_from_json, id_from_json, point_from_json, point_to_json};
use whiteboard::style::{Color, ShapeStyle, Stroke, TextStyle};

fn object(members: Vec<(&str, JsonValue)>) -> JsonValue {
    JsonValue::Object(members.into_iter().map(|(name, value)| (name.to_string(), value)).collect())
}

const RECTANGLE: &str = r#"{
    "id": { "owner_id": "alice", "index": 7, "element_type": "Rectangle" },
    "model": {
        "top_left": { "x": 1, "y": 2 },
        "width": 3,
        "height": -4,
        "style": {
            "fill_color": { "r": 0, "g": 0, "b": 0, "a": 0 },
            "stroke": {
                "color": { "r": 0, "g": 0, "b": 0, "a": 255 },
                "width": 1,
                "dash_array": []
            }
        }
    }
}"#;

#[test]
fn json_text_is_parsed_into_values() {
    assert_eq!(parse_json("null"), Ok(JsonValue::Null));
    assert_eq!(parse_json("true"), Ok(JsonValue::Bool(true)));
    assert_eq!(parse_json(" false "), Ok(JsonValue::Bool(false)));
    assert_eq!(parse_json("12"), Ok(JsonValue::Number(12)));
    assert_eq!(parse_json("-12"), Ok(JsonValue::Number(-12)));
    assert_eq!(parse_json("18446744073709551615"), Ok(JsonValue::Number(18446744073709551615)));
    assert_eq!(parse_json("-9223372036854775808"), Ok(JsonValue::Number(-9223372036854775808)));
    assert_eq!(parse_json("1.5"), Ok(JsonValue::Real));
    assert_eq!(parse_json("1e3"), Ok(JsonValue::Real));
    assert_eq!(parse_json("18446744073709551616"), Ok(JsonValue::Real));
    assert_eq!(parse_json(r#""a\"bé""#), Ok(JsonValue::Text("a\"b\u{e9}".to_string())));
    assert_eq!(parse_json("[]"), Ok(JsonValue::Array(vec![])));
    assert_eq!(
        parse_json(r#"[1, "two", [null], {}]"#),
        Ok(JsonValue::Array(vec![
            JsonValue::Number(1),
            JsonValue::Text("two".to_string()),
            JsonValue::Array(vec![JsonValue::Null]),
            JsonValue::Object(vec![]),
        ]))
    );
}

#[test]
fn json_objects_keep_each_name_once() {
    let value = parse_json(r#"{"b": 1, "a": {"c": [true]}, "b": 2}"#).unwrap();
    assert_eq!(value.get("b"), Some(&JsonValue::Number(2)));
    assert_eq!(
        value.get("a"),
        Some(&object(vec![("c", JsonValue::Array(vec![JsonValue::Bool(true)]))]))
    );
    assert_eq!(value.get("c"), None);
    match value {
        JsonValue::Object(members) => assert_eq!(members.len(), 2),
        _ => panic!("an object is parsed into an object"),
    }
}

#[test]
fn text_that_is_no_json_is_a_syntax_error() {
    assert_eq!(parse_json(""), Err(ParseError::Syntax));
    assert_eq!(parse_json("{"), Err(ParseError::Syntax));
    assert_eq!(parse_json("[1,]"), Err(ParseError::Syntax));
    assert_eq!(parse_json("nul"), Err(ParseError::Syntax));
    assert_eq!(parse_json("1 2"), Err(ParseError::Syntax));
    assert_eq!(build_from_text("{"), Err(ParseError::Syntax));
    assert_eq!(json_entity_from_text("not json"), Err(ParseError::Syntax));
}

#[test]
fn json_values_are_read_by_name() {
    let value = object(vec![
        ("x", JsonValue::Number(1)),
        ("y", JsonValue::Text("two".to_string())),
        ("x", JsonValue::Number(3)),
    ]);
    assert_eq!(value.get("x"), Some(&JsonValue::Number(1)));
    assert_eq!(value.get("y").unwrap().as_text(), Some("two"));
    assert_eq!(value.get("z"), None);
    assert_eq!(JsonValue::Null.get("x"), None);
    assert_eq!(JsonValue::Number(4).as_number(), Some(4));
    assert_eq!(JsonValue::Real.as_number(), None);
    assert_eq!(JsonValue::Array(vec![]).as_array(), Some(&vec![]));
    assert_eq!(value.take("y"), Some(JsonValue::Text("two".to_string())));
}

#[test]
fn an_entity_is_read_from_text() {
    let entity = build_from_text(RECTANGLE).unwrap();
    assert_eq!(entity.id(), &Id::new("alice", 7, ElementType::Rectangle));
    match entity.model() {
        ShapeModel::Rectangle { rectangle, style } => {
            assert_eq!(rectangle.top_left(), Point2::new(1, 2));
            assert_eq!(rectangle.width(), 3);
            assert_eq!(rectangle.height(), -4);
            assert_eq!(style, &ShapeStyle::default());
        }
        _ => panic!("a rectangle is read as a rectangle"),
    }
    assert_eq!(entity.features(), FeatureSet::standard(ElementType::Rectangle));

    let parts = json_entity_from_text(RECTANGLE).unwrap();
    assert_eq!(parts.id, Id::new("alice", 7, ElementType::Rectangle));
    assert_eq!(parts.model.get("width"), Some(&JsonValue::Number(3)));
    assert_eq!(Build::from_json(parts), Ok(entity));
}

#[test]
fn fresh_entities_survive_the_round_trip() {
    let mut ids = IdSource::new();
    for kind in [
        ElementType::Rectangle,
        ElementType::Polygon,
        ElementType::FreeHand,
        ElementType::Text,
        ElementType::Container,
    ] {
        let entity = Build::default("alice", kind, &mut ids);
        assert_eq!(*entity.id().element_type(), kind);
        assert_eq!(entity.features(), FeatureSet::standard(kind));
        let written = entity_to_json(&entity);
        let read = build_from_json(written).unwrap();
        assert_eq!(read.id(), entity.id());
        assert_eq!(read.model(), entity.model());
        assert_eq!(read.features(), entity.features());
    }
}

#[test]
fn fresh_entities_have_the_default_models() {
    let mut ids = IdSource::new();
    let rectangle = Build::default("alice", ElementType::Rectangle, &mut ids);
    assert_eq!(rectangle.id(), &Id::new("alice", 0, ElementType::Rectangle));
    assert_eq!(
        rectangle.model(),
        &ShapeModel::Rectangle {
            rectangle: Rectangle::zero_sized(Point2::origin()),
            style: ShapeStyle::default(),
        }
    );
    let polygon = Build::default("alice", ElementType::Polygon, &mut ids);
    assert_eq!(polygon.id().index(), 1);
    assert_eq!(
        polygon.model(),
        &ShapeModel::Polygon { polygon: Polygon2D::empty(), style: ShapeStyle::default() }
    );
    let path = Build::default("alice", ElementType::FreeHand, &mut ids);
    assert_eq!(
        path.model(),
        &ShapeModel::FreeHand { path: Path::empty(), style: ShapeStyle::default() }
    );
    let text = Build::default("alice", ElementType::Text, &mut ids);
    assert_eq!(
        text.model(),
        &ShapeModel::Text {
            text: Text::new("", Point2::origin()),
            text_style: TextStyle::default(),
        }
    );
    let container = Build::default("alice", ElementType::Container, &mut ids);
    assert_eq!(container.model(), &ShapeModel::Container { children: vec![] });
    let built = Build::Default { owner_id: "bob".to_string(), element_type: ElementType::Text }
        .build(&mut ids)
        .unwrap();
    assert_eq!(built.id(), &Id::new("bob", 5, ElementType::Text));
}

#[test]
fn filled_entities_survive_the_round_trip() {
    let style = ShapeStyle::new(
        Color::new(1, 2, 3, 4),
        Stroke::new(Color::new(5, 6, 7, 8), 9, vec![10, 0, u32::MAX]),
    );
    let rectangle = Entity::new(
        Id::new("alice", usize::MAX, ElementType::Rectangle),
        ShapeModel::Rectangle {
            rectangle: Rectangle::spanning(
                Point2::new(i32::MAX, i32::MIN),
                Point2::new(i32::MIN, i32::MAX),
            ),
            style: style.duplicate(),
        },
        FeatureSet::standard(ElementType::Rectangle),
    )
    .unwrap();
    let path = Entity::new(
        Id::new("bob", 1, ElementType::FreeHand),
        ShapeModel::FreeHand {
            path: Path::new(vec![
                PathCommand::MoveTo(Point2::new(1, -2)),
                PathCommand::LineTo(Point2::new(3, 4)),
                PathCommand::HorizontalLineTo(i32::MIN),
                PathCommand::VerticalLineTo(i32::MAX),
                PathCommand::BezierTo(Point2::new(1, 2), Point2::new(3, 4), Point2::new(5, 6)),
                PathCommand::ArcTo(Arc {
                    radius_x: u32::MAX,
                    radius_y: 0,
                    rotation: -45,
                    large_arc: false,
                    sweep: true,
                    to: Point2::new(7, 8),
                }),
                PathCommand::Close,
            ]),
            style: style.duplicate(),
        },
        FeatureSet::standard(ElementType::FreeHand),
    )
    .unwrap();
    let polygon = Entity::new(
        Id::new("", 2, ElementType::Polygon),
        ShapeModel::Polygon {
            polygon: Polygon2D::new(vec![Point2::new(0, 0), Point2::new(-1, 1)]),
            style: ShapeStyle::default(),
        },
        FeatureSet::standard(ElementType::Polygon),
    )
    .unwrap();
    let text = Entity::new(
        Id::new("carol", 3, ElementType::Text),
        ShapeModel::Text {
            text: Text::new("hello \"world\"", Point2::new(5, 6)),
            text_style: TextStyle::new(
                Color::black(),
                Stroke::new(Color::transparent(), 0, vec![]),
                "serif",
                24,
            ),
        },
        FeatureSet::standard(ElementType::Text),
    )
    .unwrap();
    let inner = Entity::new(
        Id::new("carol", 4, ElementType::Container),
        ShapeModel::Container { children: vec![polygon, text] },
        FeatureSet::standard(ElementType::Container),
    )
    .unwrap();
    let outer = Entity::new(
        Id::new("carol", 5, ElementType::Container),
        ShapeModel::Container { children: vec![rectangle, inner, path] },
        FeatureSet::standard(ElementType::Container),
    )
    .unwrap();
    let written = entity_to_json(&outer);
    assert_eq!(entity_from_json(&written), Some(outer));
}

#[test]
fn the_persisted_form_of_an_entity() {
    let polygon = Entity::new(
        Id::new("alice", 3, ElementType::Polygon),
        ShapeModel::Polygon {
            polygon: Polygon2D::new(vec![Point2::new(1, 2)]),
            style: ShapeStyle::default(),
        },
        FeatureSet::standard(ElementType::Polygon),
    )
    .unwrap();
    let colour = |r: i128, g: i128, b: i128, a: i128| {
        object(vec![
            ("r", JsonValue::Number(r)),
            ("g", JsonValue::Number(g)),
            ("b", JsonValue::Number(b)),
            ("a", JsonValue::Number(a)),
        ])
    };
    let expected = object(vec![
        (
            "id",
            object(vec![
                ("owner_id", JsonValue::Text("alice".to_string())),
                ("index", JsonValue::Number(3)),
                ("element_type", JsonValue::Text("Polygon".to_string())),
            ]),
        ),
        (
            "model",
            object(vec![
                (
                    "vertices",
                    JsonValue::Array(vec![object(vec![
                        ("x", JsonValue::Number(1)),
                        ("y", JsonValue::Number(2)),
                    ])]),
                ),
                (
                    "style",
                    object(vec![
                        ("fill_color", colour(0, 0, 0, 0)),
                        (
                            "stroke",
                            object(vec![
                                ("color", colour(0, 0, 0, 255)),
                                ("width", JsonValue::Number(1)),
                                ("dash_array", JsonValue::Array(vec![])),
                            ]),
                        ),
                    ]),
                ),
            ]),
        ),
    ]);
    assert_eq!(entity_to_json(&polygon), expected);
    assert_eq!(point_to_json(Point2::new(-3, 4)), parse_json(r#"{"x": -3, "y": 4}"#).unwrap());
    assert_eq!(
        command_to_json(&PathCommand::HorizontalLineTo(5)),
        object(vec![
            ("op", JsonValue::Text("H".to_string())),
            ("args", JsonValue::Array(vec![JsonValue::Number(5)])),
        ])
    );
    assert_eq!(
        parse_json(r#"{"op": "H", "args": [5]}"#).unwrap(),
        object(vec![
            ("args", JsonValue::Array(vec![JsonValue::Number(5)])),
            ("op", JsonValue::Text("H".to_string())),
        ])
    );
}

#[test]
fn a_model_that_does_not_match_the_kind_is_a_schema_error() {
    let as_polygon = RECTANGLE.replace("Rectangle", "Polygon");
    assert_eq!(build_from_text(&as_polygon), Err(ParseError::Schema));
    let unknown_kind = RECTANGLE.replace("Rectangle", "Triangle");
    assert_eq!(build_from_text(&unknown_kind), Err(ParseError::Schema));
    assert_eq!(json_entity_from_text(&unknown_kind), Err(ParseError::Schema));
    let fractional = RECTANGLE.replace("\"width\": 3", "\"width\": 3.5");
    assert_eq!(build_from_text(&fractional), Err(ParseError::Schema));
    let outside = RECTANGLE.replace("\"width\": 3", "\"width\": 2147483647");
    assert_eq!(build_from_text(&outside), Err(ParseError::Schema));
    let negative_index = RECTANGLE.replace("\"index\": 7", "\"index\": -7");
    assert_eq!(build_from_text(&negative_index), Err(ParseError::Schema));
    let no_style = r#"{"id": {"owner_id": "a", "index": 0, "element_type": "Rectangle"},
        "model": {"top_left": {"x": 0, "y": 0}, "width": 0, "height": 0}}"#;
    assert_eq!(build_from_text(no_style), Err(ParseError::Schema));
    assert_eq!(build_from_text("[]"), Err(ParseError::Schema));
    assert_eq!(build_from_text(r#"{"id": 1, "model": {}}"#), Err(ParseError::Schema));
    assert_eq!(build_from_json(JsonValue::Null), Err(ParseError::Schema));
    let parts = JsonEntity {
        id: Id::new("alice", 0, ElementType::Text),
        model: object(vec![("children", JsonValue::Array(vec![]))]),
    };
    assert_eq!(Build::from_json(parts), Err(ParseError::Schema));
}

#[test]
fn a_container_is_read_with_its_children() {
    let child = RECTANGLE;
    let text = format!(
        r#"{{"id": {{"owner_id": "alice", "index": 8, "element_type": "Container"}},
            "model": {{"children": [{}, {{"id": {{"owner_id": "bob", "index": 9,
            "element_type": "Container"}}, "model": {{"children": []}}}}]}}}}"#,
        child
    );
    let container = build_from_text(&text).unwrap();
    assert_eq!(container.id(), &Id::new("alice", 8, ElementType::Container));
    match container.model() {
        ShapeModel::Container { children } => {
            assert_eq!(children.len(), 2);
            assert_eq!(children[0], build_from_text(RECTANGLE).unwrap());
            assert_eq!(children[1].id(), &Id::new("bob", 9, ElementType::Container));
            assert_eq!(children[1].features(), FeatureSet::standard(ElementType::Container));
        }
        _ => panic!("a container is read as a container"),
    }
    let broken = text.replace("\"height\": -4", "\"height\": null");
    assert_eq!(build_from_text(&broken), Err(ParseError::Schema));
    let not_a_list = r#"{"id": {"owner_id": "a", "index": 0, "element_type": "Container"},
        "model": {"children": {}}}"#;
    assert_eq!(build_from_text(not_a_list), Err(ParseError::Schema));
}

#[test]
fn parts_of_the_persisted_form_are_checked() {
    assert_eq!(
        point_from_json(&parse_json(r#"{"x": 1, "y": -1, "z": 5}"#).unwrap()),
        Some(Point2::new(1, -1))
    );
    assert_eq!(point_from_json(&parse_json(r#"{"x": 2147483648, "y": 0}"#).unwrap()), None);
    assert_eq!(point_from_json(&parse_json(r#"{"x": 1}"#).unwrap()), None);
    assert_eq!(
        color_from_json(&parse_json(r#"{"r": 1, "g": 2, "b": 3, "a": 255}"#).unwrap()),
        Some(Color::new(1, 2, 3, 255))
    );
    assert_eq!(
        color_from_json(&parse_json(r#"{"r": 1, "g": 2, "b": 3, "a": 256}"#).unwrap()),
        None
    );
    assert_eq!(
        id_from_json(
            &parse_json(r#"{"owner_id": "x", "index": 4, "element_type": "FreeHand"}"#).unwrap()
        ),
        Some(Id::new("x", 4, ElementType::FreeHand))
    );
    assert_eq!(
        command_from_json(&parse_json(r#"{"op": "A", "args": [1, 2, 3, 1, 0, 4, 5]}"#).unwrap()),
        Some(PathCommand::ArcTo(Arc {
            radius_x: 1,
            radius_y: 2,
            rotation: 3,
            large_arc: true,
            sweep: false,
            to: Point2::new(4, 5),
        }))
    );
    assert_eq!(
        command_from_json(&parse_json(r#"{"op": "A", "args": [1, 2, 3, 2, 0, 4, 5]}"#).unwrap()),
        None
    );
    assert_eq!(command_from_json(&parse_json(r#"{"op": "M", "args": [1]}"#).unwrap()), None);
    assert_eq!(command_from_json(&parse_json(r#"{"op": "Q", "args": []}"#).unwrap()), None);
    assert_eq!(
        command_from_json(&parse_json(r#"{"op": "Z", "args": []}"#).unwrap()),
        Some(PathCommand::Close)
    );
}
