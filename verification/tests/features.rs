use whiteboard::element::id::Id;
use whiteboard::element::ElementType;
use whiteboard::entity::{Capability, Entity, Feature, FeatureSet, ShapeModel};
use whiteboard::geometry::{Point2, Polygon2D, Rectangle, Text, Vector2};
use whiteboard::path::{Path, PathCommand};
use whiteboard::style::{ShapeStyle, TextStyle};

fn rectangle_entity(index: usize, from: (i32, i32), to: (i32, i32)) -> Entity {
    Entity::new(
        Id::new("alice", index, ElementType::Rectangle),
        ShapeModel::Rectangle {
            rectangle: Rectangle::spanning(Point2::new(from.0, from.1), Point2::new(to.0, to.1)),
            style: ShapeStyle::default(),
        },
        FeatureSet::standard(ElementType::Rectangle),
    )
    .unwrap()
}

#[test]
fn lookup_of_an_absent_capability_gives_none() {
    let empty = FeatureSet::empty();
    assert_eq!(empty.query(Capability::Render), None);
    assert_eq!(empty.query(Capability::ToSvg), None);
    assert_eq!(empty.query(Capability::HitTest), None);
    assert_eq!(empty.query(Capability::Translate), None);
}

#[test]
fn a_second_registration_replaces_the_first() {
    let mut set = FeatureSet::empty();
    set.register(Feature { capability: Capability::Render, routine: ElementType::Rectangle });
    set.register(Feature { capability: Capability::HitTest, routine: ElementType::Rectangle });
    set.register(Feature { capability: Capability::Render, routine: ElementType::Polygon });
    assert_eq!(
        set.query(Capability::Render),
        Some(Feature { capability: Capability::Render, routine: ElementType::Polygon })
    );
    assert_eq!(
        set.query(Capability::HitTest),
        Some(Feature { capability: Capability::HitTest, routine: ElementType::Rectangle })
    );
    assert_eq!(set.query(Capability::Translate), None);
}

#[test]
fn standard_feature_sets() {
    for kind in [ElementType::Rectangle, ElementType::Polygon, ElementType::FreeHand] {
        let set = FeatureSet::standard(kind);
        for capability in
            [Capability::Render, Capability::ToSvg, Capability::HitTest, Capability::Translate]
        {
            assert_eq!(set.query(capability), Some(Feature { capability, routine: kind }));
        }
    }
    for kind in [ElementType::Text, ElementType::Container] {
        let set = FeatureSet::standard(kind);
        assert_eq!(set.query(Capability::ToSvg), None);
        assert_eq!(
            set.query(Capability::Render),
            Some(Feature { capability: Capability::Render, routine: kind })
        );
    }
}

#[test]
fn adding_a_feature_set_keeps_what_it_does_not_name() {
    let mut set = FeatureSet::empty();
    set.register(Feature { capability: Capability::ToSvg, routine: ElementType::Rectangle });
    set.register(Feature { capability: Capability::Render, routine: ElementType::Rectangle });
    set.add_feature_set(FeatureSet::standard(ElementType::Text));
    assert_eq!(set.render, Some(ElementType::Text));
    assert_eq!(set.to_svg, Some(ElementType::Rectangle));
    assert_eq!(set.hit_test, Some(ElementType::Text));
    assert_eq!(set.translate, Some(ElementType::Text));
}

#[test]
fn an_entity_needs_an_identifier_of_its_models_kind() {
    let model = ShapeModel::Polygon { polygon: Polygon2D::empty(), style: ShapeStyle::default() };
    assert!(Entity::new(
        Id::new("alice", 0, ElementType::Rectangle),
        model,
        FeatureSet::standard(ElementType::Rectangle)
    )
    .is_none());
    let entity = rectangle_entity(1, (0, 0), (1, 1));
    assert_eq!(entity.model().kind(), ElementType::Rectangle);
    assert_eq!(entity.id(), &Id::new("alice", 1, ElementType::Rectangle));
    assert_eq!(entity.features(), FeatureSet::standard(ElementType::Rectangle));
}

#[test]
fn hit_tests() {
    let rectangle = rectangle_entity(0, (40, 30), (10, 10));
    assert!(rectangle.hit_test(Point2::new(15, 15)));
    assert!(!rectangle.hit_test(Point2::new(5, 15)));

    let polygon = Entity::new(
        Id::new("alice", 1, ElementType::Polygon),
        ShapeModel::Polygon {
            polygon: Polygon2D::new(vec![
                Point2::new(0, 0),
                Point2::new(10, 0),
                Point2::new(10, 10),
            ]),
            style: ShapeStyle::default(),
        },
        FeatureSet::standard(ElementType::Polygon),
    )
    .unwrap();
    assert!(polygon.hit_test(Point2::new(5, 5)));
    assert!(polygon.hit_test(Point2::new(0, 10)));
    assert!(!polygon.hit_test(Point2::new(11, 5)));

    let empty = Entity::new(
        Id::new("alice", 2, ElementType::FreeHand),
        ShapeModel::FreeHand { path: Path::empty(), style: ShapeStyle::default() },
        FeatureSet::standard(ElementType::FreeHand),
    )
    .unwrap();
    assert!(!empty.hit_test(Point2::new(0, 0)));

    let text = Entity::new(
        Id::new("alice", 3, ElementType::Text),
        ShapeModel::Text {
            text: Text::new("hello", Point2::new(7, 8)),
            text_style: TextStyle::default(),
        },
        FeatureSet::standard(ElementType::Text),
    )
    .unwrap();
    assert!(text.hit_test(Point2::new(7, 8)));
    assert!(!text.hit_test(Point2::new(7, 9)));

    let container = Entity::new(
        Id::new("alice", 4, ElementType::Container),
        ShapeModel::Container { children: vec![rectangle_entity(5, (0, 0), (2, 2)), text] },
        FeatureSet::standard(ElementType::Container),
    )
    .unwrap();
    assert!(container.hit_test(Point2::new(1, 1)));
    assert!(container.hit_test(Point2::new(7, 8)));
    assert!(!container.hit_test(Point2::new(5, 5)));
}

#[test]
fn an_entity_without_the_feature_does_nothing() {
    let plain = Entity::new(
        Id::new("alice", 0, ElementType::Rectangle),
        ShapeModel::Rectangle {
            rectangle: Rectangle::spanning(Point2::new(0, 0), Point2::new(10, 10)),
            style: ShapeStyle::default(),
        },
        FeatureSet::empty(),
    )
    .unwrap();
    assert!(!plain.hit_test(Point2::new(5, 5)));
    let mut moving = plain;
    assert!(!moving.translate(Vector2 { dx: 1, dy: 1 }));
    assert_eq!(
        moving.model(),
        &ShapeModel::Rectangle {
            rectangle: Rectangle::spanning(Point2::new(0, 0), Point2::new(10, 10)),
            style: ShapeStyle::default(),
        }
    );

    let mut foreign = FeatureSet::empty();
    foreign.register(Feature { capability: Capability::HitTest, routine: ElementType::Polygon });
    let mismatched = Entity::new(
        Id::new("alice", 1, ElementType::Rectangle),
        ShapeModel::Rectangle {
            rectangle: Rectangle::spanning(Point2::new(0, 0), Point2::new(10, 10)),
            style: ShapeStyle::default(),
        },
        foreign,
    )
    .unwrap();
    assert!(!mismatched.can(Capability::HitTest));
    assert!(!mismatched.hit_test(Point2::new(5, 5)));
}

#[test]
fn translation_moves_every_point_or_none() {
    let mut rectangle = rectangle_entity(0, (0, 0), (10, 10));
    assert!(rectangle.translate(Vector2 { dx: 5, dy: -5 }));
    assert_eq!(rectangle, rectangle_entity(0, (5, -5), (15, 5)));
    assert!(!rectangle.translate(Vector2 { dx: i32::MAX as i64, dy: 0 }));
    assert_eq!(rectangle, rectangle_entity(0, (5, -5), (15, 5)));

    let mut container = Entity::new(
        Id::new("alice", 1, ElementType::Container),
        ShapeModel::Container {
            children: vec![
                rectangle_entity(2, (0, 0), (1, 1)),
                Entity::new(
                    Id::new("alice", 3, ElementType::FreeHand),
                    ShapeModel::FreeHand {
                        path: Path::new(vec![PathCommand::MoveTo(Point2::new(i32::MAX, 0))]),
                        style: ShapeStyle::default(),
                    },
                    FeatureSet::standard(ElementType::FreeHand),
                )
                .unwrap(),
            ],
        },
        FeatureSet::standard(ElementType::Container),
    )
    .unwrap();
    assert!(!container.translate(Vector2 { dx: 1, dy: 0 }));
    assert!(container.translate(Vector2 { dx: -1, dy: 2 }));
    match container.model() {
        ShapeModel::Container { children } => {
            assert_eq!(children[0], rectangle_entity(2, (-1, 2), (0, 3)));
            assert_eq!(
                children[1].model(),
                &ShapeModel::FreeHand {
                    path: Path::new(vec![PathCommand::MoveTo(Point2::new(i32::MAX - 1, 2))]),
                    style: ShapeStyle::default(),
                }
            );
        }
        _ => panic!("a container stays a container"),
    }
}
