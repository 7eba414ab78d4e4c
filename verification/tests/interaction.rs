use whiteboard::element::id::{Id, IdSource};
use whiteboard::element::ElementType;
use whiteboard::entity::{Entity, FeatureSet, ShapeModel};
use whiteboard::event_bus::EventBus;
use whiteboard::geometry::{Point2, Polygon2D, Rectangle, Vector2};
use whiteboard::path::{Path, PathCommand};
use whiteboard::renderer::canvas_renderer::{CanvasOp, CanvasRenderer};
use whiteboard::renderer::svg_renderer::SVGRenderer;
use whiteboard::renderer::{Renderer, RendererIncremental};
use whiteboard::style::ShapeStyle;
use whiteboard::tool::click_draw_tool::ClickDrawTool;
use whiteboard::tool::move_draw_tool::MoveDrawTool;
use whiteboard::tool::select_tool::{hit_on_top, SelectTool, DRAG_THRESHOLD};
use whiteboard::tool::{Interaction, Key, PointingDevice, Tool, ToolEvent};
use whiteboard::view_port::{LockError, LockState, ViewPort};

fn down(x: i32, y: i32) -> Interaction {
    Interaction::PointerDown(Point2::new(x, y), PointingDevice::Mouse)
}

fn over(x: i32, y: i32) -> Interaction {
    Interaction::PointerMove(Point2::new(x, y), PointingDevice::Pen)
}

fn up(x: i32, y: i32) -> Interaction {
    Interaction::PointerUp(Point2::new(x, y), PointingDevice::Touch)
}

fn rectangle_entity(index: usize, from: (i32, i32), to: (i32, i32)) -> Entity {
    Entity::new(
        Id::new("alice", index, ElementType::Rectangle),
        ShapeModel::Rectangle {
            rectangle: Rectangle::spanning(Point2::new(from.0, from.1), Point2::new(to.0, to.1)),
            style: ShapeStyle::default(),
        },
        FeatureSet::standard(ElementType::Rectangle),
    )
    .unwrap()
}

fn rectangles_painted(canvas: &CanvasRenderer) -> Vec<(i32, i32, i64, i64)> {
    canvas
        .directives()
        .iter()
        .filter_map(|op| match op {
            CanvasOp::Rect { x, y, width, height } => Some((*x, *y, *width, *height)),
            _ => None,
        })
        .collect()
}

#[test]
fn the_event_bus_is_first_in_first_out() {
    let mut bus: EventBus<u32> = EventBus::new();
    assert_eq!(bus.recv(), None);
    assert_eq!(bus.send(1), Ok(()));
    assert_eq!(bus.send(2), Ok(()));
    assert_eq!(bus.send(3), Ok(()));
    assert_eq!(bus.len(), 3);
    assert_eq!(bus.recv(), Some(1));
    assert_eq!(bus.send(4), Ok(()));
    assert_eq!(bus.recv(), Some(2));
    assert_eq!(bus.recv(), Some(3));
    assert_eq!(bus.recv(), Some(4));
    assert_eq!(bus.recv(), None);
}

#[test]
fn a_closed_event_bus_takes_nothing_more() {
    let mut bus: EventBus<&str> = EventBus::new();
    assert_eq!(bus.send("kept"), Ok(()));
    assert!(!bus.closed());
    bus.close();
    assert!(bus.closed());
    assert_eq!(bus.send("lost"), Err("lost"));
    assert_eq!(bus.len(), 1);
    assert_eq!(bus.recv(), Some("kept"));
    assert_eq!(bus.recv(), None);
}

#[test]
fn move_draw_publishes_a_canonical_rectangle() {
    let mut ids = IdSource::new();
    let mut tool = MoveDrawTool::new("alice", ElementType::Rectangle);
    assert!(tool.is_idle());
    tool.interact(over(1, 1), &mut ids);
    tool.interact(up(1, 1), &mut ids);
    tool.interact(Interaction::KeyDown(Key::Enter), &mut ids);
    assert!(tool.is_idle());
    assert_eq!(tool.next_event(), None);

    tool.interact(down(50, 50), &mut ids);
    assert!(!tool.is_idle());
    assert_eq!(
        tool.in_progress().unwrap().model(),
        &ShapeModel::Rectangle {
            rectangle: Rectangle::zero_sized(Point2::new(50, 50)),
            style: ShapeStyle::default(),
        }
    );
    tool.interact(down(0, 0), &mut ids);
    tool.interact(over(20, 10), &mut ids);
    match tool.in_progress().unwrap().model() {
        ShapeModel::Rectangle { rectangle, .. } => {
            assert_eq!(rectangle.top_left(), Point2::new(50, 50));
            assert_eq!(rectangle.width(), -30);
            assert_eq!(rectangle.height(), -40);
        }
        _ => panic!("a rectangle is in progress"),
    }
    assert_eq!(tool.next_event(), None);
    tool.interact(up(0, 0), &mut ids);
    assert!(tool.is_idle());
    assert!(tool.in_progress().is_none());
    let expected = Entity::new(
        Id::new("alice", 0, ElementType::Rectangle),
        ShapeModel::Rectangle {
            rectangle: Rectangle::spanning(Point2::new(20, 10), Point2::new(50, 50)),
            style: ShapeStyle::default(),
        },
        FeatureSet::standard(ElementType::Rectangle),
    )
    .unwrap();
    assert_eq!(tool.next_event(), Some(ToolEvent::FinishDrawing(expected)));
    assert_eq!(tool.next_event(), None);
    assert_eq!(Id::generate("alice", ElementType::Text, &mut ids).index(), 1);
}

#[test]
fn move_draw_follows_the_pointer_free_hand() {
    let mut ids = IdSource::new();
    let mut tool = MoveDrawTool::new("alice", ElementType::FreeHand);
    tool.interact(down(1, 2), &mut ids);
    tool.interact(over(3, 4), &mut ids);
    tool.interact(over(5, 6), &mut ids);
    tool.interact(Interaction::KeyUp(Key::Esc), &mut ids);
    tool.interact(up(9, 9), &mut ids);
    match tool.next_event() {
        Some(ToolEvent::FinishDrawing(entity)) => {
            assert_eq!(
                entity.model(),
                &ShapeModel::FreeHand {
                    path: Path::new(vec![
                        PathCommand::MoveTo(Point2::new(1, 2)),
                        PathCommand::LineTo(Point2::new(3, 4)),
                        PathCommand::LineTo(Point2::new(5, 6)),
                    ]),
                    style: ShapeStyle::default(),
                }
            );
        }
        other => panic!("a finished path is published, not {:?}", other),
    }
}

#[test]
fn esc_discards_what_is_in_progress() {
    let mut ids = IdSource::new();
    let mut drag = MoveDrawTool::new("alice", ElementType::Rectangle);
    drag.interact(down(10, 10), &mut ids);
    drag.interact(over(40, 30), &mut ids);
    drag.interact(Interaction::KeyDown(Key::Esc), &mut ids);
    assert!(drag.is_idle());
    drag.interact(up(40, 30), &mut ids);
    assert_eq!(drag.next_event(), None);

    let mut click = ClickDrawTool::new("alice", ElementType::Polygon);
    click.interact(down(0, 0), &mut ids);
    click.interact(down(10, 0), &mut ids);
    click.interact(Interaction::KeyDown(Key::Esc), &mut ids);
    assert!(click.is_idle());
    click.interact(Interaction::KeyDown(Key::Enter), &mut ids);
    assert_eq!(click.next_event(), None);
}

#[test]
fn click_draw_places_one_vertex_per_click() {
    let mut ids = IdSource::new();
    let mut tool = ClickDrawTool::new("alice", ElementType::Polygon);
    tool.interact(Interaction::KeyDown(Key::Enter), &mut ids);
    assert!(tool.is_idle());
    tool.interact(down(0, 0), &mut ids);
    tool.interact(over(5, 5), &mut ids);
    tool.interact(up(0, 0), &mut ids);
    tool.interact(down(10, 0), &mut ids);
    tool.interact(down(10, 10), &mut ids);
    assert_eq!(tool.next_event(), None);
    tool.interact(Interaction::KeyDown(Key::Enter), &mut ids);
    assert!(tool.is_idle());
    let expected = Entity::new(
        Id::new("alice", 0, ElementType::Polygon),
        ShapeModel::Polygon {
            polygon: Polygon2D::new(vec![
                Point2::new(0, 0),
                Point2::new(10, 0),
                Point2::new(10, 10),
            ]),
            style: ShapeStyle::default(),
        },
        FeatureSet::standard(ElementType::Polygon),
    )
    .unwrap();
    assert_eq!(tool.next_event(), Some(ToolEvent::FinishDrawing(expected)));
}

#[test]
fn click_draw_previews_a_rubber_band() {
    let mut ids = IdSource::new();
    let mut tool = ClickDrawTool::new("alice", ElementType::Polygon);
    tool.interact(down(1, 1), &mut ids);
    let mut canvas = CanvasRenderer::new();
    tool.render(&mut canvas);
    let without_band = canvas.directives().len();
    tool.interact(over(7, 9), &mut ids);
    let mut canvas = CanvasRenderer::new();
    tool.render(&mut canvas);
    let ops = canvas.directives();
    assert_eq!(ops.len(), without_band + 8);
    assert_eq!(ops[ops.len() - 3], CanvasOp::MoveTo(Point2::new(1, 1)));
    assert_eq!(ops[ops.len() - 2], CanvasOp::LineTo(Point2::new(7, 9)));
    assert_eq!(ops[ops.len() - 1], CanvasOp::Stroke);
    tool.interact(down(7, 9), &mut ids);
    let mut canvas = CanvasRenderer::new();
    tool.render(&mut canvas);
    assert_eq!(canvas.directives().len(), without_band + 1);
}

#[test]
fn tools_stay_idle_when_no_identifier_is_left() {
    let mut ids = IdSource::starting_at(usize::MAX - 1);
    assert!(!ids.is_exhausted());
    let mut tool = MoveDrawTool::new("alice", ElementType::Rectangle);
    tool.interact(down(1, 1), &mut ids);
    assert!(!tool.is_idle());
    assert_eq!(tool.in_progress().unwrap().id().index(), usize::MAX - 1);
    assert!(ids.is_exhausted());
    tool.interact(up(1, 1), &mut ids);
    assert!(tool.next_event().is_some());

    tool.interact(down(2, 2), &mut ids);
    assert!(tool.is_idle());
    assert_eq!(tool.next_event(), None);
    let mut click = ClickDrawTool::new("alice", ElementType::Polygon);
    click.interact(down(2, 2), &mut ids);
    assert!(click.is_idle());
    assert!(ids.is_exhausted());

    let mut port = ViewPort::new();
    port.activate_tool(Tool::MoveDraw(tool)).unwrap();
    port.interaction_event(down(3, 3), &mut ids).unwrap();
    port.interaction_event(up(3, 3), &mut ids).unwrap();
    assert!(port.entities().is_empty());
}

#[test]
fn the_frontmost_entity_is_hit_first() {
    let scene = vec![
        rectangle_entity(0, (0, 0), (10, 10)),
        rectangle_entity(1, (5, 5), (15, 15)),
        rectangle_entity(2, (100, 100), (110, 110)),
    ];
    assert_eq!(hit_on_top(&scene, Point2::new(7, 7)), Some(1));
    assert_eq!(hit_on_top(&scene, Point2::new(2, 2)), Some(0));
    assert_eq!(hit_on_top(&scene, Point2::new(105, 105)), Some(2));
    assert_eq!(hit_on_top(&scene, Point2::new(50, 50)), None);
    assert_eq!(hit_on_top(&vec![], Point2::new(0, 0)), None);
}

#[test]
fn select_moves_after_the_threshold_only() {
    assert_eq!(DRAG_THRESHOLD, 3);
    let scene = vec![rectangle_entity(0, (0, 0), (10, 10)), rectangle_entity(1, (5, 5), (15, 15))];
    let top = Id::new("alice", 1, ElementType::Rectangle);
    let mut tool = SelectTool::new();
    tool.interact(over(7, 7), &scene);
    assert!(tool.is_idle());
    tool.interact(down(7, 7), &scene);
    assert!(!tool.is_idle());
    assert_eq!(tool.selected(), Some(&top));
    tool.interact(over(10, 4), &scene);
    tool.interact(over(7, 7), &scene);
    assert_eq!(tool.next_event(), None);
    tool.interact(over(11, 7), &scene);
    assert_eq!(tool.next_event(), None);
    tool.interact(over(12, 9), &scene);
    assert_eq!(
        tool.next_event(),
        Some(ToolEvent::Translate { id: top.duplicate(), by: Vector2 { dx: 1, dy: 2 } })
    );
    tool.interact(over(2, 9), &scene);
    assert_eq!(
        tool.next_event(),
        Some(ToolEvent::Translate { id: top.duplicate(), by: Vector2 { dx: -10, dy: 0 } })
    );
    tool.interact(up(2, 9), &scene);
    assert!(tool.is_idle());
    tool.interact(over(50, 50), &scene);
    assert_eq!(tool.next_event(), None);
    assert_eq!(tool.selected(), Some(&top));
}

#[test]
fn select_removes_what_was_selected_last() {
    let scene = vec![rectangle_entity(0, (0, 0), (10, 10))];
    let mut tool = SelectTool::new();
    tool.interact(Interaction::KeyDown(Key::Delete), &scene);
    assert_eq!(tool.next_event(), None);
    tool.interact(down(5, 5), &scene);
    tool.interact(Interaction::KeyDown(Key::Delete), &scene);
    assert_eq!(tool.next_event(), None);
    tool.interact(up(5, 5), &scene);
    tool.interact(Interaction::KeyDown(Key::ArrowLeft), &scene);
    tool.interact(Interaction::KeyUp(Key::Delete), &scene);
    assert_eq!(tool.next_event(), None);
    tool.interact(Interaction::KeyDown(Key::Backspace), &scene);
    assert_eq!(
        tool.next_event(),
        Some(ToolEvent::Remove { id: Id::new("alice", 0, ElementType::Rectangle) })
    );
    assert_eq!(tool.selected(), None);
    tool.interact(Interaction::KeyDown(Key::Delete), &scene);
    assert_eq!(tool.next_event(), None);

    tool.interact(down(5, 5), &scene);
    tool.interact(up(5, 5), &scene);
    tool.interact(down(50, 50), &scene);
    assert!(tool.is_idle());
    assert_eq!(tool.selected(), None);
}

#[test]
fn the_view_port_applies_what_the_tool_publishes() {
    let mut ids = IdSource::new();
    let mut port = ViewPort::new();
    assert_eq!(port.interaction_event(down(1, 1), &mut ids), Ok(()));
    assert!(port.entities().is_empty());
    assert_eq!(
        port.activate_tool(Tool::MoveDraw(MoveDrawTool::new("alice", ElementType::Rectangle))),
        Ok(())
    );
    assert_eq!(port.interaction_event(down(10, 10), &mut ids), Ok(()));
    assert_eq!(port.interaction_event(over(40, 30), &mut ids), Ok(()));
    assert!(port.entities().is_empty());
    assert!(!port.active_tool().unwrap().is_idle());
    assert_eq!(port.interaction_event(up(40, 30), &mut ids), Ok(()));
    assert_eq!(port.entities(), &vec![rectangle_entity(0, (10, 10), (40, 30))]);
    assert!(port.active_tool().unwrap().is_idle());

    assert_eq!(port.add_entity(rectangle_entity(7, (100, 100), (120, 120))), Ok(()));
    assert_eq!(port.activate_tool(Tool::Select(SelectTool::new())), Ok(()));
    assert_eq!(port.interaction_event(down(15, 15), &mut ids), Ok(()));
    assert_eq!(port.interaction_event(over(20, 15), &mut ids), Ok(()));
    assert_eq!(port.interaction_event(over(25, 35), &mut ids), Ok(()));
    assert_eq!(port.interaction_event(up(25, 35), &mut ids), Ok(()));
    assert_eq!(
        port.entities(),
        &vec![rectangle_entity(0, (15, 30), (45, 50)), rectangle_entity(7, (100, 100), (120, 120))]
    );
    assert_eq!(port.interaction_event(down(110, 110), &mut ids), Ok(()));
    assert_eq!(port.interaction_event(up(110, 110), &mut ids), Ok(()));
    assert_eq!(port.interaction_event(Interaction::KeyDown(Key::Delete), &mut ids), Ok(()));
    assert_eq!(port.entities(), &vec![rectangle_entity(0, (15, 30), (45, 50))]);
}

#[test]
fn entities_are_painted_in_insertion_order_after_one_clear() {
    let mut port = ViewPort::new();
    port.add_entity(rectangle_entity(2, (30, 30), (31, 31))).unwrap();
    port.add_entity(rectangle_entity(0, (10, 10), (11, 11))).unwrap();
    port.add_entity(rectangle_entity(1, (20, 20), (21, 21))).unwrap();
    let plain = Entity::new(
        Id::new("alice", 3, ElementType::Rectangle),
        ShapeModel::Rectangle {
            rectangle: Rectangle::zero_sized(Point2::new(40, 40)),
            style: ShapeStyle::default(),
        },
        FeatureSet::empty(),
    )
    .unwrap();
    port.add_entity(plain).unwrap();
    let mut canvas = CanvasRenderer::new();
    canvas.polygon(&Polygon2D::empty(), &ShapeStyle::default(), None);
    assert!(port.render(&mut canvas));
    assert_eq!(canvas.directives()[0], CanvasOp::Reset);
    assert_eq!(canvas.directives().iter().filter(|op| **op == CanvasOp::Reset).count(), 1);
    assert_eq!(canvas.directives().iter().filter(|op| **op == CanvasOp::ClosePath).count(), 0);
    assert_eq!(
        rectangles_painted(&canvas),
        vec![(30, 30, 1, 1), (10, 10, 1, 1), (20, 20, 1, 1)]
    );
    assert_eq!(canvas.directives().len(), 1 + 3 * 8);
}

#[test]
fn the_overlay_of_the_tool_is_painted_last() {
    let mut ids = IdSource::new();
    let mut port = ViewPort::new();
    port.add_entity(rectangle_entity(9, (1, 1), (2, 2))).unwrap();
    port.activate_tool(Tool::MoveDraw(MoveDrawTool::new("alice", ElementType::Rectangle)))
        .unwrap();
    port.interaction_event(down(50, 50), &mut ids).unwrap();
    port.interaction_event(over(60, 70), &mut ids).unwrap();
    let mut canvas = CanvasRenderer::new();
    assert!(port.render(&mut canvas));
    assert_eq!(rectangles_painted(&canvas), vec![(1, 1, 1, 1), (50, 50, 10, 20)]);
}

#[test]
fn render_does_not_wait_for_a_writer() {
    let mut port = ViewPort::new();
    port.add_entity(rectangle_entity(0, (1, 1), (2, 2))).unwrap();
    assert_eq!(port.lock_state(), LockState::Free);
    assert_eq!(port.begin_write(), Ok(()));
    assert_eq!(port.lock_state(), LockState::Writing);

    let mut canvas = CanvasRenderer::new();
    canvas.polygon(&Polygon2D::empty(), &ShapeStyle::default(), None);
    let before = canvas.directives().clone();
    assert!(!port.render(&mut canvas));
    assert_eq!(canvas.directives(), &before);

    let mut svg = SVGRenderer::new();
    svg.add(&rectangle_entity(5, (0, 0), (1, 1)));
    assert!(!port.render_retained(&mut svg));
    assert_eq!(svg.nodes().len(), 1);

    port.end_write();
    assert_eq!(port.lock_state(), LockState::Free);
    assert!(port.render(&mut canvas));
    assert_eq!(rectangles_painted(&canvas), vec![(1, 1, 1, 1)]);
    assert!(port.render_retained(&mut svg));
    assert_eq!(svg.nodes().len(), 1);
    assert_eq!(svg.nodes()[0].id(), Some("alice-0"));
}

#[test]
fn writes_fail_while_the_lock_is_not_free() {
    let mut ids = IdSource::new();
    let mut port = ViewPort::new();
    port.activate_tool(Tool::MoveDraw(MoveDrawTool::new("alice", ElementType::Rectangle)))
        .unwrap();
    port.begin_write().unwrap();
    let locked = Err(LockError("Failed to acquire lock"));
    assert_eq!(port.begin_write(), locked);
    assert_eq!(port.add_entity(rectangle_entity(0, (1, 1), (2, 2))), locked);
    assert_eq!(port.activate_tool(Tool::Select(SelectTool::new())), locked);
    assert_eq!(port.interaction_event(down(1, 1), &mut ids), locked);
    assert!(port.entities().is_empty());
    assert!(port.active_tool().unwrap().is_idle());
    assert!(matches!(port.active_tool(), Some(Tool::MoveDraw(_))));

    port.abandon_write();
    assert_eq!(port.lock_state(), LockState::Poisoned);
    port.end_write();
    assert_eq!(port.lock_state(), LockState::Poisoned);
    assert_eq!(port.add_entity(rectangle_entity(0, (1, 1), (2, 2))), locked);
    assert_eq!(port.begin_write(), locked);
    assert!(!port.render(&mut CanvasRenderer::new()));

    let mut free = ViewPort::new();
    free.end_write();
    free.abandon_write();
    assert_eq!(free.lock_state(), LockState::Free);
    assert_eq!(free.add_entity(rectangle_entity(0, (1, 1), (2, 2))), Ok(()));
}
