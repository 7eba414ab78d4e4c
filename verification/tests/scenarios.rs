use whiteboard::element::id::Id;
use whiteboard::element::ElementType;
use whiteboard::entity::ShapeModel;
use whiteboard::geometry::{Point2, Polygon2D};
use whiteboard::renderer::canvas_renderer::{CanvasOp, CanvasRenderer};
use whiteboard::renderer::svg_renderer::SVGRenderer;
use whiteboard::style::ShapeStyle;
use whiteboard::view_port::LockState;
use whiteboard::whiteboard::Whiteboard;

fn draw_rectangle(board: &mut Whiteboard, from: (i32, i32), to: (i32, i32)) {
    board.activate_move_draw(ElementType::Rectangle);
    board.mouse_down(from.0, from.1);
    board.mouse_move(to.0, to.1);
    board.mouse_up(to.0, to.1);
}

#[test]
fn draw_a_rectangle() {
    let mut board = Whiteboard::new("alice");
    assert_eq!(board.owner_id(), "alice");
    board.activate_move_draw(ElementType::Rectangle);
    board.mouse_down(10, 10);
    board.mouse_move(40, 30);
    assert_eq!(board.entities().len(), 0);
    board.mouse_up(40, 30);
    assert_eq!(board.entities().len(), 1);
    let entity = &board.entities()[0];
    assert_eq!(entity.id(), &Id::new("alice", 0, ElementType::Rectangle));
    match entity.model() {
        ShapeModel::Rectangle { rectangle, style } => {
            assert_eq!(rectangle.top_left(), Point2::new(10, 10));
            assert_eq!(rectangle.width(), 30);
            assert_eq!(rectangle.height(), 20);
            assert_eq!(style, &ShapeStyle::default());
        }
        _ => panic!("a rectangle was drawn"),
    }
    assert!(board.view_port().active_tool().unwrap().is_idle());
}

#[test]
fn draw_an_inverted_rectangle() {
    let mut board = Whiteboard::new("alice");
    board.activate_move_draw(ElementType::Rectangle);
    board.mouse_down(50, 50);
    board.mouse_move(20, 10);
    board.mouse_up(0, 0);
    assert_eq!(board.entities().len(), 1);
    match board.entities()[0].model() {
        ShapeModel::Rectangle { rectangle, .. } => {
            assert_eq!(rectangle.top_left(), Point2::new(20, 10));
            assert_eq!(rectangle.width(), 30);
            assert_eq!(rectangle.height(), 40);
        }
        _ => panic!("a rectangle was drawn"),
    }
}

#[test]
fn polygon_with_enter() {
    let mut board = Whiteboard::new("alice");
    board.activate_click_draw(ElementType::Polygon);
    board.mouse_down(0, 0);
    board.mouse_down(10, 0);
    board.mouse_down(10, 10);
    assert_eq!(board.entities().len(), 0);
    board.key_down("Enter");
    assert_eq!(board.entities().len(), 1);
    assert_eq!(board.entities()[0].id(), &Id::new("alice", 0, ElementType::Polygon));
    assert_eq!(
        board.entities()[0].model(),
        &ShapeModel::Polygon {
            polygon: Polygon2D::new(vec![
                Point2::new(0, 0),
                Point2::new(10, 0),
                Point2::new(10, 10),
            ]),
            style: ShapeStyle::default(),
        }
    );
}

#[test]
fn esc_aborts() {
    let mut board = Whiteboard::new("alice");
    board.activate_move_draw(ElementType::Rectangle);
    board.mouse_down(10, 10);
    board.mouse_move(40, 30);
    assert!(!board.view_port().active_tool().unwrap().is_idle());
    board.key_down("Escape");
    assert!(board.view_port().active_tool().unwrap().is_idle());
    board.mouse_up(40, 30);
    assert!(board.entities().is_empty());
    assert!(board.view_port().active_tool().unwrap().is_idle());

    board.activate_click_draw(ElementType::Polygon);
    board.mouse_down(0, 0);
    board.mouse_down(5, 5);
    board.key_down("Escape");
    board.key_down("Enter");
    assert!(board.entities().is_empty());
    assert!(board.view_port().active_tool().unwrap().is_idle());
}

#[test]
fn select_and_delete() {
    let mut board = Whiteboard::new("alice");
    draw_rectangle(&mut board, (10, 10), (40, 30));
    assert_eq!(board.entities().len(), 1);
    board.activate_select_tool();
    board.mouse_down(15, 15);
    board.mouse_up(15, 15);
    board.key_up("Delete");
    assert_eq!(board.entities().len(), 1);
    board.key_down("Delete");
    assert!(board.entities().is_empty());
}

#[test]
fn retained_svg_incremental() {
    let mut board = Whiteboard::new("alice");
    draw_rectangle(&mut board, (10, 10), (40, 30));
    let mut svg = SVGRenderer::new();
    board.render_svg(&mut svg);
    assert_eq!(svg.nodes().len(), 1);
    let node = &svg.nodes()[0];
    assert_eq!(node.tag(), "rect");
    assert_eq!(node.id(), Some("alice-0"));
    assert_eq!(node.attribute("x"), Some("10"));
    assert_eq!(node.attribute("y"), Some("10"));
    assert_eq!(node.attribute("width"), Some("30"));
    assert_eq!(node.attribute("height"), Some("20"));
    assert_eq!(
        node.attribute("style"),
        Some("fill: #00000000; stroke: #000000ff; stroke-width: 1;")
    );

    board.mouse_down(50, 50);
    board.mouse_move(60, 70);
    board.render_svg(&mut svg);
    assert_eq!(svg.nodes().len(), 2);
    assert_eq!(svg.nodes()[0].id(), Some("alice-0"));
    assert_eq!(svg.nodes()[1].tag(), "rect");
    assert_eq!(svg.nodes()[1].id(), None);
    assert_eq!(svg.nodes()[1].attribute("x"), Some("50"));
    assert_eq!(svg.nodes()[1].attribute("width"), Some("10"));
    assert_eq!(svg.nodes()[1].attribute("height"), Some("20"));

    board.mouse_up(60, 70);
    board.render_svg(&mut svg);
    assert_eq!(svg.nodes().len(), 2);
    assert_eq!(svg.nodes()[1].id(), Some("alice-1"));
}

#[test]
fn finish_drawing_reaches_the_view_port() {
    let mut board = Whiteboard::new("bob");
    for (round, kind) in [ElementType::Rectangle, ElementType::FreeHand, ElementType::Text]
        .into_iter()
        .enumerate()
    {
        board.activate_move_draw(kind);
        let before = board.entities().len();
        board.mouse_down(1, 2);
        board.mouse_move(3, 4);
        board.mouse_up(5, 6);
        assert_eq!(board.entities().len(), before + 1);
        let last = board.entities().last().unwrap();
        assert_eq!(*last.id().element_type(), kind);
        assert_eq!(last.model().kind(), kind);
        assert_eq!(last.id().index(), round);
        assert_eq!(last.id().owner_id(), "bob");
    }
}

#[test]
fn no_two_entities_share_an_identifier() {
    let mut board = Whiteboard::new("alice");
    for round in 0..6 {
        draw_rectangle(&mut board, (round, round), (round + 5, round + 5));
        board.mouse_down(0, 0);
        board.activate_click_draw(ElementType::Polygon);
        board.mouse_down(round, 0);
        board.key_down("Enter");
    }
    let entities = board.entities();
    assert_eq!(entities.len(), 12);
    for i in 0..entities.len() {
        for j in (i + 1)..entities.len() {
            assert_ne!(entities[i].id(), entities[j].id());
        }
    }
}

#[test]
fn unknown_keys_and_missing_tools_change_nothing() {
    let mut board = Whiteboard::new("alice");
    board.mouse_down(1, 1);
    board.mouse_move(2, 2);
    board.mouse_up(3, 3);
    board.key_down("Enter");
    assert!(board.entities().is_empty());
    assert!(board.view_port().active_tool().is_none());
    board.activate_move_draw(ElementType::Rectangle);
    board.mouse_down(1, 1);
    board.key_down("Esc");
    board.key_down("q");
    assert!(!board.view_port().active_tool().unwrap().is_idle());
    board.key_up("Escape");
    assert!(!board.view_port().active_tool().unwrap().is_idle());
    assert_eq!(board.view_port().lock_state(), LockState::Free);
}

#[test]
fn a_frame_on_canvas() {
    let mut board = Whiteboard::new("alice");
    draw_rectangle(&mut board, (10, 10), (40, 30));
    let mut canvas = CanvasRenderer::new();
    board.render_canvas(&mut canvas);
    assert_eq!(
        canvas.directives(),
        &vec![
            CanvasOp::Reset,
            CanvasOp::SetFillStyle("#00000000".to_string()),
            CanvasOp::SetStrokeStyle("#000000ff".to_string()),
            CanvasOp::SetLineWidth(1),
            CanvasOp::SetLineDash(vec![]),
            CanvasOp::BeginPath,
            CanvasOp::FillRect { x: 10, y: 10, width: 30, height: 20 },
            CanvasOp::Rect { x: 10, y: 10, width: 30, height: 20 },
            CanvasOp::Stroke,
        ]
    );
    board.render(&mut canvas);
    assert_eq!(canvas.directives().len(), 9);
}
