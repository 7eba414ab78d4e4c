//! The persisted format of the shape models that hold no entities.
use crate::entity::{ModelView, ShapeModel};
use crate::geometry::{is_coordinate, Point2, Polygon2D, Rectangle, Text, TextView, Vector2};
use crate::json::{json_views, lemma_member_at, member_views, JsonValue, JsonView};
use crate::path::{Arc, Path, PathCommand};
use crate::persist::{
    int_member, ints_from_json, ints_json, lemma_differ_at, lemma_ints_round_trip,
    lemma_point_round_trip, lemma_shape_style_round_trip, lemma_text_style_round_trip,
    parse_ints, parse_point, parse_shape_style, parse_text_style, point_from_json, point_json,
    point_to_json, read_int, read_text, shape_style_from_json, shape_style_json,
    shape_style_to_json, text_member, text_style_from_json, text_style_json, text_style_to_json,
};
use crate::style::{ShapeStyle, ShapeStyleView, TextStyle, TextStyleView};
use crate::text::{owned, same_text};
use vstd::prelude::*;

verus! {

/// Points as JSON: the array of the points.
pub open spec fn points_json(points: Seq<Point2>) -> JsonView {
    JsonView::Array(Seq::new(points.len(), |i: int| point_json(points[i])))
}

/// The points that a JSON value gives: an array of points.
pub open spec fn parse_points(json: JsonView) -> Option<Seq<Point2>> {
    match json {
        JsonView::Array(items) => if forall|i: int|
            0 <= i < items.len() ==> parse_point(#[trigger] items[i]) is Some {
            Some(Seq::new(items.len(), |i: int| parse_point(items[i])->0))
        } else {
            None
        },
        _ => None,
    }
}

/// Reading written points gives the points.
pub proof fn lemma_points_round_trip(points: Seq<Point2>)
    ensures
        parse_points(points_json(points)) == Some(points),
{
    let items = points_json(points)->Array_0;
    assert forall|i: int| 0 <= i < items.len() implies parse_point(#[trigger] items[i]) == Some(
        points[i],
    ) by {
        lemma_point_round_trip(points[i]);
    }
}

pub fn points_to_json(points: &Vec<Point2>) -> (r: JsonValue)
    ensures
        r@ == points_json(points@),
{
    let mut items: Vec<JsonValue> = Vec::new();
    let mut i: usize = 0;
    while i < points.len()
        invariant
            i <= points.len(),
            items@.len() == i,
            forall|k: int| 0 <= k < i ==> (#[trigger] items@[k])@ == point_json(points@[k]),
        decreases points.len() - i,
    {
        items.push(point_to_json(points[i]));
        i += 1;
    }
    assert(json_views(items@) =~= points_json(points@)->Array_0);
    JsonValue::Array(items)
}

pub fn points_from_json(json: &JsonValue) -> (r: Option<Vec<Point2>>)
    ensures
        r is Some <==> parse_points(json@) is Some,
        r matches Some(points) ==> Some(points@) == parse_points(json@),
{
    match json.as_array() {
        Some(items) => {
            let ghost views = json_views(items@);
            let mut points: Vec<Point2> = Vec::new();
            let mut i: usize = 0;
            while i < items.len()
                invariant
                    i <= items.len(),
                    views == json_views(items@),
                    json@.as_array() == Some(views),
                    points@.len() == i,
                    forall|k: int| 0 <= k < i ==> parse_point(#[trigger] views[k]) == Some(
                        points@[k],
                    ),
                decreases items.len() - i,
            {
                match point_from_json(&items[i]) {
                    Some(p) => {
                        points.push(p);
                    },
                    None => {
                        assert(parse_point(views[i as int]) is None);
                        return None;
                    },
                }
                i += 1;
            }
            Some(points)
        },
        None => None,
    }
}

/// The letter of a path command.
pub open spec fn command_op(command: PathCommand) -> Seq<char> {
    match command {
        PathCommand::MoveTo(_) => "M"@,
        PathCommand::LineTo(_) => "L"@,
        PathCommand::HorizontalLineTo(_) => "H"@,
        PathCommand::VerticalLineTo(_) => "V"@,
        PathCommand::BezierTo(_, _, _) => "C"@,
        PathCommand::ArcTo(_) => "A"@,
        PathCommand::Close => "Z"@,
    }
}

/// `1` for `true`, `0` for `false`.
pub open spec fn flag_int(flag: bool) -> int {
    if flag {
        1
    } else {
        0
    }
}

/// The numbers of a path command, in the order of the SVG notation.
pub open spec fn command_args(command: PathCommand) -> Seq<int> {
    match command {
        PathCommand::MoveTo(p) => seq![p.x as int, p.y as int],
        PathCommand::LineTo(p) => seq![p.x as int, p.y as int],
        PathCommand::HorizontalLineTo(x) => seq![x as int],
        PathCommand::VerticalLineTo(y) => seq![y as int],
        PathCommand::BezierTo(c1, c2, p) => seq![
            c1.x as int,
            c1.y as int,
            c2.x as int,
            c2.y as int,
            p.x as int,
            p.y as int,
        ],
        PathCommand::ArcTo(arc) => seq![
            arc.radius_x as int,
            arc.radius_y as int,
            arc.rotation as int,
            flag_int(arc.large_arc),
            flag_int(arc.sweep),
            arc.to.x as int,
            arc.to.y as int,
        ],
        PathCommand::Close => Seq::empty(),
    }
}

/// Whether every number of `args` is a coordinate.
pub open spec fn all_coordinates(args: Seq<int>) -> bool {
    forall|i: int| 0 <= i < args.len() ==> is_coordinate(#[trigger] args[i])
}

/// Whether `args` are the numbers of an arc: two radii, a rotation, two
/// flags and a point.
pub open spec fn arc_args(args: Seq<int>) -> bool {
    &&& args.len() == 7
    &&& 0 <= args[0] <= u32::MAX
    &&& 0 <= args[1] <= u32::MAX
    &&& is_coordinate(args[2])
    &&& 0 <= args[3] <= 1
    &&& 0 <= args[4] <= 1
    &&& is_coordinate(args[5])
    &&& is_coordinate(args[6])
}

/// The path command with the letter `op` and the numbers `args`.
pub open spec fn decode_command(op: Seq<char>, args: Seq<int>) -> Option<PathCommand> {
    if op == "M"@ {
        if args.len() == 2 && all_coordinates(args) {
            Some(PathCommand::MoveTo(Point2 { x: args[0] as i32, y: args[1] as i32 }))
        } else {
            None
        }
    } else if op == "L"@ {
        if args.len() == 2 && all_coordinates(args) {
            Some(PathCommand::LineTo(Point2 { x: args[0] as i32, y: args[1] as i32 }))
        } else {
            None
        }
    } else if op == "H"@ {
        if args.len() == 1 && all_coordinates(args) {
            Some(PathCommand::HorizontalLineTo(args[0] as i32))
        } else {
            None
        }
    } else if op == "V"@ {
        if args.len() == 1 && all_coordinates(args) {
            Some(PathCommand::VerticalLineTo(args[0] as i32))
        } else {
            None
        }
    } else if op == "C"@ {
        if args.len() == 6 && all_coordinates(args) {
            Some(
                PathCommand::BezierTo(
                    Point2 { x: args[0] as i32, y: args[1] as i32 },
                    Point2 { x: args[2] as i32, y: args[3] as i32 },
                    Point2 { x: args[4] as i32, y: args[5] as i32 },
                ),
            )
        } else {
            None
        }
    } else if op == "A"@ {
        if arc_args(args) {
            Some(
                PathCommand::ArcTo(
                    Arc {
                        radius_x: args[0] as u32,
                        radius_y: args[1] as u32,
                        rotation: args[2] as i32,
                        large_arc: args[3] == 1,
                        sweep: args[4] == 1,
                        to: Point2 { x: args[5] as i32, y: args[6] as i32 },
                    },
                ),
            )
        } else {
            None
        }
    } else if op == "Z"@ {
        if args.len() == 0 {
            Some(PathCommand::Close)
        } else {
            None
        }
    } else {
        None
    }
}

/// A path command as JSON: the object of its letter `op` and its numbers
/// `args`.
pub open spec fn command_json(command: PathCommand) -> JsonView {
    JsonView::Object(
        seq![
            ("op"@, JsonView::Text(command_op(command))),
            ("args"@, ints_json(command_args(command))),
        ],
    )
}

/// The path command that a JSON value gives.
pub open spec fn parse_command(json: JsonView) -> Option<PathCommand> {
    match (text_member(json, "op"@), json.get("args"@)) {
        (Some(op), Some(args)) => match parse_ints(args, i128::MIN as int, i128::MAX as int) {
            Some(args) => decode_command(op, args),
            None => None,
        },
        _ => None,
    }
}

proof fn lemma_letters_differ()
    ensures
        "M"@ != "L"@,
        "M"@ != "H"@,
        "M"@ != "V"@,
        "M"@ != "C"@,
        "M"@ != "A"@,
        "M"@ != "Z"@,
        "L"@ != "H"@,
        "L"@ != "V"@,
        "L"@ != "C"@,
        "L"@ != "A"@,
        "L"@ != "Z"@,
        "H"@ != "V"@,
        "H"@ != "C"@,
        "H"@ != "A"@,
        "H"@ != "Z"@,
        "V"@ != "C"@,
        "V"@ != "A"@,
        "V"@ != "Z"@,
        "C"@ != "A"@,
        "C"@ != "Z"@,
        "A"@ != "Z"@,
{
    reveal_strlit("M");
    reveal_strlit("L");
    reveal_strlit("H");
    reveal_strlit("V");
    reveal_strlit("C");
    reveal_strlit("A");
    reveal_strlit("Z");
    lemma_differ_at("M"@, "L"@, 0);
    lemma_differ_at("M"@, "H"@, 0);
    lemma_differ_at("M"@, "V"@, 0);
    lemma_differ_at("M"@, "C"@, 0);
    lemma_differ_at("M"@, "A"@, 0);
    lemma_differ_at("M"@, "Z"@, 0);
    lemma_differ_at("L"@, "H"@, 0);
    lemma_differ_at("L"@, "V"@, 0);
    lemma_differ_at("L"@, "C"@, 0);
    lemma_differ_at("L"@, "A"@, 0);
    lemma_differ_at("L"@, "Z"@, 0);
    lemma_differ_at("H"@, "V"@, 0);
    lemma_differ_at("H"@, "C"@, 0);
    lemma_differ_at("H"@, "A"@, 0);
    lemma_differ_at("H"@, "Z"@, 0);
    lemma_differ_at("V"@, "C"@, 0);
    lemma_differ_at("V"@, "A"@, 0);
    lemma_differ_at("V"@, "Z"@, 0);
    lemma_differ_at("C"@, "A"@, 0);
    lemma_differ_at("C"@, "Z"@, 0);
    lemma_differ_at("A"@, "Z"@, 0);
}

/// Decoding the letter and the numbers of a command gives the command.
pub proof fn lemma_decode_command(command: PathCommand)
    ensures
        decode_command(command_op(command), command_args(command)) == Some(command),
{
    lemma_letters_differ();
}

/// Reading a written path command gives the command.
pub proof fn lemma_command_round_trip(command: PathCommand)
    ensures
        parse_command(command_json(command)) == Some(command),
{
    reveal_strlit("op");
    reveal_strlit("args");
    lemma_differ_at("op"@, "args"@, 0);
    let members = command_json(command)->Object_0;
    lemma_member_at(members, 0);
    lemma_member_at(members, 1);
    lemma_ints_round_trip(command_args(command), i128::MIN as int, i128::MAX as int);
    lemma_decode_command(command);
}

fn ints_to_json(values: &Vec<i128>) -> (r: JsonValue)
    ensures
        r@ == ints_json(values@.map_values(|v: i128| v as int)),
{
    let mut items: Vec<JsonValue> = Vec::new();
    let mut i: usize = 0;
    while i < values.len()
        invariant
            i <= values.len(),
            items@.len() == i,
            forall|k: int| 0 <= k < i ==> (#[trigger] items@[k])@ == JsonView::Number(values@[k]),
        decreases values.len() - i,
    {
        items.push(JsonValue::Number(values[i]));
        i += 1;
    }
    assert(json_views(items@) =~= ints_json(values@.map_values(|v: i128| v as int))->Array_0);
    JsonValue::Array(items)
}

fn flag_number(flag: bool) -> (r: i128)
    ensures
        r == flag_int(flag),
{
    if flag {
        1
    } else {
        0
    }
}

pub fn command_to_json(command: &PathCommand) -> (r: JsonValue)
    ensures
        r@ == command_json(*command),
{
    let (op, args): (&str, Vec<i128>) = match *command {
        PathCommand::MoveTo(p) => ("M", vec![p.x as i128, p.y as i128]),
        PathCommand::LineTo(p) => ("L", vec![p.x as i128, p.y as i128]),
        PathCommand::HorizontalLineTo(x) => ("H", vec![x as i128]),
        PathCommand::VerticalLineTo(y) => ("V", vec![y as i128]),
        PathCommand::BezierTo(c1, c2, p) => (
            "C",
            vec![c1.x as i128, c1.y as i128, c2.x as i128, c2.y as i128, p.x as i128, p.y as i128],
        ),
        PathCommand::ArcTo(arc) => (
            "A",
            vec![
                arc.radius_x as i128,
                arc.radius_y as i128,
                arc.rotation as i128,
                flag_number(arc.large_arc),
                flag_number(arc.sweep),
                arc.to.x as i128,
                arc.to.y as i128,
            ],
        ),
        PathCommand::Close => ("Z", Vec::new()),
    };
    assert(args@.map_values(|v: i128| v as int) =~= command_args(*command));
    let members = vec![(owned("op"), JsonValue::text(op)), (owned("args"), ints_to_json(&args))];
    assert(member_views(members@) =~= command_json(*command)->Object_0);
    JsonValue::Object(members)
}

fn in_plane(v: i128) -> (r: bool)
    ensures
        r == is_coordinate(v as int),
{
    i32::MIN as i128 <= v && v <= i32::MAX as i128
}

fn all_in_plane(args: &Vec<i128>) -> (r: bool)
    ensures
        r == all_coordinates(args@.map_values(|v: i128| v as int)),
{
    let ghost ints = args@.map_values(|v: i128| v as int);
    let mut i: usize = 0;
    while i < args.len()
        invariant
            i <= args.len(),
            ints == args@.map_values(|v: i128| v as int),
            forall|k: int| 0 <= k < i ==> is_coordinate(#[trigger] ints[k]),
        decreases args.len() - i,
    {
        if !in_plane(args[i]) {
            assert(!is_coordinate(ints[i as int]));
            return false;
        }
        i += 1;
    }
    true
}

fn decode(op: &str, args: &Vec<i128>) -> (r: Option<PathCommand>)
    ensures
        r == decode_command(op@, args@.map_values(|v: i128| v as int)),
{
    let n = args.len();
    if same_text(op, "M") {
        if n == 2 && all_in_plane(args) {
            Some(PathCommand::MoveTo(Point2 { x: args[0] as i32, y: args[1] as i32 }))
        } else {
            None
        }
    } else if same_text(op, "L") {
        if n == 2 && all_in_plane(args) {
            Some(PathCommand::LineTo(Point2 { x: args[0] as i32, y: args[1] as i32 }))
        } else {
            None
        }
    } else if same_text(op, "H") {
        if n == 1 && all_in_plane(args) {
            Some(PathCommand::HorizontalLineTo(args[0] as i32))
        } else {
            None
        }
    } else if same_text(op, "V") {
        if n == 1 && all_in_plane(args) {
            Some(PathCommand::VerticalLineTo(args[0] as i32))
        } else {
            None
        }
    } else if same_text(op, "C") {
        if n == 6 && all_in_plane(args) {
            Some(
                PathCommand::BezierTo(
                    Point2 { x: args[0] as i32, y: args[1] as i32 },
                    Point2 { x: args[2] as i32, y: args[3] as i32 },
                    Point2 { x: args[4] as i32, y: args[5] as i32 },
                ),
            )
        } else {
            None
        }
    } else if same_text(op, "A") {
        if n == 7 && 0 <= args[0] && args[0] <= u32::MAX as i128 && 0 <= args[1] && args[1]
            <= u32::MAX as i128 && in_plane(args[2]) && 0 <= args[3] && args[3] <= 1 && 0
            <= args[4] && args[4] <= 1 && in_plane(args[5]) && in_plane(args[6]) {
            Some(
                PathCommand::ArcTo(
                    Arc {
                        radius_x: args[0] as u32,
                        radius_y: args[1] as u32,
                        rotation: args[2] as i32,
                        large_arc: args[3] == 1,
                        sweep: args[4] == 1,
                        to: Point2 { x: args[5] as i32, y: args[6] as i32 },
                    },
                ),
            )
        } else {
            None
        }
    } else if same_text(op, "Z") {
        if n == 0 {
            Some(PathCommand::Close)
        } else {
            None
        }
    } else {
        None
    }
}

pub fn command_from_json(json: &JsonValue) -> (r: Option<PathCommand>)
    ensures
        r == parse_command(json@),
{
    match (read_text(json, "op"), json.get("args")) {
        (Some(op), Some(args)) => match ints_from_json(args, i128::MIN, i128::MAX) {
            Some(args) => decode(op, &args),
            None => None,
        },
        _ => None,
    }
}

/// Path commands as JSON: the array of the commands.
pub open spec fn commands_json(commands: Seq<PathCommand>) -> JsonView {
    JsonView::Array(Seq::new(commands.len(), |i: int| command_json(commands[i])))
}

/// The path commands that a JSON value gives: an array of commands.
pub open spec fn parse_commands(json: JsonView) -> Option<Seq<PathCommand>> {
    match json {
        JsonView::Array(items) => if forall|i: int|
            0 <= i < items.len() ==> parse_command(#[trigger] items[i]) is Some {
            Some(Seq::new(items.len(), |i: int| parse_command(items[i])->0))
        } else {
            None
        },
        _ => None,
    }
}

/// Reading written path commands gives the commands.
pub proof fn lemma_commands_round_trip(commands: Seq<PathCommand>)
    ensures
        parse_commands(commands_json(commands)) == Some(commands),
{
    let items = commands_json(commands)->Array_0;
    assert forall|i: int| 0 <= i < items.len() implies parse_command(#[trigger] items[i])
        == Some(commands[i]) by {
        lemma_command_round_trip(commands[i]);
    }
}

pub fn commands_to_json(commands: &Vec<PathCommand>) -> (r: JsonValue)
    ensures
        r@ == commands_json(commands@),
{
    let mut items: Vec<JsonValue> = Vec::new();
    let mut i: usize = 0;
    while i < commands.len()
        invariant
            i <= commands.len(),
            items@.len() == i,
            forall|k: int| 0 <= k < i ==> (#[trigger] items@[k])@ == command_json(commands@[k]),
        decreases commands.len() - i,
    {
        items.push(command_to_json(&commands[i]));
        i += 1;
    }
    assert(json_views(items@) =~= commands_json(commands@)->Array_0);
    JsonValue::Array(items)
}

pub fn commands_from_json(json: &JsonValue) -> (r: Option<Vec<PathCommand>>)
    ensures
        r is Some <==> parse_commands(json@) is Some,
        r matches Some(commands) ==> Some(commands@) == parse_commands(json@),
{
    match json.as_array() {
        Some(items) => {
            let ghost views = json_views(items@);
            let mut commands: Vec<PathCommand> = Vec::new();
            let mut i: usize = 0;
            while i < items.len()
                invariant
                    i <= items.len(),
                    views == json_views(items@),
                    json@.as_array() == Some(views),
                    commands@.len() == i,
                    forall|k: int| 0 <= k < i ==> parse_command(#[trigger] views[k]) == Some(
                        commands@[k],
                    ),
                decreases items.len() - i,
            {
                match command_from_json(&items[i]) {
                    Some(c) => {
                        commands.push(c);
                    },
                    None => {
                        assert(parse_command(views[i as int]) is None);
                        return None;
                    },
                }
                i += 1;
            }
            Some(commands)
        },
        None => None,
    }
}

/// The model of a rectangle as JSON: the object of `top_left`, `width`,
/// `height` and `style`.
pub open spec fn rectangle_json(rectangle: Rectangle, style: ShapeStyleView) -> JsonView {
    JsonView::Object(
        seq![
            ("top_left"@, point_json(rectangle.top_left)),
            ("width"@, JsonView::Number(rectangle.spec_width() as i128)),
            ("height"@, JsonView::Number(rectangle.spec_height() as i128)),
            ("style"@, shape_style_json(style)),
        ],
    )
}

/// The model of a rectangle that a JSON value gives. The corner opposite
/// to `top_left` must be a point of the plane.
pub open spec fn parse_rectangle(json: JsonView) -> Option<ModelView> {
    match (
        json.get("top_left"@),
        int_member(json, "width"@, i64::MIN as int, i64::MAX as int),
        int_member(json, "height"@, i64::MIN as int, i64::MAX as int),
        json.get("style"@),
    ) {
        (Some(top_left), Some(width), Some(height), Some(style)) => match (
            parse_point(top_left),
            parse_shape_style(style),
        ) {
            (Some(top_left), Some(style)) => {
                let extent = Vector2 { dx: width as i64, dy: height as i64 };
                if top_left.offset_fits(extent) {
                    Some(
                        ModelView::Rectangle {
                            rectangle: Rectangle { top_left, opposite: top_left.offset(extent) },
                            style,
                        },
                    )
                } else {
                    None
                }
            },
            _ => None,
        },
        _ => None,
    }
}

/// Reading the written model of a rectangle gives the model.
pub proof fn lemma_rectangle_round_trip(rectangle: Rectangle, style: ShapeStyleView)
    ensures
        parse_rectangle(rectangle_json(rectangle, style)) == Some(
            ModelView::Rectangle { rectangle, style },
        ),
{
    reveal_strlit("top_left");
    reveal_strlit("width");
    reveal_strlit("height");
    reveal_strlit("style");
    lemma_differ_at("top_left"@, "width"@, 0);
    lemma_differ_at("top_left"@, "height"@, 0);
    lemma_differ_at("top_left"@, "style"@, 0);
    lemma_differ_at("width"@, "height"@, 0);
    lemma_differ_at("width"@, "style"@, 0);
    lemma_differ_at("height"@, "style"@, 0);
    let members = rectangle_json(rectangle, style)->Object_0;
    lemma_member_at(members, 0);
    lemma_member_at(members, 1);
    lemma_member_at(members, 2);
    lemma_member_at(members, 3);
    lemma_point_round_trip(rectangle.top_left);
    lemma_shape_style_round_trip(style);
}

pub fn rectangle_to_json(rectangle: &Rectangle, style: &ShapeStyle) -> (r: JsonValue)
    ensures
        r@ == rectangle_json(*rectangle, style@),
{
    let members = vec![
        (owned("top_left"), point_to_json(rectangle.top_left)),
        (owned("width"), JsonValue::Number(rectangle.width() as i128)),
        (owned("height"), JsonValue::Number(rectangle.height() as i128)),
        (owned("style"), shape_style_to_json(style)),
    ];
    assert(member_views(members@) =~= rectangle_json(*rectangle, style@)->Object_0);
    JsonValue::Object(members)
}

pub fn rectangle_from_json(json: &JsonValue) -> (r: Option<ShapeModel>)
    ensures
        r is Some <==> parse_rectangle(json@) is Some,
        r matches Some(model) ==> Some(model@) == parse_rectangle(json@),
{
    let top_left = json.get("top_left");
    let width = read_int(json, "width", i64::MIN as i128, i64::MAX as i128);
    let height = read_int(json, "height", i64::MIN as i128, i64::MAX as i128);
    let style = json.get("style");
    match (top_left, width, height, style) {
        (Some(top_left), Some(width), Some(height), Some(style)) => match (
            point_from_json(top_left),
            shape_style_from_json(style),
        ) {
            (Some(top_left), Some(style)) => {
                match top_left.translated(Vector2 { dx: width as i64, dy: height as i64 }) {
                    Some(opposite) => Some(
                        ShapeModel::Rectangle {
                            rectangle: Rectangle { top_left, opposite },
                            style,
                        },
                    ),
                    None => None,
                }
            },
            _ => None,
        },
        _ => None,
    }
}

/// The model of a polygon as JSON: the object of `vertices` and `style`.
pub open spec fn polygon_json(vertices: Seq<Point2>, style: ShapeStyleView) -> JsonView {
    JsonView::Object(
        seq![("vertices"@, points_json(vertices)), ("style"@, shape_style_json(style))],
    )
}

/// The model of a polygon that a JSON value gives.
pub open spec fn parse_polygon(json: JsonView) -> Option<ModelView> {
    match (json.get("vertices"@), json.get("style"@)) {
        (Some(vertices), Some(style)) => match (parse_points(vertices), parse_shape_style(style)) {
            (Some(vertices), Some(style)) => Some(ModelView::Polygon { vertices, style }),
            _ => None,
        },
        _ => None,
    }
}

/// Reading the written model of a polygon gives the model.
pub proof fn lemma_polygon_round_trip(vertices: Seq<Point2>, style: ShapeStyleView)
    ensures
        parse_polygon(polygon_json(vertices, style)) == Some(
            ModelView::Polygon { vertices, style },
        ),
{
    reveal_strlit("vertices");
    reveal_strlit("style");
    lemma_differ_at("vertices"@, "style"@, 0);
    let members = polygon_json(vertices, style)->Object_0;
    lemma_member_at(members, 0);
    lemma_member_at(members, 1);
    lemma_points_round_trip(vertices);
    lemma_shape_style_round_trip(style);
}

pub fn polygon_to_json(polygon: &Polygon2D, style: &ShapeStyle) -> (r: JsonValue)
    ensures
        r@ == polygon_json(polygon@, style@),
{
    let members = vec![
        (owned("vertices"), points_to_json(polygon.vertices())),
        (owned("style"), shape_style_to_json(style)),
    ];
    assert(member_views(members@) =~= polygon_json(polygon@, style@)->Object_0);
    JsonValue::Object(members)
}

pub fn polygon_from_json(json: &JsonValue) -> (r: Option<ShapeModel>)
    ensures
        r is Some <==> parse_polygon(json@) is Some,
        r matches Some(model) ==> Some(model@) == parse_polygon(json@),
{
    match (json.get("vertices"), json.get("style")) {
        (Some(vertices), Some(style)) => match (
            points_from_json(vertices),
            shape_style_from_json(style),
        ) {
            (Some(vertices), Some(style)) => Some(
                ShapeModel::Polygon { polygon: Polygon2D::new(vertices), style },
            ),
            _ => None,
        },
        _ => None,
    }
}

/// The model of a free-hand path as JSON: the object of `commands` and
/// `style`.
pub open spec fn free_hand_json(
    commands: Seq<PathCommand>,
    style: ShapeStyleView,
) -> JsonView {
    JsonView::Object(
        seq![("commands"@, commands_json(commands)), ("style"@, shape_style_json(style))],
    )
}

/// The model of a free-hand path that a JSON value gives.
pub open spec fn parse_free_hand(json: JsonView) -> Option<ModelView> {
    match (json.get("commands"@), json.get("style"@)) {
        (Some(commands), Some(style)) => match (
            parse_commands(commands),
            parse_shape_style(style),
        ) {
            (Some(commands), Some(style)) => Some(ModelView::FreeHand { commands, style }),
            _ => None,
        },
        _ => None,
    }
}

/// Reading the written model of a free-hand path gives the model.
pub proof fn lemma_free_hand_round_trip(
    commands: Seq<PathCommand>,
    style: ShapeStyleView,
)
    ensures
        parse_free_hand(free_hand_json(commands, style)) == Some(
            ModelView::FreeHand { commands, style },
        ),
{
    reveal_strlit("commands");
    reveal_strlit("style");
    lemma_differ_at("commands"@, "style"@, 0);
    let members = free_hand_json(commands, style)->Object_0;
    lemma_member_at(members, 0);
    lemma_member_at(members, 1);
    lemma_commands_round_trip(commands);
    lemma_shape_style_round_trip(style);
}

pub fn free_hand_to_json(path: &Path, style: &ShapeStyle) -> (r: JsonValue)
    ensures
        r@ == free_hand_json(path@, style@),
{
    let members = vec![
        (owned("commands"), commands_to_json(path.commands())),
        (owned("style"), shape_style_to_json(style)),
    ];
    assert(member_views(members@) =~= free_hand_json(path@, style@)->Object_0);
    JsonValue::Object(members)
}

pub fn free_hand_from_json(json: &JsonValue) -> (r: Option<ShapeModel>)
    ensures
        r is Some <==> parse_free_hand(json@) is Some,
        r matches Some(model) ==> Some(model@) == parse_free_hand(json@),
{
    match (json.get("commands"), json.get("style")) {
        (Some(commands), Some(style)) => match (
            commands_from_json(commands),
            shape_style_from_json(style),
        ) {
            (Some(commands), Some(style)) => Some(
                ShapeModel::FreeHand { path: Path::new(commands), style },
            ),
            _ => None,
        },
        _ => None,
    }
}

/// The model of a text as JSON: the object of `content`, `anchor` and
/// `style`.
pub open spec fn text_json(text: TextView, style: TextStyleView) -> JsonView {
    JsonView::Object(
        seq![
            ("content"@, JsonView::Text(text.content)),
            ("anchor"@, point_json(text.anchor)),
            ("style"@, text_style_json(style)),
        ],
    )
}

/// The model of a text that a JSON value gives.
pub open spec fn parse_text(json: JsonView) -> Option<ModelView> {
    match (text_member(json, "content"@), json.get("anchor"@), json.get("style"@)) {
        (Some(content), Some(anchor), Some(style)) => match (
            parse_point(anchor),
            parse_text_style(style),
        ) {
            (Some(anchor), Some(text_style)) => Some(
                ModelView::Text { text: TextView { content, anchor }, text_style },
            ),
            _ => None,
        },
        _ => None,
    }
}

/// Reading the written model of a text gives the model.
pub proof fn lemma_text_round_trip(text: TextView, style: TextStyleView)
    ensures
        parse_text(text_json(text, style)) == Some(ModelView::Text { text, text_style: style }),
{
    reveal_strlit("content");
    reveal_strlit("anchor");
    reveal_strlit("style");
    lemma_differ_at("content"@, "anchor"@, 0);
    lemma_differ_at("content"@, "style"@, 0);
    lemma_differ_at("anchor"@, "style"@, 0);
    let members = text_json(text, style)->Object_0;
    lemma_member_at(members, 0);
    lemma_member_at(members, 1);
    lemma_member_at(members, 2);
    lemma_point_round_trip(text.anchor);
    lemma_text_style_round_trip(style);
}

pub fn text_to_json(text: &Text, style: &TextStyle) -> (r: JsonValue)
    ensures
        r@ == text_json(text@, style@),
{
    let members = vec![
        (owned("content"), JsonValue::text(text.content.as_str())),
        (owned("anchor"), point_to_json(text.anchor)),
        (owned("style"), text_style_to_json(style)),
    ];
    assert(member_views(members@) =~= text_json(text@, style@)->Object_0);
    JsonValue::Object(members)
}

pub fn text_from_json(json: &JsonValue) -> (r: Option<ShapeModel>)
    ensures
        r is Some <==> parse_text(json@) is Some,
        r matches Some(model) ==> Some(model@) == parse_text(json@),
{
    match (read_text(json, "content"), json.get("anchor"), json.get("style")) {
        (Some(content), Some(anchor), Some(style)) => match (
            point_from_json(anchor),
            text_style_from_json(style),
        ) {
            (Some(anchor), Some(text_style)) => Some(
                ShapeModel::Text { text: Text { content: owned(content), anchor }, text_style },
            ),
            _ => None,
        },
        _ => None,
    }
}

} // verus!
