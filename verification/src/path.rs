//! Paths: ordered sequences of drawing commands.
use crate::geometry::{shift_fits, shifted, Point2, Vector2};
use crate::text::{decimal, decimal_nat, joined, lemma_joined_push, push_decimal, push_signed};
use vstd::prelude::*;

verus! {

/// An elliptical arc to a point.
#[derive(Copy, Clone, Debug, PartialEq, Eq, Hash, Structural)]
pub struct Arc {
    pub radius_x: u32,
    pub radius_y: u32,
    pub rotation: i32,
    pub large_arc: bool,
    pub sweep: bool,
    pub to: Point2,
}

/// One command of a path.
#[derive(Copy, Clone, Debug, PartialEq, Eq, Hash, Structural)]
pub enum PathCommand {
    MoveTo(Point2),
    LineTo(Point2),
    HorizontalLineTo(i32),
    VerticalLineTo(i32),
    BezierTo(Point2, Point2, Point2),
    ArcTo(Arc),
    Close,
}

/// The two coordinates of a point, separated by a space.
pub open spec fn coordinates_text(p: Point2) -> Seq<char> {
    decimal(p.x as int) + seq![' '] + decimal(p.y as int)
}

/// `1` for `true`, `0` for `false`.
pub open spec fn flag_text(flag: bool) -> Seq<char> {
    if flag {
        seq!['1']
    } else {
        seq!['0']
    }
}

impl PathCommand {
    /// The command in the notation of an SVG path.
    pub open spec fn text(self) -> Seq<char> {
        match self {
            PathCommand::MoveTo(p) => seq!['M', ' '] + coordinates_text(p),
            PathCommand::LineTo(p) => seq!['L', ' '] + coordinates_text(p),
            PathCommand::HorizontalLineTo(x) => seq!['H', ' '] + decimal(x as int),
            PathCommand::VerticalLineTo(y) => seq!['V', ' '] + decimal(y as int),
            PathCommand::BezierTo(c1, c2, p) => seq!['C', ' '] + coordinates_text(c1) + seq![' ']
                + coordinates_text(c2) + seq![' '] + coordinates_text(p),
            PathCommand::ArcTo(arc) => seq!['A', ' '] + decimal_nat(arc.radius_x as nat) + seq![' ']
                + decimal_nat(arc.radius_y as nat) + seq![' '] + decimal(arc.rotation as int)
                + seq![' '] + flag_text(arc.large_arc) + seq![' '] + flag_text(arc.sweep) + seq![
                ' ',
            ] + coordinates_text(arc.to),
            PathCommand::Close => seq!['Z'],
        }
    }

    /// The points that the command names.
    pub open spec fn named_points(self) -> Seq<Point2> {
        match self {
            PathCommand::MoveTo(p) => seq![p],
            PathCommand::LineTo(p) => seq![p],
            PathCommand::HorizontalLineTo(_) => Seq::empty(),
            PathCommand::VerticalLineTo(_) => Seq::empty(),
            PathCommand::BezierTo(c1, c2, p) => seq![c1, c2, p],
            PathCommand::ArcTo(arc) => seq![arc.to],
            PathCommand::Close => Seq::empty(),
        }
    }

    /// Whether the command moved by `by` stays in the plane.
    pub open spec fn offset_fits(self, by: Vector2) -> bool {
        match self {
            PathCommand::MoveTo(p) => p.offset_fits(by),
            PathCommand::LineTo(p) => p.offset_fits(by),
            PathCommand::HorizontalLineTo(x) => shift_fits(x, by.dx),
            PathCommand::VerticalLineTo(y) => shift_fits(y, by.dy),
            PathCommand::BezierTo(c1, c2, p) => c1.offset_fits(by) && c2.offset_fits(by)
                && p.offset_fits(by),
            PathCommand::ArcTo(arc) => arc.to.offset_fits(by),
            PathCommand::Close => true,
        }
    }

    /// The command moved by `by`.
    pub open spec fn offset(self, by: Vector2) -> PathCommand {
        match self {
            PathCommand::MoveTo(p) => PathCommand::MoveTo(p.offset(by)),
            PathCommand::LineTo(p) => PathCommand::LineTo(p.offset(by)),
            PathCommand::HorizontalLineTo(x) => PathCommand::HorizontalLineTo((x + by.dx) as i32),
            PathCommand::VerticalLineTo(y) => PathCommand::VerticalLineTo((y + by.dy) as i32),
            PathCommand::BezierTo(c1, c2, p) => PathCommand::BezierTo(
                c1.offset(by),
                c2.offset(by),
                p.offset(by),
            ),
            PathCommand::ArcTo(arc) => PathCommand::ArcTo(
                Arc {
                    radius_x: arc.radius_x,
                    radius_y: arc.radius_y,
                    rotation: arc.rotation,
                    large_arc: arc.large_arc,
                    sweep: arc.sweep,
                    to: arc.to.offset(by),
                },
            ),
            PathCommand::Close => PathCommand::Close,
        }
    }

    /// The command moved by `by`, or `None` where that leaves the plane.
    pub fn translated(&self, by: Vector2) -> (r: Option<PathCommand>)
        ensures
            r == (if self.offset_fits(by) {
                Some(self.offset(by))
            } else {
                None::<PathCommand>
            }),
    {
        match *self {
            PathCommand::MoveTo(p) => match p.translated(by) {
                Some(q) => Some(PathCommand::MoveTo(q)),
                None => None,
            },
            PathCommand::LineTo(p) => match p.translated(by) {
                Some(q) => Some(PathCommand::LineTo(q)),
                None => None,
            },
            PathCommand::HorizontalLineTo(x) => match shifted(x, by.dx) {
                Some(moved) => Some(PathCommand::HorizontalLineTo(moved)),
                None => None,
            },
            PathCommand::VerticalLineTo(y) => match shifted(y, by.dy) {
                Some(moved) => Some(PathCommand::VerticalLineTo(moved)),
                None => None,
            },
            PathCommand::BezierTo(c1, c2, p) => match (
                c1.translated(by),
                c2.translated(by),
                p.translated(by),
            ) {
                (Some(d1), Some(d2), Some(q)) => Some(PathCommand::BezierTo(d1, d2, q)),
                _ => None,
            },
            PathCommand::ArcTo(arc) => match arc.to.translated(by) {
                Some(q) => Some(
                    PathCommand::ArcTo(
                        Arc {
                            radius_x: arc.radius_x,
                            radius_y: arc.radius_y,
                            rotation: arc.rotation,
                            large_arc: arc.large_arc,
                            sweep: arc.sweep,
                            to: q,
                        },
                    ),
                ),
                None => None,
            },
            PathCommand::Close => Some(PathCommand::Close),
        }
    }

    /// Appends the points that the command names to `points`.
    pub fn collect_points(&self, points: &mut Vec<Point2>)
        ensures
            final(points)@ == old(points)@ + self.named_points(),
    {
        match *self {
            PathCommand::MoveTo(p) => {
                points.push(p);
            },
            PathCommand::LineTo(p) => {
                points.push(p);
            },
            PathCommand::BezierTo(c1, c2, p) => {
                points.push(c1);
                points.push(c2);
                points.push(p);
            },
            PathCommand::ArcTo(arc) => {
                points.push(arc.to);
            },
            _ => {},
        }
    }

    /// Appends the command, in the notation of an SVG path, to `out`.
    pub fn push_text(&self, out: &mut String)
        ensures
            final(out)@ == old(out)@ + self.text(),
    {
        match *self {
            PathCommand::MoveTo(p) => {
                proof {
                    reveal_strlit("M ");
                }
                out.append("M ");
                push_coordinates(out, p);
            },
            PathCommand::LineTo(p) => {
                proof {
                    reveal_strlit("L ");
                }
                out.append("L ");
                push_coordinates(out, p);
            },
            PathCommand::HorizontalLineTo(x) => {
                proof {
                    reveal_strlit("H ");
                }
                out.append("H ");
                push_signed(out, x as i64);
            },
            PathCommand::VerticalLineTo(y) => {
                proof {
                    reveal_strlit("V ");
                }
                out.append("V ");
                push_signed(out, y as i64);
            },
            PathCommand::BezierTo(c1, c2, p) => {
                push_bezier_text(out, c1, c2, p);
            },
            PathCommand::ArcTo(arc) => {
                push_arc_text(out, arc);
            },
            PathCommand::Close => {
                proof {
                    reveal_strlit("Z");
                }
                out.append("Z");
            },
        }
    }
}

fn push_bezier_text(out: &mut String, c1: Point2, c2: Point2, p: Point2)
    ensures
        final(out)@ == old(out)@ + PathCommand::BezierTo(c1, c2, p).text(),
{
    proof {
        reveal_strlit("C ");
        reveal_strlit(" ");
    }
    out.append("C ");
    push_coordinates(out, c1);
    out.append(" ");
    push_coordinates(out, c2);
    out.append(" ");
    push_coordinates(out, p);
}

fn push_arc_text(out: &mut String, arc: Arc)
    ensures
        final(out)@ == old(out)@ + PathCommand::ArcTo(arc).text(),
{
    proof {
        reveal_strlit("A ");
        reveal_strlit(" ");
    }
    out.append("A ");
    push_decimal(out, arc.radius_x as u64);
    out.append(" ");
    push_decimal(out, arc.radius_y as u64);
    out.append(" ");
    push_signed(out, arc.rotation as i64);
    out.append(" ");
    push_flag(out, arc.large_arc);
    out.append(" ");
    push_flag(out, arc.sweep);
    out.append(" ");
    push_coordinates(out, arc.to);
}

/// Appends the two coordinates of `p`, separated by a space, to `out`.
pub fn push_coordinates(out: &mut String, p: Point2)
    ensures
        final(out)@ == old(out)@ + coordinates_text(p),
{
    proof {
        reveal_strlit(" ");
    }
    push_signed(out, p.x as i64);
    out.append(" ");
    push_signed(out, p.y as i64);
}

fn push_flag(out: &mut String, flag: bool)
    ensures
        final(out)@ == old(out)@ + flag_text(flag),
{
    proof {
        reveal_strlit("1");
        reveal_strlit("0");
    }
    if flag {
        out.append("1");
    } else {
        out.append("0");
    }
}

/// The points that the commands name, in their order.
pub open spec fn named_points(commands: Seq<PathCommand>) -> Seq<Point2>
    decreases commands.len(),
{
    if commands.len() == 0 {
        Seq::empty()
    } else {
        named_points(commands.drop_last()) + commands.last().named_points()
    }
}

/// The path in the notation of SVG: its commands, separated by spaces.
pub open spec fn path_text(commands: Seq<PathCommand>) -> Seq<char> {
    joined(commands.map_values(|c: PathCommand| c.text()), seq![' '])
}

/// Whether every command moved by `by` stays in the plane.
pub open spec fn commands_fit(commands: Seq<PathCommand>, by: Vector2) -> bool {
    forall|i: int| 0 <= i < commands.len() ==> (#[trigger] commands[i]).offset_fits(by)
}

/// Every command moved by `by`.
pub open spec fn commands_offset(commands: Seq<PathCommand>, by: Vector2) -> Seq<PathCommand> {
    commands.map_values(|c: PathCommand| c.offset(by))
}

/// A path, as the ordered sequence of its commands.
#[derive(Debug, PartialEq, Eq)]
pub struct Path {
    pub commands: Vec<PathCommand>,
}

impl View for Path {
    type V = Seq<PathCommand>;

    open spec fn view(&self) -> Seq<PathCommand> {
        self.commands@
    }
}

impl Clone for Path {
    fn clone(&self) -> (r: Path)
        ensures
            r@ == self@,
    {
        let mut commands: Vec<PathCommand> = Vec::new();
        let mut i: usize = 0;
        while i < self.commands.len()
            invariant
                i <= self.commands.len(),
                commands@ == self@.take(i as int),
            decreases self.commands.len() - i,
        {
            commands.push(self.commands[i]);
            i += 1;
        }
        Path { commands }
    }
}

impl Path {
    /// The path without commands.
    pub fn empty() -> (r: Path)
        ensures
            r@ == Seq::<PathCommand>::empty(),
    {
        Path { commands: Vec::new() }
    }

    /// The path with the given commands, in their order.
    pub fn new(commands: Vec<PathCommand>) -> (r: Path)
        ensures
            r@ == commands@,
    {
        Path { commands }
    }

    pub fn commands(&self) -> (r: &Vec<PathCommand>)
        ensures
            r@ == self@,
    {
        &self.commands
    }

    /// Appends a command.
    pub fn push(&mut self, command: PathCommand)
        ensures
            final(self)@ == old(self)@.push(command),
    {
        self.commands.push(command);
    }

    /// The points that the commands name, in their order.
    pub fn points(&self) -> (r: Vec<Point2>)
        ensures
            r@ == named_points(self@),
    {
        let mut points: Vec<Point2> = Vec::new();
        let mut i: usize = 0;
        while i < self.commands.len()
            invariant
                i <= self.commands.len(),
                points@ == named_points(self@.take(i as int)),
            decreases self.commands.len() - i,
        {
            assert(self@.take(i as int + 1).drop_last() =~= self@.take(i as int));
            self.commands[i].collect_points(&mut points);
            i += 1;
        }
        assert(self@.take(i as int) =~= self@);
        points
    }

    /// The path in the notation of SVG.
    pub fn to_svg_path(&self) -> (r: String)
        ensures
            r@ == path_text(self@),
    {
        let mut out = String::new();
        let mut i: usize = 0;
        let ghost texts = |c: PathCommand| c.text();
        proof {
            reveal_strlit(" ");
        }
        while i < self.commands.len()
            invariant
                i <= self.commands.len(),
                texts == (|c: PathCommand| c.text()),
                out@ == joined(self@.take(i as int).map_values(texts), seq![' ']),
                " "@ == seq![' '],
            decreases self.commands.len() - i,
        {
            proof {
                let before = self@.take(i as int).map_values(texts);
                assert(self@.take(i as int + 1).map_values(texts) =~= before.push(
                    self@[i as int].text(),
                ));
                lemma_joined_push(before, self@[i as int].text(), seq![' ']);
            }
            if i > 0 {
                out.append(" ");
            }
            self.commands[i].push_text(&mut out);
            i += 1;
        }
        assert(self@.take(i as int) =~= self@);
        out
    }

    /// Every command moved by `by`, or `None` where one of them leaves the
    /// plane.
    pub fn translated(&self, by: Vector2) -> (r: Option<Path>)
        ensures
            r is Some <==> commands_fit(self@, by),
            r matches Some(moved) ==> moved@ == commands_offset(self@, by),
    {
        let mut moved: Vec<PathCommand> = Vec::new();
        let mut i: usize = 0;
        while i < self.commands.len()
            invariant
                i <= self.commands.len(),
                commands_fit(self@.take(i as int), by),
                moved@ == commands_offset(self@.take(i as int), by),
            decreases self.commands.len() - i,
        {
            match self.commands[i].translated(by) {
                Some(c) => {
                    moved.push(c);
                    assert forall|k: int| 0 <= k < i + 1 implies (#[trigger] self@.take(
                        i as int + 1,
                    )[k]).offset_fits(by) by {}
                },
                None => {
                    return None;
                },
            }
            i += 1;
        }
        assert(self@.take(i as int) =~= self@);
        Some(Path { commands: moved })
    }
}

} // verus!
