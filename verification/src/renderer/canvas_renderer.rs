//! The canvas backend: it turns each primitive into the directives of a
//! 2D drawing context, in the order in which the context must get them.
use crate::geometry::{
    Circle, Ellipse, Point2, Polygon2D, Rectangle, Segment2D, Text, Transform2D,
};
use crate::path::{Path, PathCommand};
use crate::renderer::{Painted, Renderer};
use crate::style::{copy_dashes, ShapeStyle, ShapeStyleView, TextStyle};
use vstd::prelude::*;

verus! {

/// One directive for a 2D drawing context.
#[derive(Debug, PartialEq, Eq)]
pub enum CanvasOp {
    Reset,
    SetFillStyle(String),
    SetStrokeStyle(String),
    SetLineWidth(u32),
    SetLineDash(Vec<u32>),
    BeginPath,
    MoveTo(Point2),
    LineTo(Point2),
    ClosePath,
    Stroke,
    FillRect { x: i32, y: i32, width: i64, height: i64 },
    Rect { x: i32, y: i32, width: i64, height: i64 },
}

/// What a [`CanvasOp`] holds, as mathematical values.
pub enum CanvasOpView {
    Reset,
    SetFillStyle(Seq<char>),
    SetStrokeStyle(Seq<char>),
    SetLineWidth(u32),
    SetLineDash(Seq<u32>),
    BeginPath,
    MoveTo(Point2),
    LineTo(Point2),
    ClosePath,
    Stroke,
    FillRect { x: i32, y: i32, width: i64, height: i64 },
    Rect { x: i32, y: i32, width: i64, height: i64 },
}

impl View for CanvasOp {
    type V = CanvasOpView;

    open spec fn view(&self) -> CanvasOpView {
        match *self {
            CanvasOp::Reset => CanvasOpView::Reset,
            CanvasOp::SetFillStyle(color) => CanvasOpView::SetFillStyle(color@),
            CanvasOp::SetStrokeStyle(color) => CanvasOpView::SetStrokeStyle(color@),
            CanvasOp::SetLineWidth(width) => CanvasOpView::SetLineWidth(width),
            CanvasOp::SetLineDash(dashes) => CanvasOpView::SetLineDash(dashes@),
            CanvasOp::BeginPath => CanvasOpView::BeginPath,
            CanvasOp::MoveTo(p) => CanvasOpView::MoveTo(p),
            CanvasOp::LineTo(p) => CanvasOpView::LineTo(p),
            CanvasOp::ClosePath => CanvasOpView::ClosePath,
            CanvasOp::Stroke => CanvasOpView::Stroke,
            CanvasOp::FillRect { x, y, width, height } => CanvasOpView::FillRect {
                x,
                y,
                width,
                height,
            },
            CanvasOp::Rect { x, y, width, height } => CanvasOpView::Rect { x, y, width, height },
        }
    }
}

impl Clone for CanvasOp {
    fn clone(&self) -> (r: CanvasOp)
        ensures
            r@ == self@,
    {
        match self {
            CanvasOp::Reset => CanvasOp::Reset,
            CanvasOp::SetFillStyle(color) => CanvasOp::SetFillStyle(color.clone()),
            CanvasOp::SetStrokeStyle(color) => CanvasOp::SetStrokeStyle(color.clone()),
            CanvasOp::SetLineWidth(width) => CanvasOp::SetLineWidth(*width),
            CanvasOp::SetLineDash(dashes) => CanvasOp::SetLineDash(copy_dashes(dashes)),
            CanvasOp::BeginPath => CanvasOp::BeginPath,
            CanvasOp::MoveTo(p) => CanvasOp::MoveTo(*p),
            CanvasOp::LineTo(p) => CanvasOp::LineTo(*p),
            CanvasOp::ClosePath => CanvasOp::ClosePath,
            CanvasOp::Stroke => CanvasOp::Stroke,
            CanvasOp::FillRect { x, y, width, height } => CanvasOp::FillRect {
                x: *x,
                y: *y,
                width: *width,
                height: *height,
            },
            CanvasOp::Rect { x, y, width, height } => CanvasOp::Rect {
                x: *x,
                y: *y,
                width: *width,
                height: *height,
            },
        }
    }
}

/// The views of a sequence of directives.
pub open spec fn op_views(ops: Seq<CanvasOp>) -> Seq<CanvasOpView> {
    Seq::new(ops.len(), |i: int| ops[i]@)
}

/// The directives that apply a style: fill, stroke colour, line width and
/// dash pattern.
pub open spec fn style_ops(style: ShapeStyleView) -> Seq<CanvasOpView> {
    seq![
        CanvasOpView::SetFillStyle(style.fill_color.hex()),
        CanvasOpView::SetStrokeStyle(style.stroke.color.hex()),
        CanvasOpView::SetLineWidth(style.stroke.width),
        CanvasOpView::SetLineDash(style.stroke.dash_array),
    ]
}

/// The directive of one path command. Only `MoveTo` and `LineTo` have one.
pub open spec fn command_ops(command: PathCommand) -> Seq<CanvasOpView> {
    match command {
        PathCommand::MoveTo(p) => seq![CanvasOpView::MoveTo(p)],
        PathCommand::LineTo(p) => seq![CanvasOpView::LineTo(p)],
        _ => Seq::empty(),
    }
}

/// The directives of the commands of a path, in their order.
pub open spec fn commands_ops(commands: Seq<PathCommand>) -> Seq<CanvasOpView>
    decreases commands.len(),
{
    if commands.len() == 0 {
        Seq::empty()
    } else {
        commands_ops(commands.drop_last()) + command_ops(commands.last())
    }
}

/// The outline of a polygon: a move to the first vertex, then a line to
/// each of the others.
pub open spec fn outline_ops(vertices: Seq<Point2>) -> Seq<CanvasOpView> {
    Seq::new(
        vertices.len(),
        |i: int|
            if i == 0 {
                CanvasOpView::MoveTo(vertices[i])
            } else {
                CanvasOpView::LineTo(vertices[i])
            },
    )
}

/// The directives of one primitive. Circles, ellipses and texts have none,
/// and the transform is not applied.
pub open spec fn primitive_ops(primitive: Painted) -> Seq<CanvasOpView> {
    match primitive {
        Painted::Path(commands, style, _) => style_ops(style) + seq![CanvasOpView::BeginPath]
            + commands_ops(commands) + seq![CanvasOpView::Stroke],
        Painted::Segment(segment, style, _) => style_ops(style) + seq![
            CanvasOpView::BeginPath,
            CanvasOpView::MoveTo(segment.start),
            CanvasOpView::LineTo(segment.end),
            CanvasOpView::Stroke,
        ],
        Painted::Polygon(vertices, style, _) => style_ops(style) + seq![CanvasOpView::BeginPath]
            + outline_ops(vertices) + seq![CanvasOpView::ClosePath, CanvasOpView::Stroke],
        Painted::Rectangle(rectangle, style, _) => style_ops(style) + seq![
            CanvasOpView::BeginPath,
            CanvasOpView::FillRect {
                x: rectangle.top_left.x,
                y: rectangle.top_left.y,
                width: rectangle.spec_width() as i64,
                height: rectangle.spec_height() as i64,
            },
            CanvasOpView::Rect {
                x: rectangle.top_left.x,
                y: rectangle.top_left.y,
                width: rectangle.spec_width() as i64,
                height: rectangle.spec_height() as i64,
            },
            CanvasOpView::Stroke,
        ],
        Painted::Circle(_, _, _) => Seq::empty(),
        Painted::Ellipse(_, _, _) => Seq::empty(),
        Painted::Text(_, _, _) => Seq::empty(),
    }
}

/// The canvas backend. It holds the directives issued so far.
#[derive(Debug)]
pub struct CanvasRenderer {
    ops: Vec<CanvasOp>,
}

proof fn lemma_assemble(
    before: Seq<CanvasOpView>,
    style: Seq<CanvasOpView>,
    body: Seq<CanvasOpView>,
    tail: Seq<CanvasOpView>,
)
    ensures
        ((before + style).push(CanvasOpView::BeginPath) + body) + tail == before + (style + seq![
            CanvasOpView::BeginPath,
        ] + body + tail),
{
}

fn emit(ops: &mut Vec<CanvasOp>, op: CanvasOp)
    ensures
        op_views(final(ops)@) == op_views(old(ops)@).push(op@),
{
    ops.push(op);
}

fn apply_style(ops: &mut Vec<CanvasOp>, style: &ShapeStyle)
    ensures
        op_views(final(ops)@) == op_views(old(ops)@) + style_ops(style@),
{
    emit(ops, CanvasOp::SetFillStyle(style.fill_color.to_hex()));
    emit(ops, CanvasOp::SetStrokeStyle(style.stroke.color.to_hex()));
    emit(ops, CanvasOp::SetLineWidth(style.stroke.width));
    emit(ops, CanvasOp::SetLineDash(copy_dashes(&style.stroke.dash_array)));
}

impl View for CanvasRenderer {
    type V = Seq<CanvasOpView>;

    closed spec fn view(&self) -> Seq<CanvasOpView> {
        op_views(self.ops@)
    }
}

impl CanvasRenderer {
    /// A backend that has issued nothing.
    pub fn new() -> (r: CanvasRenderer)
        ensures
            r.wf(),
            r@ == Seq::<CanvasOpView>::empty(),
    {
        let r = CanvasRenderer { ops: Vec::new() };
        r
    }

    /// The directives issued since the backend was made or last cleared,
    /// in the order in which the drawing context must get them.
    pub fn directives(&self) -> (r: &Vec<CanvasOp>)
        ensures
            op_views(r@) == self@,
    {
        &self.ops
    }
}

impl Renderer for CanvasRenderer {
    type State = Seq<CanvasOpView>;

    open spec fn state(&self) -> Seq<CanvasOpView> {
        self@
    }

    open spec fn wf(&self) -> bool {
        true
    }

    /// After `clear` the only directive is a reset.
    open spec fn cleared(state: Seq<CanvasOpView>) -> Seq<CanvasOpView> {
        seq![CanvasOpView::Reset]
    }

    /// A primitive adds its directives at the end.
    open spec fn drawn(state: Seq<CanvasOpView>, primitive: Painted) -> Seq<CanvasOpView> {
        state + primitive_ops(primitive)
    }

    /// Discards the directives issued so far and issues a reset.
    fn clear(&mut self)
        ensures
            final(self)@ == seq![CanvasOpView::Reset],
    {
        self.ops.clear();
        emit(&mut self.ops, CanvasOp::Reset);
        assert(op_views(self.ops@) =~= seq![CanvasOpView::Reset]);
    }

    /// Applies the style, opens a path, walks the commands in order and
    /// strokes. Commands other than `MoveTo` and `LineTo` issue nothing.
    fn path(&mut self, path: &Path, style: &ShapeStyle, transform: Option<Transform2D>)
        ensures
            final(self)@ == old(self)@ + primitive_ops(Painted::Path(path@, style@, transform)),
    {
        let ghost before = op_views(self.ops@);
        apply_style(&mut self.ops, style);
        emit(&mut self.ops, CanvasOp::BeginPath);
        let ghost opened = op_views(self.ops@);
        let commands = path.commands();
        let mut i: usize = 0;
        while i < commands.len()
            invariant
                i <= commands.len(),
                commands@ == path@,
                op_views(self.ops@) == opened + commands_ops(path@.take(i as int)),
            decreases commands.len() - i,
        {
            assert(path@.take(i as int + 1).drop_last() =~= path@.take(i as int));
            match commands[i] {
                PathCommand::MoveTo(p) => {
                    emit(&mut self.ops, CanvasOp::MoveTo(p));
                },
                PathCommand::LineTo(p) => {
                    emit(&mut self.ops, CanvasOp::LineTo(p));
                },
                _ => {},
            }
            i += 1;
        }
        assert(path@.take(i as int) =~= path@);
        emit(&mut self.ops, CanvasOp::Stroke);
        proof {
            let body = commands_ops(path@);
            let tail = seq![CanvasOpView::Stroke];
            assert(op_views(self.ops@) =~= (opened + body) + tail);
            lemma_assemble(before, style_ops(style@), body, tail);
        }
    }

    /// Applies the style and strokes the segment.
    fn segment(&mut self, segment: &Segment2D, style: &ShapeStyle, transform: Option<Transform2D>)
        ensures
            final(self)@ == old(self)@ + primitive_ops(
                Painted::Segment(*segment, style@, transform),
            ),
    {
        let ghost before = op_views(self.ops@);
        apply_style(&mut self.ops, style);
        emit(&mut self.ops, CanvasOp::BeginPath);
        let ghost opened = op_views(self.ops@);
        emit(&mut self.ops, CanvasOp::MoveTo(segment.start));
        emit(&mut self.ops, CanvasOp::LineTo(segment.end));
        emit(&mut self.ops, CanvasOp::Stroke);
        proof {
            let primitive = Painted::Segment(*segment, style@, transform);
            let body = seq![CanvasOpView::MoveTo(segment.start), CanvasOpView::LineTo(segment.end)];
            let tail = seq![CanvasOpView::Stroke];
            assert(op_views(self.ops@) =~= (opened + body) + tail);
            lemma_assemble(before, style_ops(style@), body, tail);
            assert(primitive_ops(primitive) =~= style_ops(style@) + seq![CanvasOpView::BeginPath]
                + body + tail);
        }
    }

    /// Applies the style, walks the vertices, closes the outline and
    /// strokes it.
    fn polygon(&mut self, polygon: &Polygon2D, style: &ShapeStyle, transform: Option<Transform2D>)
        ensures
            final(self)@ == old(self)@ + primitive_ops(
                Painted::Polygon(polygon@, style@, transform),
            ),
    {
        let ghost before = op_views(self.ops@);
        apply_style(&mut self.ops, style);
        emit(&mut self.ops, CanvasOp::BeginPath);
        let ghost opened = op_views(self.ops@);
        let vertices = polygon.vertices();
        let mut i: usize = 0;
        while i < vertices.len()
            invariant
                i <= vertices.len(),
                vertices@ == polygon@,
                op_views(self.ops@) == opened + outline_ops(polygon@.take(i as int)),
            decreases vertices.len() - i,
        {
            if i == 0 {
                emit(&mut self.ops, CanvasOp::MoveTo(vertices[i]));
            } else {
                emit(&mut self.ops, CanvasOp::LineTo(vertices[i]));
            }
            i += 1;
        }
        assert(polygon@.take(i as int) =~= polygon@);
        let ghost walked = op_views(self.ops@);
        emit(&mut self.ops, CanvasOp::ClosePath);
        emit(&mut self.ops, CanvasOp::Stroke);
        proof {
            let body = outline_ops(polygon@);
            let tail = seq![CanvasOpView::ClosePath, CanvasOpView::Stroke];
            assert(walked.push(CanvasOpView::ClosePath).push(CanvasOpView::Stroke) =~= walked
                + tail);
            lemma_assemble(before, style_ops(style@), body, tail);
        }
    }

    /// Applies the style, then fills and strokes the rectangle.
    fn rectangle(
        &mut self,
        rectangle: &Rectangle,
        style: &ShapeStyle,
        transform: Option<Transform2D>,
    )
        ensures
            final(self)@ == old(self)@ + primitive_ops(
                Painted::Rectangle(*rectangle, style@, transform),
            ),
    {
        let ghost before = op_views(self.ops@);
        apply_style(&mut self.ops, style);
        let x = rectangle.top_left.x;
        let y = rectangle.top_left.y;
        let width = rectangle.width();
        let height = rectangle.height();
        emit(&mut self.ops, CanvasOp::BeginPath);
        let ghost opened = op_views(self.ops@);
        emit(&mut self.ops, CanvasOp::FillRect { x, y, width, height });
        emit(&mut self.ops, CanvasOp::Rect { x, y, width, height });
        emit(&mut self.ops, CanvasOp::Stroke);
        proof {
            let primitive = Painted::Rectangle(*rectangle, style@, transform);
            let body = seq![
                CanvasOpView::FillRect { x, y, width, height },
                CanvasOpView::Rect { x, y, width, height },
            ];
            let tail = seq![CanvasOpView::Stroke];
            assert(op_views(self.ops@) =~= (opened + body) + tail);
            lemma_assemble(before, style_ops(style@), body, tail);
            assert(primitive_ops(primitive) =~= style_ops(style@) + seq![CanvasOpView::BeginPath]
                + body + tail);
        }
    }

    /// Circles are not drawn by this backend: nothing is issued.
    fn circle(&mut self, circle: &Circle, style: &ShapeStyle, transform: Option<Transform2D>)
        ensures
            final(self)@ == old(self)@,
    {
    }

    /// Ellipses are not drawn by this backend: nothing is issued.
    fn ellipse(&mut self, ellipse: &Ellipse, style: &ShapeStyle, transform: Option<Transform2D>)
        ensures
            final(self)@ == old(self)@,
    {
    }

    /// Texts are not drawn by this backend: nothing is issued.
    fn text(&mut self, text: &Text, style: &TextStyle, transform: Option<Transform2D>)
        ensures
            final(self)@ == old(self)@,
    {
    }
}

} // verus!
