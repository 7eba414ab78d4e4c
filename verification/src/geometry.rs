//! Points, displacements and the primitive shapes.
use vstd::prelude::*;

verus! {

/// A point of the drawing plane.
#[derive(Copy, Clone, Debug, PartialEq, Eq, Hash, Structural)]
pub struct Point2 {
    pub x: i32,
    pub y: i32,
}

/// A displacement between two points.
#[derive(Copy, Clone, Debug, PartialEq, Eq, Hash, Structural)]
pub struct Vector2 {
    pub dx: i64,
    pub dy: i64,
}

/// Whether `v` is the coordinate of some point.
pub open spec fn is_coordinate(v: int) -> bool {
    i32::MIN <= v <= i32::MAX
}

impl Point2 {
    pub fn new(x: i32, y: i32) -> (r: Point2)
        ensures
            r == (Point2 { x, y }),
    {
        Point2 { x, y }
    }

    /// The origin of the plane.
    pub fn origin() -> (r: Point2)
        ensures
            r == (Point2 { x: 0, y: 0 }),
    {
        Point2 { x: 0, y: 0 }
    }

    pub fn x(&self) -> (r: i32)
        ensures
            r == self.x,
    {
        self.x
    }

    pub fn y(&self) -> (r: i32)
        ensures
            r == self.y,
    {
        self.y
    }

    /// The displacement that carries `self` to `other`.
    pub open spec fn spec_displacement_to(self, other: Point2) -> Vector2 {
        Vector2 { dx: (other.x - self.x) as i64, dy: (other.y - self.y) as i64 }
    }

    /// Whether `self` moved by `by` is still a point of the plane.
    pub open spec fn offset_fits(self, by: Vector2) -> bool {
        is_coordinate(self.x + by.dx) && is_coordinate(self.y + by.dy)
    }

    /// `self` moved by `by`.
    pub open spec fn offset(self, by: Vector2) -> Point2 {
        Point2 { x: (self.x + by.dx) as i32, y: (self.y + by.dy) as i32 }
    }

    /// The displacement that carries `self` to `other`.
    pub fn displacement_to(&self, other: Point2) -> (r: Vector2)
        ensures
            r == self.spec_displacement_to(other),
            r.dx == other.x - self.x,
            r.dy == other.y - self.y,
    {
        Vector2 { dx: other.x as i64 - self.x as i64, dy: other.y as i64 - self.y as i64 }
    }

    /// `self` moved by `by`, or `None` where that leaves the plane.
    pub fn translated(&self, by: Vector2) -> (r: Option<Point2>)
        ensures
            r == (if self.offset_fits(by) {
                Some(self.offset(by))
            } else {
                None::<Point2>
            }),
    {
        let x: i128 = self.x as i128 + by.dx as i128;
        let y: i128 = self.y as i128 + by.dy as i128;
        if x < i32::MIN as i128 || x > i32::MAX as i128 || y < i32::MIN as i128 || y
            > i32::MAX as i128 {
            None
        } else {
            Some(Point2 { x: x as i32, y: y as i32 })
        }
    }
}

/// Whether `v + d` is a coordinate.
pub open spec fn shift_fits(v: i32, d: i64) -> bool {
    is_coordinate(v + d)
}

/// `v` moved by `d`, or `None` where that is no coordinate.
pub fn shifted(v: i32, d: i64) -> (r: Option<i32>)
    ensures
        r == (if shift_fits(v, d) {
            Some((v + d) as i32)
        } else {
            None::<i32>
        }),
{
    let moved: i128 = v as i128 + d as i128;
    if moved < i32::MIN as i128 || moved > i32::MAX as i128 {
        None
    } else {
        Some(moved as i32)
    }
}

/// An axis-parallel rectangle, kept as its anchor corner `top_left` and the
/// corner `opposite` to it. Width and height are the signed differences of
/// the two, so either may be negative while a rectangle is being dragged.
#[derive(Copy, Clone, Debug, PartialEq, Eq, Hash, Structural)]
pub struct Rectangle {
    pub top_left: Point2,
    pub opposite: Point2,
}

pub open spec fn min_int(a: int, b: int) -> int {
    if a <= b {
        a
    } else {
        b
    }
}

pub open spec fn max_int(a: int, b: int) -> int {
    if a >= b {
        a
    } else {
        b
    }
}

impl Rectangle {
    /// The signed width.
    pub open spec fn spec_width(self) -> int {
        self.opposite.x - self.top_left.x
    }

    /// The signed height.
    pub open spec fn spec_height(self) -> int {
        self.opposite.y - self.top_left.y
    }

    /// The four corner points.
    pub open spec fn corners(self) -> Set<Point2> {
        set![
            self.top_left,
            self.opposite,
            Point2 { x: self.top_left.x, y: self.opposite.y },
            Point2 { x: self.opposite.x, y: self.top_left.y },
        ]
    }

    /// The rectangle with the same corners and non-negative extents.
    pub open spec fn spec_absolute_sized(self) -> Rectangle {
        Rectangle {
            top_left: Point2 {
                x: min_int(self.top_left.x as int, self.opposite.x as int) as i32,
                y: min_int(self.top_left.y as int, self.opposite.y as int) as i32,
            },
            opposite: Point2 {
                x: max_int(self.top_left.x as int, self.opposite.x as int) as i32,
                y: max_int(self.top_left.y as int, self.opposite.y as int) as i32,
            },
        }
    }

    /// Whether `p` lies in the rectangle, its border included.
    pub open spec fn spec_contains(self, p: Point2) -> bool {
        let a = self.spec_absolute_sized();
        a.top_left.x <= p.x <= a.opposite.x && a.top_left.y <= p.y <= a.opposite.y
    }

    /// Whether the rectangle moved by `by` stays in the plane.
    pub open spec fn offset_fits(self, by: Vector2) -> bool {
        self.top_left.offset_fits(by) && self.opposite.offset_fits(by)
    }

    /// The rectangle moved by `by`.
    pub open spec fn offset(self, by: Vector2) -> Rectangle {
        Rectangle { top_left: self.top_left.offset(by), opposite: self.opposite.offset(by) }
    }

    /// The rectangle at `top_left` with the given signed extents, or `None`
    /// where its opposite corner is no point of the plane.
    pub fn new(top_left: Point2, width: i64, height: i64) -> (r: Option<Rectangle>)
        ensures
            r is Some <==> top_left.offset_fits(Vector2 { dx: width, dy: height }),
            r matches Some(rect) ==> rect.top_left == top_left && rect.spec_width() == width
                && rect.spec_height() == height,
    {
        match top_left.translated(Vector2 { dx: width, dy: height }) {
            Some(opposite) => Some(Rectangle { top_left, opposite }),
            None => None,
        }
    }

    /// The rectangle of no extent at `at`.
    pub fn zero_sized(at: Point2) -> (r: Rectangle)
        ensures
            r == (Rectangle { top_left: at, opposite: at }),
            r.spec_width() == 0,
            r.spec_height() == 0,
    {
        Rectangle { top_left: at, opposite: at }
    }

    /// The rectangle spanned from `anchor` to `corner`.
    pub fn spanning(anchor: Point2, corner: Point2) -> (r: Rectangle)
        ensures
            r == (Rectangle { top_left: anchor, opposite: corner }),
            r.spec_width() == corner.x - anchor.x,
            r.spec_height() == corner.y - anchor.y,
    {
        Rectangle { top_left: anchor, opposite: corner }
    }

    pub fn top_left(&self) -> (r: Point2)
        ensures
            r == self.top_left,
    {
        self.top_left
    }

    pub fn opposite(&self) -> (r: Point2)
        ensures
            r == self.opposite,
    {
        self.opposite
    }

    pub fn width(&self) -> (r: i64)
        ensures
            r == self.spec_width(),
    {
        self.opposite.x as i64 - self.top_left.x as i64
    }

    pub fn height(&self) -> (r: i64)
        ensures
            r == self.spec_height(),
    {
        self.opposite.y as i64 - self.top_left.y as i64
    }

    /// The rectangle with the same corners and non-negative extents.
    pub fn absolute_sized(&self) -> (r: Rectangle)
        ensures
            r == self.spec_absolute_sized(),
            r.spec_width() >= 0,
            r.spec_height() >= 0,
    {
        let (left, right) = if self.top_left.x <= self.opposite.x {
            (self.top_left.x, self.opposite.x)
        } else {
            (self.opposite.x, self.top_left.x)
        };
        let (top, bottom) = if self.top_left.y <= self.opposite.y {
            (self.top_left.y, self.opposite.y)
        } else {
            (self.opposite.y, self.top_left.y)
        };
        Rectangle { top_left: Point2 { x: left, y: top }, opposite: Point2 { x: right, y: bottom } }
    }

    /// Whether `p` lies in the rectangle, its border included.
    pub fn contains(&self, p: Point2) -> (r: bool)
        ensures
            r == self.spec_contains(p),
    {
        let a = self.absolute_sized();
        a.top_left.x <= p.x && p.x <= a.opposite.x && a.top_left.y <= p.y && p.y <= a.opposite.y
    }

    /// The rectangle moved by `by`, or `None` where that leaves the plane.
    pub fn translated(&self, by: Vector2) -> (r: Option<Rectangle>)
        ensures
            r == (if self.offset_fits(by) {
                Some(self.offset(by))
            } else {
                None::<Rectangle>
            }),
    {
        match (self.top_left.translated(by), self.opposite.translated(by)) {
            (Some(top_left), Some(opposite)) => Some(Rectangle { top_left, opposite }),
            _ => None,
        }
    }
}

/// Canonicalising a rectangle gives non-negative extents, keeps the four
/// corner points, and changes nothing when done a second time.
pub proof fn lemma_absolute_sized(r: Rectangle)
    ensures
        r.spec_absolute_sized().spec_width() >= 0,
        r.spec_absolute_sized().spec_height() >= 0,
        r.spec_absolute_sized().corners() == r.corners(),
        r.spec_absolute_sized().spec_absolute_sized() == r.spec_absolute_sized(),
{
}

/// A straight segment between two points.
#[derive(Copy, Clone, Debug, PartialEq, Eq, Hash, Structural)]
pub struct Segment2D {
    pub start: Point2,
    pub end: Point2,
}

impl Segment2D {
    pub fn new(start: Point2, end: Point2) -> (r: Segment2D)
        ensures
            r == (Segment2D { start, end }),
    {
        Segment2D { start, end }
    }

    pub fn start(&self) -> (r: Point2)
        ensures
            r == self.start,
    {
        self.start
    }

    pub fn end(&self) -> (r: Point2)
        ensures
            r == self.end,
    {
        self.end
    }
}

/// A circle.
#[derive(Copy, Clone, Debug, PartialEq, Eq, Hash, Structural)]
pub struct Circle {
    pub center: Point2,
    pub radius: u32,
}

/// An axis-parallel ellipse.
#[derive(Copy, Clone, Debug, PartialEq, Eq, Hash, Structural)]
pub struct Ellipse {
    pub center: Point2,
    pub radius_x: u32,
    pub radius_y: u32,
}

/// The affine transform `(x, y) -> (a x + c y + e, b x + d y + f)`, handed
/// through to the backends as it is.
#[derive(Copy, Clone, Debug, PartialEq, Eq, Hash, Structural)]
pub struct Transform2D {
    pub a: i64,
    pub b: i64,
    pub c: i64,
    pub d: i64,
    pub e: i64,
    pub f: i64,
}

/// The least x among the points of a non-empty sequence.
pub open spec fn min_x(points: Seq<Point2>) -> int
    decreases points.len(),
{
    if points.len() <= 1 {
        points[0].x as int
    } else {
        min_int(min_x(points.drop_last()), points.last().x as int)
    }
}

/// The greatest x among the points of a non-empty sequence.
pub open spec fn max_x(points: Seq<Point2>) -> int
    decreases points.len(),
{
    if points.len() <= 1 {
        points[0].x as int
    } else {
        max_int(max_x(points.drop_last()), points.last().x as int)
    }
}

/// The least y among the points of a non-empty sequence.
pub open spec fn min_y(points: Seq<Point2>) -> int
    decreases points.len(),
{
    if points.len() <= 1 {
        points[0].y as int
    } else {
        min_int(min_y(points.drop_last()), points.last().y as int)
    }
}

/// The greatest y among the points of a non-empty sequence.
pub open spec fn max_y(points: Seq<Point2>) -> int
    decreases points.len(),
{
    if points.len() <= 1 {
        points[0].y as int
    } else {
        max_int(max_y(points.drop_last()), points.last().y as int)
    }
}

/// The smallest rectangle that holds every point of a non-empty sequence.
pub open spec fn bounds_of(points: Seq<Point2>) -> Rectangle {
    Rectangle {
        top_left: Point2 { x: min_x(points) as i32, y: min_y(points) as i32 },
        opposite: Point2 { x: max_x(points) as i32, y: max_y(points) as i32 },
    }
}

/// Whether `p` lies in the bounding box of `points`; no point lies in the
/// bounding box of the empty sequence.
pub open spec fn in_bounds(points: Seq<Point2>, p: Point2) -> bool {
    points.len() > 0 && min_x(points) <= p.x <= max_x(points) && min_y(points) <= p.y <= max_y(
        points,
    )
}

/// The extremes of a non-empty sequence are coordinates of its points.
pub proof fn lemma_extremes_are_coordinates(points: Seq<Point2>)
    requires
        points.len() > 0,
    ensures
        is_coordinate(min_x(points)),
        is_coordinate(max_x(points)),
        is_coordinate(min_y(points)),
        is_coordinate(max_y(points)),
        min_x(points) <= max_x(points),
        min_y(points) <= max_y(points),
    decreases points.len(),
{
    if points.len() > 1 {
        lemma_extremes_are_coordinates(points.drop_last());
    }
}

/// The bounding box of `points`, or `None` where there is no point.
pub fn bounding_box(points: &Vec<Point2>) -> (r: Option<Rectangle>)
    ensures
        r == (if points@.len() > 0 {
            Some(bounds_of(points@))
        } else {
            None::<Rectangle>
        }),
{
    if points.len() == 0 {
        return None;
    }
    let mut left: i32 = points[0].x;
    let mut right: i32 = points[0].x;
    let mut top: i32 = points[0].y;
    let mut bottom: i32 = points[0].y;
    let mut i: usize = 1;
    while i < points.len()
        invariant
            1 <= i <= points.len(),
            left == min_x(points@.take(i as int)),
            right == max_x(points@.take(i as int)),
            top == min_y(points@.take(i as int)),
            bottom == max_y(points@.take(i as int)),
        decreases points.len() - i,
    {
        let p = points[i];
        assert(points@.take(i as int + 1).drop_last() =~= points@.take(i as int));
        if p.x < left {
            left = p.x;
        }
        if p.x > right {
            right = p.x;
        }
        if p.y < top {
            top = p.y;
        }
        if p.y > bottom {
            bottom = p.y;
        }
        i += 1;
    }
    assert(points@.take(i as int) =~= points@);
    Some(
        Rectangle {
            top_left: Point2 { x: left, y: top },
            opposite: Point2 { x: right, y: bottom },
        },
    )
}

/// Whether every point of `points` moved by `by` stays in the plane.
pub open spec fn all_fit(points: Seq<Point2>, by: Vector2) -> bool {
    forall|i: int| 0 <= i < points.len() ==> (#[trigger] points[i]).offset_fits(by)
}

/// Every point of `points` moved by `by`.
pub open spec fn all_offset(points: Seq<Point2>, by: Vector2) -> Seq<Point2> {
    points.map_values(|p: Point2| p.offset(by))
}

/// Every point of `points` moved by `by`, or `None` where one of them
/// leaves the plane.
pub fn translated_points(points: &Vec<Point2>, by: Vector2) -> (r: Option<Vec<Point2>>)
    ensures
        r is Some <==> all_fit(points@, by),
        r matches Some(moved) ==> moved@ == all_offset(points@, by),
{
    let mut moved: Vec<Point2> = Vec::new();
    let mut i: usize = 0;
    while i < points.len()
        invariant
            i <= points.len(),
            all_fit(points@.take(i as int), by),
            moved@ == all_offset(points@.take(i as int), by),
        decreases points.len() - i,
    {
        match points[i].translated(by) {
            Some(p) => {
                moved.push(p);
                assert forall|k: int| 0 <= k < i + 1 implies (#[trigger] points@.take(
                    i as int + 1,
                )[k]).offset_fits(by) by {}
            },
            None => {
                return None;
            },
        }
        i += 1;
    }
    assert(points@.take(i as int) =~= points@);
    Some(moved)
}

/// A copy of a sequence of points.
pub fn copy_points(points: &Vec<Point2>) -> (r: Vec<Point2>)
    ensures
        r@ == points@,
{
    let mut out: Vec<Point2> = Vec::new();
    let mut i: usize = 0;
    while i < points.len()
        invariant
            i <= points.len(),
            out@ == points@.take(i as int),
        decreases points.len() - i,
    {
        out.push(points[i]);
        i += 1;
    }
    out
}

/// A polygon, as the ordered sequence of its vertices.
#[derive(Debug, PartialEq, Eq)]
pub struct Polygon2D {
    pub vertices: Vec<Point2>,
}

impl View for Polygon2D {
    type V = Seq<Point2>;

    open spec fn view(&self) -> Seq<Point2> {
        self.vertices@
    }
}

impl Clone for Polygon2D {
    fn clone(&self) -> (r: Polygon2D)
        ensures
            r@ == self@,
    {
        Polygon2D { vertices: copy_points(&self.vertices) }
    }
}

impl Polygon2D {
    /// The polygon without vertices.
    pub fn empty() -> (r: Polygon2D)
        ensures
            r@ == Seq::<Point2>::empty(),
    {
        Polygon2D { vertices: Vec::new() }
    }

    /// The polygon with the given vertices, in their order.
    pub fn new(vertices: Vec<Point2>) -> (r: Polygon2D)
        ensures
            r@ == vertices@,
    {
        Polygon2D { vertices }
    }

    pub fn vertices(&self) -> (r: &Vec<Point2>)
        ensures
            r@ == self@,
    {
        &self.vertices
    }

    /// Appends a vertex.
    pub fn push(&mut self, vertex: Point2)
        ensures
            final(self)@ == old(self)@.push(vertex),
    {
        self.vertices.push(vertex);
    }
}

/// A text and the point it is anchored at.
#[derive(Debug, PartialEq, Eq)]
pub struct Text {
    pub content: String,
    pub anchor: Point2,
}

/// What a [`Text`] holds, as mathematical values.
pub struct TextView {
    pub content: Seq<char>,
    pub anchor: Point2,
}

impl View for Text {
    type V = TextView;

    open spec fn view(&self) -> TextView {
        TextView { content: self.content@, anchor: self.anchor }
    }
}

impl Clone for Text {
    fn clone(&self) -> (r: Text)
        ensures
            r@ == self@,
    {
        Text { content: self.content.clone(), anchor: self.anchor }
    }
}

impl Text {
    pub fn new(content: &str, anchor: Point2) -> (r: Text)
        ensures
            r@ == (TextView { content: content@, anchor }),
    {
        Text { content: String::from_str(content), anchor }
    }
}

} // verus!
