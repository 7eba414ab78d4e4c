//! SVG elements as values: a shape, free-form attributes and CSS
//! properties. Entities with an SVG feature describe themselves so.
use crate::entity::{Capability, Entity, EntityView, ModelView, ShapeModel};
use crate::geometry::{copy_points, Point2};
use crate::path::path_text;
use crate::search::{first_index, lemma_first_index_is};
use crate::style::{dash_text, dashes_to_text, ShapeStyle, ShapeStyleView};
use crate::text::{
    decimal, decimal_nat, joined, lemma_joined_push, natural_text, owned, push_signed, same_text,
};
use vstd::prelude::*;

verus! {

/// A name and its value.
pub type Property = (Seq<char>, Seq<char>);

/// The properties `entries` with `name` set to `value`: in place where the
/// name is there already, at the end where it is not.
pub open spec fn set_entry(entries: Seq<Property>, name: Seq<char>, value: Seq<char>) -> Seq<
    Property,
> {
    let at = first_index(entries, |e: Property| e.0 == name);
    if at < entries.len() {
        entries.update(at, (name, value))
    } else {
        entries.push((name, value))
    }
}

/// The properties `base` with each of `changes` set, in their order.
pub open spec fn set_entries(base: Seq<Property>, changes: Seq<Property>) -> Seq<Property>
    decreases changes.len(),
{
    if changes.len() == 0 {
        base
    } else {
        set_entry(set_entries(base, changes.drop_last()), changes.last().0, changes.last().1)
    }
}

/// Setting one more property after a run of changes.
pub proof fn lemma_set_entries_push(base: Seq<Property>, changes: Seq<Property>, last: Property)
    ensures
        set_entries(base, changes.push(last)) == set_entry(
            set_entries(base, changes),
            last.0,
            last.1,
        ),
{
    assert(changes.push(last).drop_last() =~= changes);
}

/// An ordered map from names to values.
#[derive(Debug, PartialEq, Eq)]
pub struct PropertyMap {
    entries: Vec<(String, String)>,
}

impl View for PropertyMap {
    type V = Seq<Property>;

    closed spec fn view(&self) -> Seq<Property> {
        Seq::new(self.entries@.len(), |i: int| (self.entries@[i].0@, self.entries@[i].1@))
    }
}

impl Clone for PropertyMap {
    fn clone(&self) -> (r: PropertyMap)
        ensures
            r@ == self@,
    {
        let mut entries: Vec<(String, String)> = Vec::new();
        let mut i: usize = 0;
        while i < self.entries.len()
            invariant
                i <= self.entries.len(),
                entries@.len() == i,
                forall|k: int|
                    0 <= k < i ==> (#[trigger] entries@[k]).0@ == self.entries@[k].0@
                        && entries@[k].1@ == self.entries@[k].1@,
            decreases self.entries.len() - i,
        {
            entries.push((self.entries[i].0.clone(), self.entries[i].1.clone()));
            i += 1;
        }
        let r = PropertyMap { entries };
        r
    }
}

impl PropertyMap {
    /// The map without entries.
    pub fn new() -> (r: PropertyMap)
        ensures
            r@ == Seq::<Property>::empty(),
    {
        let r = PropertyMap { entries: Vec::new() };
        r
    }

    pub fn len(&self) -> (r: usize)
        ensures
            r == self@.len(),
    {
        self.entries.len()
    }

    /// The name of the entry at `i`.
    pub fn name_at(&self, i: usize) -> (r: &str)
        requires
            i < self@.len(),
        ensures
            r@ == self@[i as int].0,
    {
        self.entries[i].0.as_str()
    }

    /// The value of the entry at `i`.
    pub fn value_at(&self, i: usize) -> (r: &str)
        requires
            i < self@.len(),
        ensures
            r@ == self@[i as int].1,
    {
        self.entries[i].1.as_str()
    }

    /// The index of the entry named `name`, or the number of entries where
    /// there is none.
    pub fn position(&self, name: &str) -> (r: usize)
        ensures
            r == first_index(self@, |e: Property| e.0 == name@),
            r <= self@.len(),
    {
        let ghost wanted = |e: Property| e.0 == name@;
        let mut i: usize = 0;
        while i < self.entries.len()
            invariant
                i <= self.entries.len(),
                wanted == (|e: Property| e.0 == name@),
                forall|k: int| 0 <= k < i ==> !wanted(#[trigger] self@[k]),
            decreases self.entries.len() - i,
        {
            if same_text(self.entries[i].0.as_str(), name) {
                proof {
                    lemma_first_index_is(self@, wanted, i as int);
                }
                return i;
            }
            i += 1;
        }
        proof {
            lemma_first_index_is(self@, wanted, i as int);
        }
        i
    }

    /// The value of the entry named `name`, or `None` where there is none.
    pub fn get(&self, name: &str) -> (r: Option<&str>)
        ensures
            r is Some <==> first_index(self@, |e: Property| e.0 == name@) < self@.len(),
            r matches Some(value) ==> value@ == self@[first_index(
                self@,
                |e: Property| e.0 == name@,
            )].1,
    {
        let at = self.position(name);
        if at < self.entries.len() {
            Some(self.entries[at].1.as_str())
        } else {
            None
        }
    }

    /// Sets `name` to `value`: in place where the name is there already, at
    /// the end where it is not.
    pub fn set(&mut self, name: &str, value: &str)
        ensures
            final(self)@ == set_entry(old(self)@, name@, value@),
    {
        let at = self.position(name);
        if at < self.entries.len() {
            self.entries.set(at, (owned(name), owned(value)));
        } else {
            self.entries.push((owned(name), owned(value)));
        }
    }

    /// Sets each entry of `changes`, in their order.
    pub fn set_all(&mut self, changes: &PropertyMap)
        ensures
            final(self)@ == set_entries(old(self)@, changes@),
    {
        let mut i: usize = 0;
        while i < changes.len()
            invariant
                i <= changes@.len(),
                self@ == set_entries(old(self)@, changes@.take(i as int)),
            decreases changes@.len() - i,
        {
            proof {
                assert(changes@.take(i as int + 1) =~= changes@.take(i as int).push(
                    changes@[i as int],
                ));
                lemma_set_entries_push(old(self)@, changes@.take(i as int), changes@[i as int]);
            }
            self.set(changes.name_at(i), changes.value_at(i));
            i += 1;
        }
        assert(changes@.take(i as int) =~= changes@);
    }
}

/// A circle of an SVG tree.
#[derive(Copy, Clone, Debug, PartialEq, Eq, Hash, Structural)]
pub struct SVGCircle {
    pub cx: i64,
    pub cy: i64,
    pub r: i64,
}

/// A rectangle of an SVG tree.
#[derive(Copy, Clone, Debug, PartialEq, Eq, Hash, Structural)]
pub struct SVGRectangle {
    pub x: i64,
    pub y: i64,
    pub width: i64,
    pub height: i64,
}

/// A line of an SVG tree.
#[derive(Copy, Clone, Debug, PartialEq, Eq, Hash, Structural)]
pub struct SVGLine {
    pub x1: i64,
    pub y1: i64,
    pub x2: i64,
    pub y2: i64,
}

/// The shape of an SVG element.
#[derive(Debug, PartialEq, Eq)]
pub enum SVG {
    Circle(SVGCircle),
    Rectangle(SVGRectangle),
    Line(SVGLine),
    /// A polygon, by its vertices.
    Polygon(Vec<Point2>),
    /// A path, by its path data.
    Path(String),
}

/// What an [`SVG`] holds, as mathematical values.
pub enum SVGView {
    Circle(SVGCircle),
    Rectangle(SVGRectangle),
    Line(SVGLine),
    Polygon(Seq<Point2>),
    Path(Seq<char>),
}

impl View for SVG {
    type V = SVGView;

    open spec fn view(&self) -> SVGView {
        match *self {
            SVG::Circle(circle) => SVGView::Circle(circle),
            SVG::Rectangle(rectangle) => SVGView::Rectangle(rectangle),
            SVG::Line(line) => SVGView::Line(line),
            SVG::Polygon(points) => SVGView::Polygon(points@),
            SVG::Path(data) => SVGView::Path(data@),
        }
    }
}

impl Clone for SVG {
    fn clone(&self) -> (r: SVG)
        ensures
            r@ == self@,
    {
        match self {
            SVG::Circle(circle) => SVG::Circle(*circle),
            SVG::Rectangle(rectangle) => SVG::Rectangle(*rectangle),
            SVG::Line(line) => SVG::Line(*line),
            SVG::Polygon(points) => SVG::Polygon(copy_points(points)),
            SVG::Path(data) => SVG::Path(data.clone()),
        }
    }
}

/// An SVG element as a value: its shape, free-form attributes and CSS
/// properties.
#[derive(Debug, PartialEq, Eq)]
pub struct SVGElement {
    pub svg: SVG,
    pub attributes: PropertyMap,
    pub css: PropertyMap,
}

/// What an [`SVGElement`] holds, as mathematical values.
pub struct SVGElementView {
    pub svg: SVGView,
    pub attributes: Seq<Property>,
    pub css: Seq<Property>,
}

impl View for SVGElement {
    type V = SVGElementView;

    open spec fn view(&self) -> SVGElementView {
        SVGElementView { svg: self.svg@, attributes: self.attributes@, css: self.css@ }
    }
}

impl Clone for SVGElement {
    fn clone(&self) -> (r: SVGElement)
        ensures
            r@ == self@,
    {
        SVGElement {
            svg: self.svg.clone(),
            attributes: self.attributes.clone(),
            css: self.css.clone(),
        }
    }
}

impl SVGElement {
    pub fn new(svg: SVG, attributes: PropertyMap, css: PropertyMap) -> (r: SVGElement)
        ensures
            r@ == (SVGElementView { svg: svg@, attributes: attributes@, css: css@ }),
    {
        SVGElement { svg, attributes, css }
    }

    pub fn svg(&self) -> (r: &SVG)
        ensures
            r@ == self@.svg,
    {
        &self.svg
    }

    pub fn attributes(&self) -> (r: &PropertyMap)
        ensures
            r@ == self@.attributes,
    {
        &self.attributes
    }

    pub fn css(&self) -> (r: &PropertyMap)
        ensures
            r@ == self@.css,
    {
        &self.css
    }
}

/// A point as `x,y`.
pub open spec fn point_text(p: Point2) -> Seq<char> {
    decimal(p.x as int) + seq![','] + decimal(p.y as int)
}

/// The points as `x,y` pairs in their order, separated by spaces.
pub open spec fn points_text(points: Seq<Point2>) -> Seq<char> {
    joined(points.map_values(|p: Point2| point_text(p)), seq![' '])
}

/// The points as `x,y` pairs in their order, separated by spaces.
pub fn points_to_text(points: &Vec<Point2>) -> (r: String)
    ensures
        r@ == points_text(points@),
{
    let mut out = String::new();
    let mut i: usize = 0;
    let ghost texts = |p: Point2| point_text(p);
    proof {
        reveal_strlit(" ");
        reveal_strlit(",");
    }
    while i < points.len()
        invariant
            i <= points.len(),
            texts == (|p: Point2| point_text(p)),
            out@ == joined(points@.take(i as int).map_values(texts), seq![' ']),
            " "@ == seq![' '],
            ","@ == seq![','],
        decreases points.len() - i,
    {
        proof {
            let before = points@.take(i as int).map_values(texts);
            assert(points@.take(i as int + 1).map_values(texts) =~= before.push(
                point_text(points@[i as int]),
            ));
            lemma_joined_push(before, point_text(points@[i as int]), seq![' ']);
        }
        if i > 0 {
            out.append(" ");
        }
        push_signed(&mut out, points[i].x as i64);
        out.append(",");
        push_signed(&mut out, points[i].y as i64);
        i += 1;
    }
    assert(points@.take(i as int) =~= points@);
    out
}

/// The CSS properties of a shape style: `fill`, `stroke` and
/// `stroke-width`, and `stroke-dasharray` where there is a dash pattern,
/// set in this order.
pub open spec fn style_css(style: ShapeStyleView) -> Seq<Property> {
    let solid = seq![
        ("fill"@, style.fill_color.hex()),
        ("stroke"@, style.stroke.color.hex()),
        ("stroke-width"@, decimal_nat(style.stroke.width as nat)),
    ];
    if style.stroke.dash_array.len() > 0 {
        set_entries(
            Seq::empty(),
            solid.push(("stroke-dasharray"@, dash_text(style.stroke.dash_array))),
        )
    } else {
        set_entries(Seq::empty(), solid)
    }
}

/// The CSS properties of a shape style.
pub fn style_to_css(style: &ShapeStyle) -> (r: PropertyMap)
    ensures
        r@ == style_css(style@),
{
    let mut css = PropertyMap::new();
    let ghost none: Seq<Property> = Seq::empty();
    let fill = style.fill_color.to_hex();
    let stroke = style.stroke.color.to_hex();
    let width = natural_text(style.stroke.width as u64);
    let ghost c1 = none.push(("fill"@, fill@));
    let ghost c2 = c1.push(("stroke"@, stroke@));
    let ghost c3 = c2.push(("stroke-width"@, width@));
    css.set("fill", fill.as_str());
    proof {
        lemma_set_entries_push(Seq::empty(), none, ("fill"@, fill@));
    }
    css.set("stroke", stroke.as_str());
    proof {
        lemma_set_entries_push(Seq::empty(), c1, ("stroke"@, stroke@));
    }
    css.set("stroke-width", width.as_str());
    proof {
        lemma_set_entries_push(Seq::empty(), c2, ("stroke-width"@, width@));
        assert(c3 =~= seq![
            ("fill"@, style@.fill_color.hex()),
            ("stroke"@, style@.stroke.color.hex()),
            ("stroke-width"@, decimal_nat(style@.stroke.width as nat)),
        ]);
    }
    if style.stroke.dash_array.len() > 0 {
        let dashes = dashes_to_text(&style.stroke.dash_array);
        css.set("stroke-dasharray", dashes.as_str());
        proof {
            lemma_set_entries_push(Seq::empty(), c3, ("stroke-dasharray"@, dashes@));
        }
    }
    css
}

/// The SVG element of an entity: a rectangle by its canonical corner and
/// extents, a polygon by its vertices, a free-hand path by its path data,
/// each with the CSS of its style and no free-form attributes. `None`
/// for an entity without the SVG routine of its kind, and for texts and
/// containers.
pub open spec fn entity_element(entity: EntityView) -> Option<SVGElementView> {
    if !entity.can(Capability::ToSvg) {
        None
    } else {
        match entity.model {
            ModelView::Rectangle { rectangle, style } => {
                let a = rectangle.spec_absolute_sized();
                Some(
                    SVGElementView {
                        svg: SVGView::Rectangle(
                            SVGRectangle {
                                x: a.top_left.x as i64,
                                y: a.top_left.y as i64,
                                width: a.spec_width() as i64,
                                height: a.spec_height() as i64,
                            },
                        ),
                        attributes: Seq::empty(),
                        css: style_css(style),
                    },
                )
            },
            ModelView::Polygon { vertices, style } => Some(
                SVGElementView {
                    svg: SVGView::Polygon(vertices),
                    attributes: Seq::empty(),
                    css: style_css(style),
                },
            ),
            ModelView::FreeHand { commands, style } => Some(
                SVGElementView {
                    svg: SVGView::Path(path_text(commands)),
                    attributes: Seq::empty(),
                    css: style_css(style),
                },
            ),
            ModelView::Text { .. } => None,
            ModelView::Container { .. } => None,
        }
    }
}

/// The SVG element of an entity, by its SVG feature.
pub fn to_svg(entity: &Entity) -> (r: Option<SVGElement>)
    ensures
        r is Some <==> entity_element(entity@) is Some,
        r matches Some(element) ==> Some(element@) == entity_element(entity@),
{
    if !entity.can(Capability::ToSvg) {
        return None;
    }
    match entity.model() {
        ShapeModel::Rectangle { rectangle, style } => {
            let a = rectangle.absolute_sized();
            Some(
                SVGElement {
                    svg: SVG::Rectangle(
                        SVGRectangle {
                            x: a.top_left.x as i64,
                            y: a.top_left.y as i64,
                            width: a.width(),
                            height: a.height(),
                        },
                    ),
                    attributes: PropertyMap::new(),
                    css: style_to_css(style),
                },
            )
        },
        ShapeModel::Polygon { polygon, style } => Some(
            SVGElement {
                svg: SVG::Polygon(copy_points(polygon.vertices())),
                attributes: PropertyMap::new(),
                css: style_to_css(style),
            },
        ),
        ShapeModel::FreeHand { path, style } => Some(
            SVGElement {
                svg: SVG::Path(path.to_svg_path()),
                attributes: PropertyMap::new(),
                css: style_to_css(style),
            },
        ),
        ShapeModel::Text { .. } => None,
        ShapeModel::Container { .. } => None,
    }
}

} // verus!
