//! The retained SVG backend. It keeps the tree as a sequence of nodes and
//! offers both contracts: immediate primitives, each a fresh node at the
//! end, and deltas keyed by the HTML form of an entity's identifier.
use crate::element::id::{Id, IdView};
use crate::entity::{Entity, EntityView};
use crate::geometry::{
    Circle, Ellipse, Polygon2D, Rectangle, Segment2D, Text, Transform2D,
};
use crate::path::{path_text, Path};
use crate::renderer::svg_element::{
    entity_element, points_text, points_to_text, set_entries, set_entry, to_svg,
    lemma_set_entries_push, Property, PropertyMap, SVGElement, SVGElementView, SVGView, SVG,
};
use crate::renderer::{added_all, NotFound, Painted, Renderer, RendererIncremental};
use crate::search::{first_index, lemma_first_index, lemma_first_index_is};
use crate::style::{ShapeStyle, TextStyle};
use crate::text::{
    decimal, decimal_nat, joined, lemma_joined_push, natural_text, owned, same_text, signed_text,
};
use vstd::prelude::*;

verus! {

/// One node of the SVG tree.
#[derive(Debug, PartialEq, Eq)]
pub struct SvgNode {
    tag: String,
    id: Option<String>,
    attributes: PropertyMap,
    content: String,
}

/// What an [`SvgNode`] holds, as mathematical values.
pub struct SvgNodeView {
    pub tag: Seq<char>,
    pub id: Option<Seq<char>>,
    pub attributes: Seq<Property>,
    pub content: Seq<char>,
}

impl View for SvgNode {
    type V = SvgNodeView;

    closed spec fn view(&self) -> SvgNodeView {
        SvgNodeView {
            tag: self.tag@,
            id: match self.id {
                Some(id) => Some(id@),
                None => None,
            },
            attributes: self.attributes@,
            content: self.content@,
        }
    }
}

/// One CSS property as `name: value;`.
pub open spec fn declaration_text(property: Property) -> Seq<char> {
    property.0 + seq![':', ' '] + property.1 + seq![';']
}

/// CSS properties collapsed to the text of one `style` attribute: each as
/// `name: value;`, separated by spaces.
pub open spec fn css_text(css: Seq<Property>) -> Seq<char> {
    joined(css.map_values(|p: Property| declaration_text(p)), seq![' '])
}

/// The tag of a shape.
pub open spec fn shape_tag(svg: SVGView) -> Seq<char> {
    match svg {
        SVGView::Circle(_) => "circle"@,
        SVGView::Rectangle(_) => "rect"@,
        SVGView::Line(_) => "line"@,
        SVGView::Polygon(_) => "polygon"@,
        SVGView::Path(_) => "path"@,
    }
}

/// The attributes that a shape sets, in the order in which it sets them.
pub open spec fn shape_changes(svg: SVGView) -> Seq<Property> {
    match svg {
        SVGView::Circle(circle) => seq![
            ("cx"@, decimal(circle.cx as int)),
            ("cy"@, decimal(circle.cy as int)),
            ("r"@, decimal(circle.r as int)),
        ],
        SVGView::Rectangle(rectangle) => seq![
            ("x"@, decimal(rectangle.x as int)),
            ("y"@, decimal(rectangle.y as int)),
            ("width"@, decimal(rectangle.width as int)),
            ("height"@, decimal(rectangle.height as int)),
        ],
        SVGView::Line(line) => seq![
            ("x1"@, decimal(line.x1 as int)),
            ("y1"@, decimal(line.y1 as int)),
            ("x2"@, decimal(line.x2 as int)),
            ("y2"@, decimal(line.y2 as int)),
        ],
        SVGView::Polygon(points) => seq![("points"@, points_text(points))],
        SVGView::Path(data) => seq![("d"@, data)],
    }
}

/// The attributes of the node of an element: those of the shape, then the
/// free-form attributes, then the CSS as one `style` attribute, each set
/// over what came before.
pub open spec fn element_attributes(element: SVGElementView) -> Seq<Property> {
    set_entry(
        set_entries(set_entries(Seq::empty(), shape_changes(element.svg)), element.attributes),
        "style"@,
        css_text(element.css),
    )
}

/// The node of an element, under the given identifier.
pub open spec fn element_node(element: SVGElementView, id: Option<Seq<char>>) -> SvgNodeView {
    SvgNodeView {
        tag: shape_tag(element.svg),
        id,
        attributes: element_attributes(element),
        content: Seq::empty(),
    }
}

/// The tag of the node of a primitive.
pub open spec fn primitive_tag(primitive: Painted) -> Seq<char> {
    match primitive {
        Painted::Path(_, _, _) => "path"@,
        Painted::Segment(_, _, _) => "line"@,
        Painted::Polygon(_, _, _) => "polygon"@,
        Painted::Rectangle(_, _, _) => "rect"@,
        Painted::Circle(_, _, _) => "circle"@,
        Painted::Ellipse(_, _, _) => "ellipse"@,
        Painted::Text(_, _, _) => "text"@,
    }
}

/// The attributes that the node of a primitive gets, in the order in
/// which they are set. Shapes are outlined in black and not filled, whatever
/// their style; a rectangle is given by its canonical corner and extents.
/// The transform is not applied.
pub open spec fn primitive_changes(primitive: Painted) -> Seq<Property> {
    match primitive {
        Painted::Path(commands, _, _) => seq![
            ("d"@, path_text(commands)),
            ("fill"@, "none"@),
            ("stroke"@, "black"@),
        ],
        Painted::Segment(segment, _, _) => seq![
            ("stroke"@, "black"@),
            ("stroke-dasharray"@, "4 1"@),
            ("x1"@, decimal(segment.start.x as int)),
            ("y1"@, decimal(segment.start.y as int)),
            ("x2"@, decimal(segment.end.x as int)),
            ("y2"@, decimal(segment.end.y as int)),
        ],
        Painted::Polygon(vertices, _, _) => seq![
            ("stroke"@, "black"@),
            ("fill"@, "none"@),
            ("points"@, points_text(vertices)),
        ],
        Painted::Rectangle(rectangle, _, _) => {
            let a = rectangle.spec_absolute_sized();
            seq![
                ("x"@, decimal(a.top_left.x as int)),
                ("y"@, decimal(a.top_left.y as int)),
                ("width"@, decimal(a.spec_width())),
                ("height"@, decimal(a.spec_height())),
                ("fill"@, "none"@),
                ("stroke"@, "black"@),
            ]
        },
        Painted::Circle(circle, _, _) => seq![
            ("cx"@, decimal(circle.center.x as int)),
            ("cy"@, decimal(circle.center.y as int)),
            ("r"@, decimal_nat(circle.radius as nat)),
            ("fill"@, "none"@),
            ("stroke"@, "black"@),
        ],
        Painted::Ellipse(ellipse, _, _) => seq![
            ("cx"@, decimal(ellipse.center.x as int)),
            ("cy"@, decimal(ellipse.center.y as int)),
            ("rx"@, decimal_nat(ellipse.radius_x as nat)),
            ("ry"@, decimal_nat(ellipse.radius_y as nat)),
            ("fill"@, "none"@),
            ("stroke"@, "black"@),
        ],
        Painted::Text(text, _, _) => seq![
            ("x"@, decimal(text.anchor.x as int)),
            ("y"@, decimal(text.anchor.y as int)),
            ("fill"@, "black"@),
        ],
    }
}

/// The node of a primitive: it has no identifier, and only a text has
/// content.
pub open spec fn primitive_node(primitive: Painted) -> SvgNodeView {
    SvgNodeView {
        tag: primitive_tag(primitive),
        id: None,
        attributes: set_entries(Seq::empty(), primitive_changes(primitive)),
        content: match primitive {
            Painted::Text(text, _, _) => text.content,
            _ => Seq::empty(),
        },
    }
}

/// The node of an entity that has an SVG element: the node of the element,
/// under the HTML form of the entity's identifier.
pub open spec fn entity_node(entity: EntityView) -> SvgNodeView {
    element_node(entity_element(entity)->0, Some(entity.id.html_form()))
}

/// The condition of bearing the identifier `html`.
pub open spec fn bears(html: Seq<char>) -> spec_fn(SvgNodeView) -> bool {
    |node: SvgNodeView| node.id == Some(html)
}

/// The index in `nodes` of the first node that bears the identifier
/// `html`, or the length of `nodes` where there is none.
pub open spec fn node_position(nodes: Seq<SvgNodeView>, html: Seq<char>) -> int {
    first_index(nodes, bears(html))
}

/// The tree after `add`: the entity's node at the end where the entity
/// has an SVG element, no change where it has none.
pub open spec fn nodes_added(nodes: Seq<SvgNodeView>, entity: EntityView) -> Seq<SvgNodeView> {
    if entity_element(entity) is Some {
        nodes.push(entity_node(entity))
    } else {
        nodes
    }
}

/// The tree after `modify`: the entity's node in the place of the first
/// node that bears its identifier.
pub open spec fn nodes_modified(nodes: Seq<SvgNodeView>, entity: EntityView) -> Seq<SvgNodeView> {
    let at = node_position(nodes, entity.id.html_form());
    if entity_element(entity) is Some && 0 <= at < nodes.len() {
        nodes.update(at, entity_node(entity))
    } else {
        nodes
    }
}

/// The tree after `remove`: without the first node that bears the
/// identifier.
pub open spec fn nodes_removed(nodes: Seq<SvgNodeView>, id: IdView) -> Seq<SvgNodeView> {
    let at = node_position(nodes, id.html_form());
    if 0 <= at < nodes.len() {
        nodes.remove(at)
    } else {
        nodes
    }
}

fn put(map: &mut PropertyMap, Ghost(changes): Ghost<Seq<Property>>, name: &str, value: &str)
    requires
        old(map)@ == set_entries(Seq::empty(), changes),
    ensures
        final(map)@ == set_entries(Seq::empty(), changes.push((name@, value@))),
{
    proof {
        lemma_set_entries_push(Seq::empty(), changes, (name@, value@));
    }
    map.set(name, value);
}

/// CSS properties collapsed to the text of one `style` attribute.
pub fn css_to_text(css: &PropertyMap) -> (r: String)
    ensures
        r@ == css_text(css@),
{
    let mut out = String::new();
    let mut i: usize = 0;
    let ghost texts = |p: Property| declaration_text(p);
    proof {
        reveal_strlit(" ");
        reveal_strlit(": ");
        reveal_strlit(";");
    }
    while i < css.len()
        invariant
            i <= css@.len(),
            texts == (|p: Property| declaration_text(p)),
            out@ == joined(css@.take(i as int).map_values(texts), seq![' ']),
            " "@ == seq![' '],
            ": "@ == seq![':', ' '],
            ";"@ == seq![';'],
        decreases css@.len() - i,
    {
        proof {
            let before = css@.take(i as int).map_values(texts);
            assert(css@.take(i as int + 1).map_values(texts) =~= before.push(
                declaration_text(css@[i as int]),
            ));
            lemma_joined_push(before, declaration_text(css@[i as int]), seq![' ']);
        }
        if i > 0 {
            out.append(" ");
        }
        out.append(css.name_at(i));
        out.append(": ");
        out.append(css.value_at(i));
        out.append(";");
        i += 1;
    }
    assert(css@.take(i as int) =~= css@);
    out
}

fn shape_attributes(svg: &SVG) -> (r: PropertyMap)
    ensures
        r@ == set_entries(Seq::empty(), shape_changes(svg@)),
{
    let mut map = PropertyMap::new();
    let ghost none = Seq::<Property>::empty();
    match svg {
        SVG::Circle(circle) => {
            let cx = signed_text(circle.cx);
            let cy = signed_text(circle.cy);
            let r = signed_text(circle.r);
            put(&mut map, Ghost(none), "cx", cx.as_str());
            put(&mut map, Ghost(none.push(("cx"@, cx@))), "cy", cy.as_str());
            put(&mut map, Ghost(none.push(("cx"@, cx@)).push(("cy"@, cy@))), "r", r.as_str());
            assert(none.push(("cx"@, cx@)).push(("cy"@, cy@)).push(("r"@, r@)) =~= shape_changes(
                svg@,
            ));
        },
        SVG::Rectangle(rectangle) => {
            let x = signed_text(rectangle.x);
            let y = signed_text(rectangle.y);
            let width = signed_text(rectangle.width);
            let height = signed_text(rectangle.height);
            put(&mut map, Ghost(none), "x", x.as_str());
            put(&mut map, Ghost(none.push(("x"@, x@))), "y", y.as_str());
            put(&mut map, Ghost(none.push(("x"@, x@)).push(("y"@, y@))), "width", width.as_str());
            put(
                &mut map,
                Ghost(none.push(("x"@, x@)).push(("y"@, y@)).push(("width"@, width@))),
                "height",
                height.as_str(),
            );
            assert(none.push(("x"@, x@)).push(("y"@, y@)).push(("width"@, width@)).push(
                ("height"@, height@),
            ) =~= shape_changes(svg@));
        },
        SVG::Line(line) => {
            let x1 = signed_text(line.x1);
            let y1 = signed_text(line.y1);
            let x2 = signed_text(line.x2);
            let y2 = signed_text(line.y2);
            put(&mut map, Ghost(none), "x1", x1.as_str());
            put(&mut map, Ghost(none.push(("x1"@, x1@))), "y1", y1.as_str());
            put(&mut map, Ghost(none.push(("x1"@, x1@)).push(("y1"@, y1@))), "x2", x2.as_str());
            put(
                &mut map,
                Ghost(none.push(("x1"@, x1@)).push(("y1"@, y1@)).push(("x2"@, x2@))),
                "y2",
                y2.as_str(),
            );
            assert(none.push(("x1"@, x1@)).push(("y1"@, y1@)).push(("x2"@, x2@)).push(
                ("y2"@, y2@),
            ) =~= shape_changes(svg@));
        },
        SVG::Polygon(points) => {
            let text = points_to_text(points);
            put(&mut map, Ghost(none), "points", text.as_str());
        },
        SVG::Path(data) => {
            put(&mut map, Ghost(none), "d", data.as_str());
        },
    }
    map
}

fn shape_tag_name(svg: &SVG) -> (r: &'static str)
    ensures
        r@ == shape_tag(svg@),
{
    match svg {
        SVG::Circle(_) => "circle",
        SVG::Rectangle(_) => "rect",
        SVG::Line(_) => "line",
        SVG::Polygon(_) => "polygon",
        SVG::Path(_) => "path",
    }
}

impl Clone for SvgNode {
    fn clone(&self) -> (r: SvgNode)
        ensures
            r@ == self@,
    {
        SvgNode {
            tag: self.tag.clone(),
            id: match &self.id {
                Some(id) => Some(id.clone()),
                None => None,
            },
            attributes: self.attributes.clone(),
            content: self.content.clone(),
        }
    }
}

impl SvgNode {
    /// A fresh node for `element`, without identifier.
    pub fn create_svg(element: &SVGElement) -> (r: SvgNode)
        ensures
            r@ == element_node(element@, None),
    {
        let mut node = SvgNode {
            tag: owned(shape_tag_name(element.svg())),
            id: None,
            attributes: PropertyMap::new(),
            content: String::new(),
        };
        node.update_svg(element);
        node
    }

    /// Makes the node that of `element`: its tag and attributes are
    /// replaced, its identifier stays.
    pub fn update_svg(&mut self, element: &SVGElement)
        ensures
            final(self)@ == element_node(element@, old(self)@.id),
    {
        let mut attributes = shape_attributes(element.svg());
        attributes.set_all(element.attributes());
        let style = css_to_text(element.css());
        attributes.set("style", style.as_str());
        self.tag = owned(shape_tag_name(element.svg()));
        self.attributes = attributes;
        self.content = String::new();
    }

    /// Gives the node the identifier `id`.
    pub fn set_id(&mut self, id: &str)
        ensures
            final(self)@ == (SvgNodeView { id: Some(id@), ..old(self)@ }),
    {
        self.id = Some(owned(id));
    }

    pub fn tag(&self) -> (r: &str)
        ensures
            r@ == self@.tag,
    {
        self.tag.as_str()
    }

    /// The node's identifier, if it has one.
    pub fn id(&self) -> (r: Option<&str>)
        ensures
            r is Some <==> self@.id is Some,
            r matches Some(id) ==> id@ == self@.id->0,
    {
        match &self.id {
            Some(id) => Some(id.as_str()),
            None => None,
        }
    }

    pub fn attributes(&self) -> (r: &PropertyMap)
        ensures
            r@ == self@.attributes,
    {
        &self.attributes
    }

    /// The value of the attribute `name`, or `None` where the node has
    /// none of that name.
    pub fn attribute(&self, name: &str) -> (r: Option<&str>)
        ensures
            r is Some <==> first_index(self@.attributes, |e: Property| e.0 == name@)
                < self@.attributes.len(),
            r matches Some(value) ==> value@ == self@.attributes[first_index(
                self@.attributes,
                |e: Property| e.0 == name@,
            )].1,
    {
        self.attributes.get(name)
    }

    pub fn content(&self) -> (r: &str)
        ensures
            r@ == self@.content,
    {
        self.content.as_str()
    }

    /// Whether the node bears the identifier `id`.
    pub fn has_id(&self, id: &str) -> (r: bool)
        ensures
            r == (self@.id == Some(id@)),
    {
        match &self.id {
            Some(own) => same_text(own.as_str(), id),
            None => false,
        }
    }
}

/// The views of a sequence of nodes.
pub open spec fn node_views(nodes: Seq<SvgNode>) -> Seq<SvgNodeView> {
    Seq::new(nodes.len(), |i: int| nodes[i]@)
}

/// The retained SVG backend. It holds the tree as the sequence of its
/// nodes, in document order.
#[derive(Debug)]
pub struct SVGRenderer {
    nodes: Vec<SvgNode>,
}

/// The retained SVG backend, under the name of its incremental contract.
pub type IncrementalSvgRenderer = SVGRenderer;

impl View for SVGRenderer {
    type V = Seq<SvgNodeView>;

    closed spec fn view(&self) -> Seq<SvgNodeView> {
        node_views(self.nodes@)
    }
}

impl SVGRenderer {
    /// A backend with an empty tree.
    pub fn new() -> (r: SVGRenderer)
        ensures
            r.wf(),
            r@ == Seq::<SvgNodeView>::empty(),
    {
        let r = SVGRenderer { nodes: Vec::new() };
        r
    }

    /// The nodes of the tree, in document order.
    pub fn nodes(&self) -> (r: &Vec<SvgNode>)
        ensures
            node_views(r@) == self@,
    {
        &self.nodes
    }

    fn append(&mut self, node: SvgNode)
        ensures
            final(self)@ == old(self)@.push(node@),
    {
        self.nodes.push(node);
    }

    /// The index of the first node that bears the identifier `html`, or
    /// the number of nodes where there is none.
    fn position(&self, html: &str) -> (r: usize)
        ensures
            r == node_position(self@, html@),
            r <= self.nodes@.len(),
            self.nodes@.len() == self@.len(),
    {
        let ghost wanted = bears(html@);
        let mut i: usize = 0;
        while i < self.nodes.len()
            invariant
                i <= self.nodes.len(),
                self.nodes@.len() == self@.len(),
                wanted == bears(html@),
                forall|k: int| 0 <= k < i ==> !wanted(#[trigger] self@[k]),
            decreases self.nodes.len() - i,
        {
            if self.nodes[i].has_id(html) {
                proof {
                    lemma_first_index_is(self@, wanted, i as int);
                }
                return i;
            }
            i += 1;
        }
        proof {
            lemma_first_index_is(self@, wanted, i as int);
        }
        i
    }

}

fn primitive_shell(tag: &str, attributes: PropertyMap) -> (r: SvgNode)
    ensures
        r@ == (SvgNodeView {
            tag: tag@,
            id: None,
            attributes: attributes@,
            content: Seq::empty(),
        }),
{
    SvgNode { tag: owned(tag), id: None, attributes, content: String::new() }
}

impl Renderer for SVGRenderer {
    type State = Seq<SvgNodeView>;

    open spec fn state(&self) -> Seq<SvgNodeView> {
        self@
    }

    open spec fn wf(&self) -> bool {
        true
    }

    /// After `clear` the tree is empty.
    open spec fn cleared(state: Seq<SvgNodeView>) -> Seq<SvgNodeView> {
        Seq::empty()
    }

    /// A primitive adds its node at the end of the tree.
    open spec fn drawn(state: Seq<SvgNodeView>, primitive: Painted) -> Seq<SvgNodeView> {
        state.push(primitive_node(primitive))
    }

    /// Empties the tree.
    fn clear(&mut self)
        ensures
            final(self)@ == Seq::<SvgNodeView>::empty(),
    {
        self.nodes.clear();
        assert(self@ =~= Seq::<SvgNodeView>::empty());
    }

    /// Appends a `path` node with the path data, not filled, outlined in
    /// black.
    fn path(&mut self, path: &Path, style: &ShapeStyle, transform: Option<Transform2D>)
        ensures
            final(self)@ == old(self)@.push(
                primitive_node(Painted::Path(path@, style@, transform)),
            ),
    {
        let ghost primitive = Painted::Path(path@, style@, transform);
        let ghost none = Seq::<Property>::empty();
        let mut map = PropertyMap::new();
        let data = path.to_svg_path();
        let ghost c1 = none.push(("d"@, data@));
        let ghost c2 = c1.push(("fill"@, "none"@));
        let ghost c3 = c2.push(("stroke"@, "black"@));
        put(&mut map, Ghost(none), "d", data.as_str());
        put(&mut map, Ghost(c1), "fill", "none");
        put(&mut map, Ghost(c2), "stroke", "black");
        assert(c3 =~= primitive_changes(primitive));
        self.append(primitive_shell("path", map));
    }

    /// Appends a dashed black `line` node from the start to the end of
    /// the segment.
    fn segment(&mut self, segment: &Segment2D, style: &ShapeStyle, transform: Option<Transform2D>)
        ensures
            final(self)@ == old(self)@.push(
                primitive_node(Painted::Segment(*segment, style@, transform)),
            ),
    {
        let ghost primitive = Painted::Segment(*segment, style@, transform);
        let ghost none = Seq::<Property>::empty();
        let mut map = PropertyMap::new();
        let x1 = signed_text(segment.start.x as i64);
        let y1 = signed_text(segment.start.y as i64);
        let x2 = signed_text(segment.end.x as i64);
        let y2 = signed_text(segment.end.y as i64);
        let ghost c1 = none.push(("stroke"@, "black"@));
        let ghost c2 = c1.push(("stroke-dasharray"@, "4 1"@));
        let ghost c3 = c2.push(("x1"@, x1@));
        let ghost c4 = c3.push(("y1"@, y1@));
        let ghost c5 = c4.push(("x2"@, x2@));
        let ghost c6 = c5.push(("y2"@, y2@));
        put(&mut map, Ghost(none), "stroke", "black");
        put(&mut map, Ghost(c1), "stroke-dasharray", "4 1");
        put(&mut map, Ghost(c2), "x1", x1.as_str());
        put(&mut map, Ghost(c3), "y1", y1.as_str());
        put(&mut map, Ghost(c4), "x2", x2.as_str());
        put(&mut map, Ghost(c5), "y2", y2.as_str());
        assert(c6 =~= primitive_changes(primitive));
        self.append(primitive_shell("line", map));
    }

    /// Appends a `polygon` node with the vertices as its points, outlined
    /// in black, not filled.
    fn polygon(&mut self, polygon: &Polygon2D, style: &ShapeStyle, transform: Option<Transform2D>)
        ensures
            final(self)@ == old(self)@.push(
                primitive_node(Painted::Polygon(polygon@, style@, transform)),
            ),
    {
        let ghost primitive = Painted::Polygon(polygon@, style@, transform);
        let ghost none = Seq::<Property>::empty();
        let mut map = PropertyMap::new();
        let points = points_to_text(polygon.vertices());
        let ghost c1 = none.push(("stroke"@, "black"@));
        let ghost c2 = c1.push(("fill"@, "none"@));
        let ghost c3 = c2.push(("points"@, points@));
        put(&mut map, Ghost(none), "stroke", "black");
        put(&mut map, Ghost(c1), "fill", "none");
        put(&mut map, Ghost(c2), "points", points.as_str());
        assert(c3 =~= primitive_changes(primitive));
        self.append(primitive_shell("polygon", map));
    }

    /// Appends a `rect` node with the canonical corner and extents of the
    /// rectangle, not filled, outlined in black.
    fn rectangle(
        &mut self,
        rectangle: &Rectangle,
        style: &ShapeStyle,
        transform: Option<Transform2D>,
    )
        ensures
            final(self)@ == old(self)@.push(
                primitive_node(Painted::Rectangle(*rectangle, style@, transform)),
            ),
    {
        let ghost primitive = Painted::Rectangle(*rectangle, style@, transform);
        let ghost none = Seq::<Property>::empty();
        let mut map = PropertyMap::new();
        let a = rectangle.absolute_sized();
        let x = signed_text(a.top_left.x as i64);
        let y = signed_text(a.top_left.y as i64);
        let width = signed_text(a.width());
        let height = signed_text(a.height());
        let ghost c1 = none.push(("x"@, x@));
        let ghost c2 = c1.push(("y"@, y@));
        let ghost c3 = c2.push(("width"@, width@));
        let ghost c4 = c3.push(("height"@, height@));
        let ghost c5 = c4.push(("fill"@, "none"@));
        let ghost c6 = c5.push(("stroke"@, "black"@));
        put(&mut map, Ghost(none), "x", x.as_str());
        put(&mut map, Ghost(c1), "y", y.as_str());
        put(&mut map, Ghost(c2), "width", width.as_str());
        put(&mut map, Ghost(c3), "height", height.as_str());
        put(&mut map, Ghost(c4), "fill", "none");
        put(&mut map, Ghost(c5), "stroke", "black");
        assert(c6 =~= primitive_changes(primitive));
        self.append(primitive_shell("rect", map));
    }

    /// Appends a `circle` node, not filled, outlined in black.
    fn circle(&mut self, circle: &Circle, style: &ShapeStyle, transform: Option<Transform2D>)
        ensures
            final(self)@ == old(self)@.push(
                primitive_node(Painted::Circle(*circle, style@, transform)),
            ),
    {
        let ghost primitive = Painted::Circle(*circle, style@, transform);
        let ghost none = Seq::<Property>::empty();
        let mut map = PropertyMap::new();
        let cx = signed_text(circle.center.x as i64);
        let cy = signed_text(circle.center.y as i64);
        let r = natural_text(circle.radius as u64);
        let ghost c1 = none.push(("cx"@, cx@));
        let ghost c2 = c1.push(("cy"@, cy@));
        let ghost c3 = c2.push(("r"@, r@));
        let ghost c4 = c3.push(("fill"@, "none"@));
        let ghost c5 = c4.push(("stroke"@, "black"@));
        put(&mut map, Ghost(none), "cx", cx.as_str());
        put(&mut map, Ghost(c1), "cy", cy.as_str());
        put(&mut map, Ghost(c2), "r", r.as_str());
        put(&mut map, Ghost(c3), "fill", "none");
        put(&mut map, Ghost(c4), "stroke", "black");
        assert(c5 =~= primitive_changes(primitive));
        self.append(primitive_shell("circle", map));
    }

    /// Appends an `ellipse` node, not filled, outlined in black.
    fn ellipse(&mut self, ellipse: &Ellipse, style: &ShapeStyle, transform: Option<Transform2D>)
        ensures
            final(self)@ == old(self)@.push(
                primitive_node(Painted::Ellipse(*ellipse, style@, transform)),
            ),
    {
        let ghost primitive = Painted::Ellipse(*ellipse, style@, transform);
        let ghost none = Seq::<Property>::empty();
        let mut map = PropertyMap::new();
        let cx = signed_text(ellipse.center.x as i64);
        let cy = signed_text(ellipse.center.y as i64);
        let rx = natural_text(ellipse.radius_x as u64);
        let ry = natural_text(ellipse.radius_y as u64);
        let ghost c1 = none.push(("cx"@, cx@));
        let ghost c2 = c1.push(("cy"@, cy@));
        let ghost c3 = c2.push(("rx"@, rx@));
        let ghost c4 = c3.push(("ry"@, ry@));
        let ghost c5 = c4.push(("fill"@, "none"@));
        let ghost c6 = c5.push(("stroke"@, "black"@));
        put(&mut map, Ghost(none), "cx", cx.as_str());
        put(&mut map, Ghost(c1), "cy", cy.as_str());
        put(&mut map, Ghost(c2), "rx", rx.as_str());
        put(&mut map, Ghost(c3), "ry", ry.as_str());
        put(&mut map, Ghost(c4), "fill", "none");
        put(&mut map, Ghost(c5), "stroke", "black");
        assert(c6 =~= primitive_changes(primitive));
        self.append(primitive_shell("ellipse", map));
    }

    /// Appends a `text` node at the anchor, filled in black, with the
    /// text as its content.
    fn text(&mut self, text: &Text, style: &TextStyle, transform: Option<Transform2D>)
        ensures
            final(self)@ == old(self)@.push(
                primitive_node(Painted::Text(text@, style@, transform)),
            ),
    {
        let ghost primitive = Painted::Text(text@, style@, transform);
        let ghost none = Seq::<Property>::empty();
        let mut map = PropertyMap::new();
        let x = signed_text(text.anchor.x as i64);
        let y = signed_text(text.anchor.y as i64);
        let ghost c1 = none.push(("x"@, x@));
        let ghost c2 = c1.push(("y"@, y@));
        let ghost c3 = c2.push(("fill"@, "black"@));
        put(&mut map, Ghost(none), "x", x.as_str());
        put(&mut map, Ghost(c1), "y", y.as_str());
        put(&mut map, Ghost(c2), "fill", "black");
        assert(c3 =~= primitive_changes(primitive));
        let node = SvgNode {
            tag: owned("text"),
            id: None,
            attributes: map,
            content: text.content.clone(),
        };
        self.append(node);
    }
}

impl RendererIncremental for SVGRenderer {
    open spec fn added(state: Seq<SvgNodeView>, entity: EntityView) -> Seq<SvgNodeView> {
        nodes_added(state, entity)
    }

    open spec fn modified(state: Seq<SvgNodeView>, entity: EntityView) -> Seq<SvgNodeView> {
        nodes_modified(state, entity)
    }

    open spec fn modify_misses(state: Seq<SvgNodeView>, entity: EntityView) -> bool {
        entity_element(entity) is Some && node_position(state, entity.id.html_form())
            >= state.len()
    }

    open spec fn removed(state: Seq<SvgNodeView>, id: IdView) -> Seq<SvgNodeView> {
        nodes_removed(state, id)
    }

    open spec fn remove_misses(state: Seq<SvgNodeView>, id: IdView) -> bool {
        node_position(state, id.html_form()) >= state.len()
    }

    /// Adds a node for `entity` at the end of the tree, under the HTML
    /// form of its identifier. An entity without SVG element adds nothing.
    fn add(&mut self, entity: &Entity)
        ensures
            final(self)@ == nodes_added(old(self)@, entity@),
    {
        match to_svg(entity) {
            Some(element) => {
                let mut node = SvgNode::create_svg(&element);
                node.set_id(entity.id().as_html_id().as_str());
                self.append(node);
            },
            None => {},
        }
    }

    /// Updates in place the first node that bears the identifier of
    /// `entity`: the node becomes the one that `add` would make. Fails with
    /// `NotFound`, and changes nothing, where no node bears the identifier.
    /// An entity without SVG element changes nothing.
    fn modify(&mut self, entity: &Entity) -> (r: Result<(), NotFound>)
        ensures
            final(self)@ == nodes_modified(old(self)@, entity@),
            r is Err <==> Self::modify_misses(old(self)@, entity@),
    {
        match to_svg(entity) {
            Some(element) => {
                let html = entity.id().as_html_id();
                let at = self.position(html.as_str());
                if at < self.nodes.len() {
                    let mut node = SvgNode::create_svg(&element);
                    node.set_id(html.as_str());
                    let ghost fresh = node@;
                    self.nodes.set(at, node);
                    assert(self@ =~= old(self)@.update(at as int, fresh));
                    Ok(())
                } else {
                    Err(NotFound)
                }
            },
            None => Ok(()),
        }
    }

    /// Detaches the first node that bears the identifier `id`. Fails with
    /// `NotFound`, and changes nothing, where no node bears it.
    fn remove(&mut self, id: &Id) -> (r: Result<(), NotFound>)
        ensures
            final(self)@ == nodes_removed(old(self)@, id@),
            r is Err <==> Self::remove_misses(old(self)@, id@),
    {
        let html = id.as_html_id();
        let at = self.position(html.as_str());
        if at < self.nodes.len() {
            let _ = self.nodes.remove(at);
            assert(self@ =~= old(self)@.remove(at as int));
            Ok(())
        } else {
            Err(NotFound)
        }
    }
}

/// One delta of the incremental contract.
pub enum SvgDelta {
    Add(EntityView),
    Modify(EntityView),
    Remove(IdView),
}

/// The tree after one delta.
pub open spec fn nodes_applied(nodes: Seq<SvgNodeView>, delta: SvgDelta) -> Seq<SvgNodeView> {
    match delta {
        SvgDelta::Add(entity) => nodes_added(nodes, entity),
        SvgDelta::Modify(entity) => nodes_modified(nodes, entity),
        SvgDelta::Remove(id) => nodes_removed(nodes, id),
    }
}

/// The tree after a script of deltas, applied in their order.
pub open spec fn nodes_after(nodes: Seq<SvgNodeView>, script: Seq<SvgDelta>) -> Seq<SvgNodeView>
    decreases script.len(),
{
    if script.len() == 0 {
        nodes
    } else {
        nodes_applied(nodes_after(nodes, script.drop_last()), script.last())
    }
}

/// The condition of having an identifier with the HTML form `html`.
pub open spec fn identified(html: Seq<char>) -> spec_fn(EntityView) -> bool {
    |entity: EntityView| entity.id.html_form() == html
}

/// The index in `scene` of the first entity whose identifier has the HTML
/// form `html`, or the length of `scene` where there is none.
pub open spec fn scene_position(scene: Seq<EntityView>, html: Seq<char>) -> int {
    first_index(scene, identified(html))
}

/// The entities that have an SVG element, after one delta: an added one
/// comes last, a modified one takes the place of the one whose identifier
/// it bears, a removed one leaves.
pub open spec fn scene_applied(scene: Seq<EntityView>, delta: SvgDelta) -> Seq<EntityView> {
    match delta {
        SvgDelta::Add(entity) => if entity_element(entity) is Some {
            scene.push(entity)
        } else {
            scene
        },
        SvgDelta::Modify(entity) => {
            let at = scene_position(scene, entity.id.html_form());
            if entity_element(entity) is Some && 0 <= at < scene.len() {
                scene.update(at, entity)
            } else {
                scene
            }
        },
        SvgDelta::Remove(id) => {
            let at = scene_position(scene, id.html_form());
            if 0 <= at < scene.len() {
                scene.remove(at)
            } else {
                scene
            }
        },
    }
}

/// The entities that have an SVG element, in insertion order, after a
/// script of deltas that starts from nothing.
pub open spec fn scene_after(script: Seq<SvgDelta>) -> Seq<EntityView>
    decreases script.len(),
{
    if script.len() == 0 {
        Seq::empty()
    } else {
        scene_applied(scene_after(script.drop_last()), script.last())
    }
}

/// The script that adds each entity of `scene`, in their order.
pub open spec fn additions(scene: Seq<EntityView>) -> Seq<SvgDelta> {
    Seq::new(scene.len(), |i: int| SvgDelta::Add(scene[i]))
}

/// The nodes of the entities of `scene`, in their order.
pub open spec fn scene_nodes(scene: Seq<EntityView>) -> Seq<SvgNodeView> {
    Seq::new(scene.len(), |i: int| entity_node(scene[i]))
}

proof fn lemma_positions_agree(scene: Seq<EntityView>, html: Seq<char>)
    ensures
        node_position(scene_nodes(scene), html) == scene_position(scene, html),
        0 <= scene_position(scene, html) <= scene.len(),
{
    let by_id = identified(html);
    let wanted = bears(html);
    lemma_first_index(scene, by_id);
    let at = first_index(scene, by_id);
    assert forall|k: int| 0 <= k < at implies !wanted(#[trigger] scene_nodes(scene)[k]) by {}
    lemma_first_index_is(scene_nodes(scene), wanted, at);
}

/// After a script that starts from an empty tree, the tree holds exactly
/// the nodes of the entities that the script leaves, and each of them has
/// an SVG element.
pub proof fn lemma_script_tracks_scene(script: Seq<SvgDelta>)
    ensures
        nodes_after(Seq::empty(), script) == scene_nodes(scene_after(script)),
        forall|i: int|
            0 <= i < scene_after(script).len() ==> entity_element(
                #[trigger] scene_after(script)[i],
            ) is Some,
    decreases script.len(),
{
    if script.len() == 0 {
        assert(nodes_after(Seq::empty(), script) =~= scene_nodes(scene_after(script)));
    } else {
        let prefix = script.drop_last();
        lemma_script_tracks_scene(prefix);
        let scene = scene_after(prefix);
        let nodes = nodes_after(Seq::empty(), prefix);
        match script.last() {
            SvgDelta::Add(entity) => {},
            SvgDelta::Modify(entity) => {
                lemma_positions_agree(scene, entity.id.html_form());
            },
            SvgDelta::Remove(id) => {
                lemma_positions_agree(scene, id.html_form());
            },
        }
        assert(nodes_applied(nodes, script.last()) =~= scene_nodes(
            scene_applied(scene, script.last()),
        ));
    }
}

/// Adding each entity of a scene to an empty tree gives exactly the nodes
/// of the scene.
pub proof fn lemma_additions_show(scene: Seq<EntityView>)
    requires
        forall|i: int| 0 <= i < scene.len() ==> entity_element(#[trigger] scene[i]) is Some,
    ensures
        nodes_after(Seq::empty(), additions(scene)) == scene_nodes(scene),
    decreases scene.len(),
{
    if scene.len() > 0 {
        lemma_additions_show(scene.drop_last());
        assert(additions(scene).drop_last() =~= additions(scene.drop_last()));
    }
}

/// Incremental consistency: after any script of `add`, `modify` and
/// `remove` on an empty tree, the tree is the one that clearing it and
/// adding the entities that the script leaves, in insertion order, gives.
pub proof fn lemma_incremental_consistency(script: Seq<SvgDelta>)
    ensures
        nodes_after(Seq::empty(), script) == nodes_after(
            Seq::empty(),
            additions(scene_after(script)),
        ),
{
    lemma_script_tracks_scene(script);
    lemma_additions_show(scene_after(script));
}

/// Adding entities one by one is running the script of their additions.
pub proof fn lemma_added_all_runs_additions(nodes: Seq<SvgNodeView>, scene: Seq<EntityView>)
    ensures
        added_all::<SVGRenderer>(nodes, scene) == nodes_after(nodes, additions(scene)),
    decreases scene.len(),
{
    if scene.len() > 0 {
        lemma_added_all_runs_additions(nodes, scene.drop_last());
        assert(additions(scene).drop_last() =~= additions(scene.drop_last()));
        assert(additions(scene).last() == SvgDelta::Add(scene.last()));
    }
}

} // verus!
