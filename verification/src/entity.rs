//! Entities: identified drawable records with a shape model and a set of
//! features, and the standard routines behind the features.
use crate::element::id::{Id, IdView};
use crate::element::ElementType;
use crate::geometry::{
    all_fit, all_offset, bounding_box, in_bounds, translated_points, Point2, Polygon2D,
    Rectangle, Text, TextView, Vector2,
};
use crate::path::{commands_fit, commands_offset, named_points, Path, PathCommand};
use crate::renderer::{
    drawn_all, lemma_drawn_all_concat, lemma_drawn_all_one, Painted, Renderer,
};
use crate::style::{ShapeStyle, ShapeStyleView, TextStyle, TextStyleView};
use vstd::prelude::*;

verus! {

/// What an entity may be able to do.
#[derive(Copy, Clone, Debug, PartialEq, Eq, Hash, Structural)]
pub enum Capability {
    /// Paint itself through a renderer.
    Render,
    /// Describe itself as an SVG element.
    ToSvg,
    /// Tell whether a point hits it.
    HitTest,
    /// Move by a displacement.
    Translate,
}

/// A capability together with the routine that provides it. The routines
/// are the standard ones, one per element kind; a routine works on an
/// entity whose model is of its kind and does nothing on any other.
#[derive(Copy, Clone, Debug, PartialEq, Eq, Hash, Structural)]
pub struct Feature {
    pub capability: Capability,
    pub routine: ElementType,
}

/// The features of an entity: at most one routine per capability.
#[derive(Copy, Clone, Debug, PartialEq, Eq)]
pub struct FeatureSet {
    pub render: Option<ElementType>,
    pub to_svg: Option<ElementType>,
    pub hit_test: Option<ElementType>,
    pub translate: Option<ElementType>,
}

impl FeatureSet {
    /// The routine registered for `capability`, if any.
    pub open spec fn lookup(self, capability: Capability) -> Option<ElementType> {
        match capability {
            Capability::Render => self.render,
            Capability::ToSvg => self.to_svg,
            Capability::HitTest => self.hit_test,
            Capability::Translate => self.translate,
        }
    }

    /// The set with `feature` registered: it replaces an earlier routine
    /// for the same capability and leaves the other capabilities alone.
    pub open spec fn with(self, feature: Feature) -> FeatureSet {
        match feature.capability {
            Capability::Render => FeatureSet { render: Some(feature.routine), ..self },
            Capability::ToSvg => FeatureSet { to_svg: Some(feature.routine), ..self },
            Capability::HitTest => FeatureSet { hit_test: Some(feature.routine), ..self },
            Capability::Translate => FeatureSet { translate: Some(feature.routine), ..self },
        }
    }

    /// The set with every feature of `other` registered.
    pub open spec fn merged(self, other: FeatureSet) -> FeatureSet {
        FeatureSet {
            render: if other.render is Some {
                other.render
            } else {
                self.render
            },
            to_svg: if other.to_svg is Some {
                other.to_svg
            } else {
                self.to_svg
            },
            hit_test: if other.hit_test is Some {
                other.hit_test
            } else {
                self.hit_test
            },
            translate: if other.translate is Some {
                other.translate
            } else {
                self.translate
            },
        }
    }

    /// The set without features.
    pub open spec fn spec_empty() -> FeatureSet {
        FeatureSet { render: None, to_svg: None, hit_test: None, translate: None }
    }

    /// The standard features of an element kind. Every kind paints, tests
    /// hits and moves; rectangles, polygons and free-hand paths also have
    /// an SVG form.
    pub open spec fn spec_standard(kind: ElementType) -> FeatureSet {
        FeatureSet {
            render: Some(kind),
            to_svg: if kind == ElementType::Text || kind == ElementType::Container {
                None
            } else {
                Some(kind)
            },
            hit_test: Some(kind),
            translate: Some(kind),
        }
    }

    /// The set without features.
    pub fn empty() -> (r: FeatureSet)
        ensures
            r == Self::spec_empty(),
            forall|c: Capability| r.lookup(c) is None,
    {
        FeatureSet { render: None, to_svg: None, hit_test: None, translate: None }
    }

    /// The standard features of an element kind.
    pub fn standard(kind: ElementType) -> (r: FeatureSet)
        ensures
            r == Self::spec_standard(kind),
    {
        let to_svg = match kind {
            ElementType::Text => None,
            ElementType::Container => None,
            _ => Some(kind),
        };
        FeatureSet { render: Some(kind), to_svg, hit_test: Some(kind), translate: Some(kind) }
    }

    /// Registers `feature`, in place of an earlier one for its capability.
    pub fn register(&mut self, feature: Feature)
        ensures
            *final(self) == old(self).with(feature),
            final(self).lookup(feature.capability) == Some(feature.routine),
            forall|c: Capability|
                c != feature.capability ==> final(self).lookup(c) == old(self).lookup(c),
    {
        match feature.capability {
            Capability::Render => {
                self.render = Some(feature.routine);
            },
            Capability::ToSvg => {
                self.to_svg = Some(feature.routine);
            },
            Capability::HitTest => {
                self.hit_test = Some(feature.routine);
            },
            Capability::Translate => {
                self.translate = Some(feature.routine);
            },
        }
    }

    /// The feature registered for `capability`, or `None` where there is
    /// none.
    pub fn query(&self, capability: Capability) -> (r: Option<Feature>)
        ensures
            r == (match self.lookup(capability) {
                Some(routine) => Some(Feature { capability, routine }),
                None => None::<Feature>,
            }),
    {
        let slot = match capability {
            Capability::Render => self.render,
            Capability::ToSvg => self.to_svg,
            Capability::HitTest => self.hit_test,
            Capability::Translate => self.translate,
        };
        match slot {
            Some(routine) => Some(Feature { capability, routine }),
            None => None,
        }
    }

    /// Registers every feature of `other`.
    pub fn add_feature_set(&mut self, other: FeatureSet)
        ensures
            *final(self) == old(self).merged(other),
    {
        if other.render.is_some() {
            self.render = other.render;
        }
        if other.to_svg.is_some() {
            self.to_svg = other.to_svg;
        }
        if other.hit_test.is_some() {
            self.hit_test = other.hit_test;
        }
        if other.translate.is_some() {
            self.translate = other.translate;
        }
    }
}

/// The shape that an entity carries, with its geometry and style.
#[derive(Debug, PartialEq, Eq)]
pub enum ShapeModel {
    Rectangle { rectangle: Rectangle, style: ShapeStyle },
    Polygon { polygon: Polygon2D, style: ShapeStyle },
    FreeHand { path: Path, style: ShapeStyle },
    Text { text: Text, text_style: TextStyle },
    Container { children: Vec<Entity> },
}

/// What a [`ShapeModel`] holds, as mathematical values.
pub enum ModelView {
    Rectangle { rectangle: Rectangle, style: ShapeStyleView },
    Polygon { vertices: Seq<Point2>, style: ShapeStyleView },
    FreeHand { commands: Seq<PathCommand>, style: ShapeStyleView },
    Text { text: TextView, text_style: TextStyleView },
    Container { children: Seq<EntityView> },
}

/// The universal drawable record.
#[derive(Debug, PartialEq, Eq)]
pub struct Entity {
    id: Id,
    model: ShapeModel,
    features: FeatureSet,
}

/// What an [`Entity`] holds, as mathematical values.
pub struct EntityView {
    pub id: IdView,
    pub model: ModelView,
    pub features: FeatureSet,
}

/// The views of a sequence of entities.
pub open spec fn entity_views(entities: Seq<Entity>) -> Seq<EntityView>
    decreases entities,
{
    Seq::new(
        entities.len(),
        |i: int|
            if 0 <= i < entities.len() {
                entities[i].spec_view()
            } else {
                arbitrary()
            },
    )
}

impl ShapeModel {
    pub open spec fn spec_view(self) -> ModelView
        decreases self,
    {
        match self {
            ShapeModel::Rectangle { rectangle, style } => ModelView::Rectangle {
                rectangle,
                style: style@,
            },
            ShapeModel::Polygon { polygon, style } => ModelView::Polygon {
                vertices: polygon@,
                style: style@,
            },
            ShapeModel::FreeHand { path, style } => ModelView::FreeHand {
                commands: path@,
                style: style@,
            },
            ShapeModel::Text { text, text_style } => ModelView::Text {
                text: text@,
                text_style: text_style@,
            },
            ShapeModel::Container { children } => ModelView::Container {
                children: entity_views(children@),
            },
        }
    }
}

impl View for ShapeModel {
    type V = ModelView;

    open spec fn view(&self) -> ModelView {
        self.spec_view()
    }
}

impl Entity {
    pub closed spec fn spec_view(self) -> EntityView
        decreases self,
    {
        EntityView { id: self.id@, model: self.model.spec_view(), features: self.features }
    }
}

impl View for Entity {
    type V = EntityView;

    open spec fn view(&self) -> EntityView {
        self.spec_view()
    }
}

/// The primitives that the models of `entities` paint, in their order.
pub open spec fn paint_all(entities: Seq<EntityView>) -> Seq<Painted>
    decreases entities,
{
    if entities.len() == 0 {
        Seq::empty()
    } else {
        paint_all(entities.drop_last()) + entities.last().model.paint()
    }
}

impl ModelView {
    /// The element kind of the model.
    pub open spec fn kind(self) -> ElementType {
        match self {
            ModelView::Rectangle { .. } => ElementType::Rectangle,
            ModelView::Polygon { .. } => ElementType::Polygon,
            ModelView::FreeHand { .. } => ElementType::FreeHand,
            ModelView::Text { .. } => ElementType::Text,
            ModelView::Container { .. } => ElementType::Container,
        }
    }

    /// Whether every entity below the model is well formed.
    pub open spec fn children_wf(self) -> bool
        decreases self,
    {
        match self {
            ModelView::Container { children } => forall|i: int|
                0 <= i < children.len() ==> (#[trigger] children[i]).wf(),
            _ => true,
        }
    }

    /// The primitives that paint the model: one for a shape or a text, and
    /// those of the children, in their order, for a container.
    pub open spec fn paint(self) -> Seq<Painted>
        decreases self,
    {
        match self {
            ModelView::Rectangle { rectangle, style } => seq![
                Painted::Rectangle(rectangle, style, None),
            ],
            ModelView::Polygon { vertices, style } => seq![Painted::Polygon(vertices, style, None)],
            ModelView::FreeHand { commands, style } => seq![Painted::Path(commands, style, None)],
            ModelView::Text { text, text_style } => seq![Painted::Text(text, text_style, None)],
            ModelView::Container { children } => paint_all(children),
        }
    }

    /// Whether `p` hits the model: a rectangle where it holds `p`, a
    /// polygon or a path where `p` lies in the bounding box of its points,
    /// a text at its anchor, and a container where `p` hits a child.
    pub open spec fn hit(self, p: Point2) -> bool
        decreases self,
    {
        match self {
            ModelView::Rectangle { rectangle, .. } => rectangle.spec_contains(p),
            ModelView::Polygon { vertices, .. } => in_bounds(vertices, p),
            ModelView::FreeHand { commands, .. } => in_bounds(named_points(commands), p),
            ModelView::Text { text, .. } => text.anchor == p,
            ModelView::Container { children } => exists|i: int|
                0 <= i < children.len() && (#[trigger] children[i]).model.hit(p),
        }
    }

    /// Whether the model moved by `by` stays in the plane.
    pub open spec fn fits(self, by: Vector2) -> bool
        decreases self,
    {
        match self {
            ModelView::Rectangle { rectangle, .. } => rectangle.offset_fits(by),
            ModelView::Polygon { vertices, .. } => all_fit(vertices, by),
            ModelView::FreeHand { commands, .. } => commands_fit(commands, by),
            ModelView::Text { text, .. } => text.anchor.offset_fits(by),
            ModelView::Container { children } => forall|i: int|
                0 <= i < children.len() ==> (#[trigger] children[i]).model.fits(by),
        }
    }

    /// The model moved by `by`.
    pub open spec fn moved(self, by: Vector2) -> ModelView
        decreases self,
    {
        match self {
            ModelView::Rectangle { rectangle, style } => ModelView::Rectangle {
                rectangle: rectangle.offset(by),
                style,
            },
            ModelView::Polygon { vertices, style } => ModelView::Polygon {
                vertices: all_offset(vertices, by),
                style,
            },
            ModelView::FreeHand { commands, style } => ModelView::FreeHand {
                commands: commands_offset(commands, by),
                style,
            },
            ModelView::Text { text, text_style } => ModelView::Text {
                text: TextView { content: text.content, anchor: text.anchor.offset(by) },
                text_style,
            },
            ModelView::Container { children } => ModelView::Container {
                children: Seq::new(
                    children.len(),
                    |i: int|
                        if 0 <= i < children.len() {
                            children[i].moved(by)
                        } else {
                            arbitrary()
                        },
                ),
            },
        }
    }
}

impl EntityView {
    /// The identifier's kind is that of the model, here and below.
    pub open spec fn wf(self) -> bool
        decreases self,
    {
        self.id.element_type == self.model.kind() && self.model.children_wf()
    }

    /// Whether the entity has the standard routine of its own kind for
    /// `capability`.
    pub open spec fn can(self, capability: Capability) -> bool {
        self.features.lookup(capability) == Some(self.model.kind())
    }

    /// What the entity paints: its model where it can render, nothing
    /// where it cannot.
    pub open spec fn paint(self) -> Seq<Painted> {
        if self.can(Capability::Render) {
            self.model.paint()
        } else {
            Seq::empty()
        }
    }

    /// Whether `p` hits the entity.
    pub open spec fn hit(self, p: Point2) -> bool {
        self.can(Capability::HitTest) && self.model.hit(p)
    }

    /// Whether the entity can be moved by `by`.
    pub open spec fn movable(self, by: Vector2) -> bool {
        self.can(Capability::Translate) && self.model.fits(by)
    }

    /// The entity with its model moved by `by`.
    pub open spec fn moved(self, by: Vector2) -> EntityView
        decreases self,
    {
        EntityView { id: self.id, model: self.model.moved(by), features: self.features }
    }
}

/// Moving an entity keeps it well formed.
pub proof fn lemma_moved_wf(entity: EntityView, by: Vector2)
    requires
        entity.wf(),
    ensures
        entity.moved(by).wf(),
        entity.moved(by).model.kind() == entity.model.kind(),
    decreases entity,
{
    match entity.model {
        ModelView::Container { children } => {
            let moved = entity.moved(by).model->Container_children;
            assert forall|i: int| 0 <= i < moved.len() implies (#[trigger] moved[i]).wf() by {
                lemma_moved_wf(children[i], by);
            }
        },
        _ => {},
    }
}

impl ShapeModel {
    /// The element kind of the model.
    pub fn kind(&self) -> (r: ElementType)
        ensures
            r == self@.kind(),
    {
        match self {
            ShapeModel::Rectangle { .. } => ElementType::Rectangle,
            ShapeModel::Polygon { .. } => ElementType::Polygon,
            ShapeModel::FreeHand { .. } => ElementType::FreeHand,
            ShapeModel::Text { .. } => ElementType::Text,
            ShapeModel::Container { .. } => ElementType::Container,
        }
    }

    /// Paints the model: a shape or a text as one primitive, a container
    /// as its children in their order.
    pub fn paint<R: Renderer>(&self, renderer: &mut R)
        requires
            old(renderer).wf(),
        ensures
            final(renderer).wf(),
            final(renderer).state() == drawn_all::<R>(old(renderer).state(), self@.paint()),
        decreases self,
    {
        let ghost start = renderer.state();
        match self {
            ShapeModel::Rectangle { rectangle, style } => {
                renderer.rectangle(rectangle, style, None);
                proof {
                    lemma_drawn_all_one::<R>(start, self@.paint()[0]);
                }
            },
            ShapeModel::Polygon { polygon, style } => {
                renderer.polygon(polygon, style, None);
                proof {
                    lemma_drawn_all_one::<R>(start, self@.paint()[0]);
                }
            },
            ShapeModel::FreeHand { path, style } => {
                renderer.path(path, style, None);
                proof {
                    lemma_drawn_all_one::<R>(start, self@.paint()[0]);
                }
            },
            ShapeModel::Text { text, text_style } => {
                renderer.text(text, text_style, None);
                proof {
                    lemma_drawn_all_one::<R>(start, self@.paint()[0]);
                }
            },
            ShapeModel::Container { children } => {
                let ghost views = entity_views(children@);
                let mut i: usize = 0;
                while i < children.len()
                    invariant
                        i <= children.len(),
                        self is Container,
                        self->children == *children,
                        views == entity_views(children@),
                        renderer.wf(),
                        renderer.state() == drawn_all::<R>(start, paint_all(views.take(i as int))),
                    decreases children.len() - i,
                {
                    proof {
                        vstd::std_specs::vec::axiom_vec_index_decreases(*children, i as int);
                        assert(views.take(i as int + 1).drop_last() =~= views.take(i as int));
                        lemma_drawn_all_concat::<R>(
                            start,
                            paint_all(views.take(i as int)),
                            children@[i as int]@.model.paint(),
                        );
                    }
                    children[i].model.paint(renderer);
                    i += 1;
                }
                assert(views.take(i as int) =~= views);
            },
        }
    }

    /// Whether `p` hits the model.
    pub fn hit_test(&self, p: Point2) -> (r: bool)
        ensures
            r == self@.hit(p),
        decreases self,
    {
        match self {
            ShapeModel::Rectangle { rectangle, .. } => rectangle.contains(p),
            ShapeModel::Polygon { polygon, .. } => {
                match bounding_box(polygon.vertices()) {
                    Some(bounds) => {
                        proof {
                            crate::geometry::lemma_extremes_are_coordinates(polygon@);
                        }
                        bounds.contains(p)
                    },
                    None => false,
                }
            },
            ShapeModel::FreeHand { path, .. } => {
                let points = path.points();
                match bounding_box(&points) {
                    Some(bounds) => {
                        proof {
                            crate::geometry::lemma_extremes_are_coordinates(points@);
                        }
                        bounds.contains(p)
                    },
                    None => false,
                }
            },
            ShapeModel::Text { text, .. } => text.anchor.x == p.x && text.anchor.y == p.y,
            ShapeModel::Container { children } => {
                let ghost views = entity_views(children@);
                let mut i: usize = 0;
                while i < children.len()
                    invariant
                        i <= children.len(),
                        self is Container,
                        self->children == *children,
                        views == entity_views(children@),
                        forall|k: int| 0 <= k < i ==> !(#[trigger] views[k]).model.hit(p),
                    decreases children.len() - i,
                {
                    proof {
                        vstd::std_specs::vec::axiom_vec_index_decreases(*children, i as int);
                    }
                    if children[i].model.hit_test(p) {
                        assert(views[i as int].model.hit(p));
                        return true;
                    }
                    i += 1;
                }
                false
            },
        }
    }

    /// The model moved by `by`, or `None` where a point of it would leave
    /// the plane.
    pub fn translated(&self, by: Vector2) -> (r: Option<ShapeModel>)
        ensures
            r is Some <==> self@.fits(by),
            r matches Some(moved) ==> moved@ == self@.moved(by),
        decreases self,
    {
        match self {
            ShapeModel::Rectangle { rectangle, style } => match rectangle.translated(by) {
                Some(moved) => Some(
                    ShapeModel::Rectangle { rectangle: moved, style: style.duplicate() },
                ),
                None => None,
            },
            ShapeModel::Polygon { polygon, style } => match translated_points(
                polygon.vertices(),
                by,
            ) {
                Some(moved) => Some(
                    ShapeModel::Polygon {
                        polygon: Polygon2D::new(moved),
                        style: style.duplicate(),
                    },
                ),
                None => None,
            },
            ShapeModel::FreeHand { path, style } => match path.translated(by) {
                Some(moved) => Some(ShapeModel::FreeHand { path: moved, style: style.duplicate() }),
                None => None,
            },
            ShapeModel::Text { text, text_style } => match text.anchor.translated(by) {
                Some(anchor) => Some(
                    ShapeModel::Text {
                        text: Text { content: text.content.clone(), anchor },
                        text_style: text_style.duplicate(),
                    },
                ),
                None => None,
            },
            ShapeModel::Container { children } => {
                let ghost views = entity_views(children@);
                let mut moved: Vec<Entity> = Vec::new();
                let mut i: usize = 0;
                while i < children.len()
                    invariant
                        i <= children.len(),
                        self is Container,
                        self->children == *children,
                        views == entity_views(children@),
                        moved@.len() == i,
                        forall|k: int| 0 <= k < i ==> (#[trigger] views[k]).model.fits(by),
                        forall|k: int|
                            0 <= k < i ==> (#[trigger] moved@[k])@ == views[k].moved(by),
                    decreases children.len() - i,
                {
                    proof {
                        vstd::std_specs::vec::axiom_vec_index_decreases(*children, i as int);
                    }
                    let child = &children[i];
                    match child.model.translated(by) {
                        Some(model) => {
                            moved.push(
                                Entity {
                                    id: child.id.duplicate(),
                                    model,
                                    features: child.features,
                                },
                            );
                        },
                        None => {
                            assert(!views[i as int].model.fits(by));
                            return None;
                        },
                    }
                    i += 1;
                }
                let result = ShapeModel::Container { children: moved };
                assert(result@->Container_children =~= self@.moved(by)->Container_children);
                Some(result)
            },
        }
    }
}

impl Entity {
    /// The entity with the given parts, or `None` where the identifier's
    /// kind is not that of the model.
    pub fn new(id: Id, model: ShapeModel, features: FeatureSet) -> (r: Option<Entity>)
        ensures
            r is Some <==> id@.element_type == model@.kind(),
            r matches Some(entity) ==> entity@ == (EntityView {
                id: id@,
                model: model@,
                features,
            }),
    {
        if *id.element_type() == model.kind() {
            Some(Entity { id, model, features })
        } else {
            None
        }
    }

    /// Takes the entity apart into its identifier, model and features.
    pub fn into_parts(self) -> (r: (Id, ShapeModel, FeatureSet))
        ensures
            r.0@ == self@.id,
            r.1@ == self@.model,
            r.2 == self@.features,
    {
        (self.id, self.model, self.features)
    }

    pub fn id(&self) -> (r: &Id)
        ensures
            r@ == self@.id,
    {
        &self.id
    }

    pub fn model(&self) -> (r: &ShapeModel)
        ensures
            r@ == self@.model,
            decreases_to!(self => r),
    {
        &self.model
    }

    pub fn features(&self) -> (r: FeatureSet)
        ensures
            r == self@.features,
    {
        self.features
    }

    /// Registers every feature of `set` on the entity.
    pub fn add_feature_set(&mut self, set: FeatureSet)
        ensures
            final(self)@ == (EntityView {
                features: old(self)@.features.merged(set),
                ..old(self)@
            }),
    {
        self.features.add_feature_set(set);
    }

    /// The feature registered for `capability`, or `None` where the entity
    /// has none.
    pub fn query(&self, capability: Capability) -> (r: Option<Feature>)
        ensures
            r == (match self@.features.lookup(capability) {
                Some(routine) => Some(Feature { capability, routine }),
                None => None::<Feature>,
            }),
    {
        self.features.query(capability)
    }

    /// Whether the entity has the standard routine of its own kind for
    /// `capability`.
    pub fn can(&self, capability: Capability) -> (r: bool)
        ensures
            r == self@.can(capability),
    {
        match self.features.query(capability) {
            Some(feature) => feature.routine == self.model.kind(),
            None => false,
        }
    }

    /// Paints the entity through its render feature; an entity without
    /// one paints nothing.
    pub fn render<R: Renderer>(&self, renderer: &mut R)
        requires
            old(renderer).wf(),
        ensures
            final(renderer).wf(),
            final(renderer).state() == drawn_all::<R>(old(renderer).state(), self@.paint()),
    {
        if self.can(Capability::Render) {
            self.model.paint(renderer);
        }
    }

    /// Whether `p` hits the entity, by its hit-test feature; nothing hits
    /// an entity without one.
    pub fn hit_test(&self, p: Point2) -> (r: bool)
        ensures
            r == self@.hit(p),
    {
        self.can(Capability::HitTest) && self.model.hit_test(p)
    }

    /// Moves the entity by `by` through its translate feature. Nothing
    /// changes where the entity has none or a point of it would leave the
    /// plane. Returns whether the entity moved.
    pub fn translate(&mut self, by: Vector2) -> (r: bool)
        ensures
            r == old(self)@.movable(by),
            final(self)@ == (if r {
                old(self)@.moved(by)
            } else {
                old(self)@
            }),
            old(self)@.wf() ==> final(self)@.wf(),
    {
        if !self.can(Capability::Translate) {
            return false;
        }
        match self.model.translated(by) {
            Some(moved) => {
                proof {
                    if self@.wf() {
                        lemma_moved_wf(self@, by);
                    }
                }
                self.model = moved;
                true
            },
            None => false,
        }
    }
}

} // verus!
