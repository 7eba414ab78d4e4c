//! The renderer contracts: the drawing primitives that every backend
//! offers, and the deltas by which a retained backend follows the entities.
use crate::element::id::{Id, IdView};
use crate::entity::{Entity, EntityView};
use crate::geometry::{
    Circle, Ellipse, Point2, Polygon2D, Rectangle, Segment2D, Text, TextView, Transform2D,
};
use crate::path::{Path, PathCommand};
use crate::style::{ShapeStyle, ShapeStyleView, TextStyle, TextStyleView};
use vstd::prelude::*;

pub mod canvas_renderer;
pub mod svg_element;
pub mod svg_renderer;

verus! {

/// One primitive that a renderer was asked to paint.
pub enum Painted {
    Path(Seq<PathCommand>, ShapeStyleView, Option<Transform2D>),
    Segment(Segment2D, ShapeStyleView, Option<Transform2D>),
    Polygon(Seq<Point2>, ShapeStyleView, Option<Transform2D>),
    Rectangle(Rectangle, ShapeStyleView, Option<Transform2D>),
    Circle(Circle, ShapeStyleView, Option<Transform2D>),
    Ellipse(Ellipse, ShapeStyleView, Option<Transform2D>),
    Text(TextView, TextStyleView, Option<Transform2D>),
}

/// An immediate-mode renderer. Primitives paint in call order, and `clear`
/// discards what was painted before. No operation fails.
///
/// What a backend has produced is its state. Each operation takes the
/// state to the one that the backend's `cleared` or `drawn` names, so that
/// what a run of calls produces is known for every backend.
pub trait Renderer {
    /// What the backend has produced, as a mathematical value.
    type State;

    /// What the backend has produced so far.
    spec fn state(&self) -> Self::State;

    /// The backend's own invariant.
    spec fn wf(&self) -> bool;

    /// The state after `clear`.
    spec fn cleared(state: Self::State) -> Self::State;

    /// The state after painting `primitive`.
    spec fn drawn(state: Self::State, primitive: Painted) -> Self::State;

    /// Discards what was painted before.
    fn clear(&mut self)
        requires
            old(self).wf(),
        ensures
            final(self).wf(),
            final(self).state() == Self::cleared(old(self).state()),
    ;

    /// Paints a path.
    fn path(&mut self, path: &Path, style: &ShapeStyle, transform: Option<Transform2D>)
        requires
            old(self).wf(),
        ensures
            final(self).wf(),
            final(self).state() == Self::drawn(
                old(self).state(),
                Painted::Path(path@, style@, transform),
            ),
    ;

    /// Paints a segment.
    fn segment(&mut self, segment: &Segment2D, style: &ShapeStyle, transform: Option<Transform2D>)
        requires
            old(self).wf(),
        ensures
            final(self).wf(),
            final(self).state() == Self::drawn(
                old(self).state(),
                Painted::Segment(*segment, style@, transform),
            ),
    ;

    /// Paints a polygon.
    fn polygon(&mut self, polygon: &Polygon2D, style: &ShapeStyle, transform: Option<Transform2D>)
        requires
            old(self).wf(),
        ensures
            final(self).wf(),
            final(self).state() == Self::drawn(
                old(self).state(),
                Painted::Polygon(polygon@, style@, transform),
            ),
    ;

    /// Paints a rectangle.
    fn rectangle(
        &mut self,
        rectangle: &Rectangle,
        style: &ShapeStyle,
        transform: Option<Transform2D>,
    )
        requires
            old(self).wf(),
        ensures
            final(self).wf(),
            final(self).state() == Self::drawn(
                old(self).state(),
                Painted::Rectangle(*rectangle, style@, transform),
            ),
    ;

    /// Paints a circle.
    fn circle(&mut self, circle: &Circle, style: &ShapeStyle, transform: Option<Transform2D>)
        requires
            old(self).wf(),
        ensures
            final(self).wf(),
            final(self).state() == Self::drawn(
                old(self).state(),
                Painted::Circle(*circle, style@, transform),
            ),
    ;

    /// Paints an ellipse.
    fn ellipse(&mut self, ellipse: &Ellipse, style: &ShapeStyle, transform: Option<Transform2D>)
        requires
            old(self).wf(),
        ensures
            final(self).wf(),
            final(self).state() == Self::drawn(
                old(self).state(),
                Painted::Ellipse(*ellipse, style@, transform),
            ),
    ;

    /// Paints a text.
    fn text(&mut self, text: &Text, style: &TextStyle, transform: Option<Transform2D>)
        requires
            old(self).wf(),
        ensures
            final(self).wf(),
            final(self).state() == Self::drawn(
                old(self).state(),
                Painted::Text(text@, style@, transform),
            ),
    ;
}

/// The state after painting `primitives`, in their order.
pub open spec fn drawn_all<R: Renderer>(state: R::State, primitives: Seq<Painted>) -> R::State
    decreases primitives.len(),
{
    if primitives.len() == 0 {
        state
    } else {
        R::drawn(drawn_all::<R>(state, primitives.drop_last()), primitives.last())
    }
}

/// Painting one more primitive after a run.
pub proof fn lemma_drawn_all_push<R: Renderer>(
    state: R::State,
    primitives: Seq<Painted>,
    primitive: Painted,
)
    ensures
        drawn_all::<R>(state, primitives.push(primitive)) == R::drawn(
            drawn_all::<R>(state, primitives),
            primitive,
        ),
{
    assert(primitives.push(primitive).drop_last() =~= primitives);
}

/// Painting two runs one after the other is painting their concatenation.
pub proof fn lemma_drawn_all_concat<R: Renderer>(
    state: R::State,
    first: Seq<Painted>,
    second: Seq<Painted>,
)
    ensures
        drawn_all::<R>(state, first + second) == drawn_all::<R>(
            drawn_all::<R>(state, first),
            second,
        ),
    decreases second.len(),
{
    if second.len() > 0 {
        lemma_drawn_all_concat::<R>(state, first, second.drop_last());
        assert((first + second).drop_last() =~= first + second.drop_last());
    }
}

/// Painting a single primitive is one `drawn`.
pub proof fn lemma_drawn_all_one<R: Renderer>(state: R::State, primitive: Painted)
    ensures
        drawn_all::<R>(state, seq![primitive]) == R::drawn(state, primitive),
{
    let one = seq![primitive];
    assert(drawn_all::<R>(state, one.drop_last()) == state);
}

/// No retained node bears the identifier that a delta names.
#[derive(Copy, Clone, Debug, PartialEq, Eq, Structural)]
pub struct NotFound;

/// An incremental renderer: a backend whose retained scene graph is kept
/// in step with the entities by deltas, each keyed by the identifier of an
/// entity. It offers the immediate contract too, on the same state.
pub trait RendererIncremental: Renderer {
    /// The state after `add`.
    spec fn added(state: Self::State, entity: EntityView) -> Self::State;

    /// The state after `modify`.
    spec fn modified(state: Self::State, entity: EntityView) -> Self::State;

    /// Whether `modify` finds no node to update.
    spec fn modify_misses(state: Self::State, entity: EntityView) -> bool;

    /// The state after `remove`.
    spec fn removed(state: Self::State, id: IdView) -> Self::State;

    /// Whether `remove` finds no node to detach.
    spec fn remove_misses(state: Self::State, id: IdView) -> bool;

    /// Allocates a retained node for `entity` and appends it.
    fn add(&mut self, entity: &Entity)
        requires
            old(self).wf(),
        ensures
            final(self).wf(),
            final(self).state() == Self::added(old(self).state(), entity@),
    ;

    /// Updates in place the retained node of `entity`. Fails with
    /// `NotFound`, and changes nothing, where there is none.
    fn modify(&mut self, entity: &Entity) -> (r: Result<(), NotFound>)
        requires
            old(self).wf(),
        ensures
            final(self).wf(),
            final(self).state() == Self::modified(old(self).state(), entity@),
            r is Err <==> Self::modify_misses(old(self).state(), entity@),
            r is Err ==> final(self).state() == old(self).state(),
    ;

    /// Detaches the retained node that bears `id`. Fails with `NotFound`,
    /// and changes nothing, where there is none.
    fn remove(&mut self, id: &Id) -> (r: Result<(), NotFound>)
        requires
            old(self).wf(),
        ensures
            final(self).wf(),
            final(self).state() == Self::removed(old(self).state(), id@),
            r is Err <==> Self::remove_misses(old(self).state(), id@),
            r is Err ==> final(self).state() == old(self).state(),
    ;
}

/// The state after adding `entities`, in their order.
pub open spec fn added_all<R: RendererIncremental>(
    state: R::State,
    entities: Seq<EntityView>,
) -> R::State
    decreases entities.len(),
{
    if entities.len() == 0 {
        state
    } else {
        R::added(added_all::<R>(state, entities.drop_last()), entities.last())
    }
}

} // verus!
